//! Encoding a chat-completion request body as JSON text.
//!
//! The body is `{"model": ..., "messages": [...], "temperature": 0.8}`,
//! with every string escaped as JSON requires: quote, backslash and
//! control bytes are escaped, everything else passes through, so valid
//! UTF-8 stays valid.

use vstd::prelude::*;
use vstd::string::StringSliceAdditionalSpecFns;

use crate::transcript::Message;
use crate::transcript::Role;
use crate::transcript::Transcript;

verus! {

/// The lower-case hex digit of a value below sixteen.
pub open spec fn hex_digit(n: u8) -> u8
    recommends
        n < 16,
{
    if n < 10 {
        (48 + n) as u8  // '0'..'9'
    } else {
        (87 + n) as u8  // 'a'..'f'
    }
}

/// How one byte appears inside a JSON string literal: quote and
/// backslash get a backslash escape, the named control bytes get their
/// short escapes, other control bytes become `\u00xx`, and the rest
/// stand as they are.
pub open spec fn esc_byte(b: u8) -> Seq<u8> {
    if b == 34 {  // '"'
        seq![92u8, 34u8]
    } else if b == 92 {  // '\'
        seq![92u8, 92u8]
    } else if b == 8 {
        seq![92u8, 98u8]  // \b
    } else if b == 9 {
        seq![92u8, 116u8]  // \t
    } else if b == 10 {
        seq![92u8, 110u8]  // \n
    } else if b == 12 {
        seq![92u8, 102u8]  // \f
    } else if b == 13 {
        seq![92u8, 114u8]  // \r
    } else if b < 32 {
        seq![92u8, 117u8, 48u8, 48u8, hex_digit(b / 16), hex_digit(b % 16)]
    } else {
        seq![b]
    }
}

/// A byte string escaped for use inside a JSON string literal.
pub open spec fn escape_json(s: Seq<u8>) -> Seq<u8>
    decreases s.len(),
{
    if s.len() == 0 {
        Seq::empty()
    } else {
        esc_byte(s[0]) + escape_json(s.drop_first())
    }
}

proof fn lemma_escape_push(s: Seq<u8>, b: u8)
    ensures
        escape_json(s.push(b)) =~= escape_json(s) + esc_byte(b),
    decreases s.len(),
{
    assert(s.push(b).len() == s.len() + 1);
    if s.len() == 0 {
        assert(s.push(b)[0] == b);
        assert(s.push(b).drop_first() =~= Seq::<u8>::empty());
        assert(escape_json(Seq::<u8>::empty()) =~= Seq::<u8>::empty());
        assert(escape_json(s.push(b)) =~= esc_byte(b) + escape_json(s.push(b).drop_first()));
        assert(escape_json(s.push(b)) =~= esc_byte(b));
        assert(escape_json(s) + esc_byte(b) =~= esc_byte(b));
    } else {
        lemma_escape_push(s.drop_first(), b);
        assert(s.push(b)[0] == s[0]);
        assert(s.push(b).drop_first() =~= s.drop_first().push(b));
        assert(esc_byte(s[0]) + (escape_json(s.drop_first()) + esc_byte(b)) =~= (esc_byte(s[0])
            + escape_json(s.drop_first())) + esc_byte(b));
    }
}

/// The wire name of a role.
pub open spec fn role_bytes(r: Role) -> Seq<u8> {
    match r {
        Role::System => "system".spec_bytes(),
        Role::User => "user".spec_bytes(),
        Role::Assistant => "assistant".spec_bytes(),
    }
}

/// One message as a JSON object.
pub open spec fn message_json(m: Message) -> Seq<u8> {
    "{\"role\":\"".spec_bytes() + role_bytes(m.role) + "\",\"content\":\"".spec_bytes()
        + escape_json(m.content@) + "\"}".spec_bytes()
}

/// A message list as the comma-separated inside of a JSON array.
pub open spec fn messages_json(msgs: Seq<Message>) -> Seq<u8>
    decreases msgs.len(),
{
    if msgs.len() == 0 {
        Seq::empty()
    } else if msgs.len() == 1 {
        message_json(msgs[0])
    } else {
        message_json(msgs[0]) + ",".spec_bytes() + messages_json(msgs.drop_first())
    }
}

proof fn lemma_messages_push(msgs: Seq<Message>, m: Message)
    ensures
        msgs.len() == 0 ==> messages_json(msgs.push(m)) =~= message_json(m),
        msgs.len() > 0 ==> messages_json(msgs.push(m)) =~= messages_json(msgs)
            + ",".spec_bytes() + message_json(m),
    decreases msgs.len(),
{
    if msgs.len() > 0 {
        lemma_messages_push(msgs.drop_first(), m);
        assert(msgs.push(m).drop_first() =~= msgs.drop_first().push(m));
        if msgs.len() == 1 {
            assert(messages_json(msgs.push(m)) =~= message_json(msgs[0]) + ",".spec_bytes()
                + message_json(m));
        } else {
            assert(messages_json(msgs.push(m)) =~= message_json(msgs[0]) + ",".spec_bytes()
                + (messages_json(msgs.drop_first()) + ",".spec_bytes() + message_json(m)));
            assert(message_json(msgs[0]) + ",".spec_bytes() + (messages_json(msgs.drop_first())
                + ",".spec_bytes() + message_json(m)) =~= (message_json(msgs[0])
                + ",".spec_bytes() + messages_json(msgs.drop_first())) + ",".spec_bytes()
                + message_json(m));
        }
    }
}

/// The whole request body.
pub open spec fn request_body_json(model: Seq<u8>, msgs: Seq<Message>) -> Seq<u8> {
    "{\"model\":\"".spec_bytes() + escape_json(model) + "\",\"messages\":[".spec_bytes()
        + messages_json(msgs) + "],\"temperature\":0.8}".spec_bytes()
}

/// Append the bytes of a literal.
fn write_str(out: &mut Vec<u8>, s: &str)
    ensures
        final(out)@ == old(out)@ + s.spec_bytes(),
{
    out.extend_from_slice(s.as_bytes());
}

/// Append `s` escaped for a JSON string literal.
fn write_escaped(out: &mut Vec<u8>, s: &[u8])
    ensures
        final(out)@ == old(out)@ + escape_json(s@),
{
    let ghost base = out@;
    let n = s.len();
    proof {
        assert(s@.take(0) =~= Seq::<u8>::empty());
        assert(out@ =~= base + escape_json(s@.take(0)));
    }
    let mut i: usize = 0;
    while i < n
        invariant
            n == s@.len(),
            i <= n,
            out@ == base + escape_json(s@.take(i as int)),
        decreases n - i,
    {
        let b = s[i];
        if b == 34 || b == 92 {
            out.push(92);
            out.push(b);
        } else if b == 8 {
            out.push(92);
            out.push(98);
        } else if b == 9 {
            out.push(92);
            out.push(116);
        } else if b == 10 {
            out.push(92);
            out.push(110);
        } else if b == 12 {
            out.push(92);
            out.push(102);
        } else if b == 13 {
            out.push(92);
            out.push(114);
        } else if b < 32 {
            out.push(92);
            out.push(117);
            out.push(48);
            out.push(48);
            let hi = b / 16;
            let lo = b % 16;
            out.push(if hi < 10 { 48 + hi } else { 87 + hi });
            out.push(if lo < 10 { 48 + lo } else { 87 + lo });
        } else {
            out.push(b);
        }
        proof {
            lemma_escape_push(s@.take(i as int), s@[i as int]);
            assert(s@.take(i as int).push(s@[i as int]) =~= s@.take(i as int + 1));
            assert(out@ =~= base + escape_json(s@.take(i as int + 1)));
        }
        i = i + 1;
    }
    proof {
        assert(s@.take(n as int) =~= s@);
    }
}

/// Append one message as a JSON object.
fn write_message(out: &mut Vec<u8>, m: &Message)
    ensures
        final(out)@ == old(out)@ + message_json(*m),
{
    let ghost base = out@;
    write_str(out, "{\"role\":\"");
    match m.role {
        Role::System => write_str(out, "system"),
        Role::User => write_str(out, "user"),
        Role::Assistant => write_str(out, "assistant"),
    }
    write_str(out, "\",\"content\":\"");
    write_escaped(out, m.content.as_slice());
    write_str(out, "\"}");
    proof {
        assert(out@ =~= base + message_json(*m));
    }
}

/// Build the JSON request body for one chat-completion call: the model
/// name, the whole transcript in order, and the fixed temperature.
pub fn request_body(model: &[u8], t: &Transcript) -> (r: Vec<u8>)
    ensures
        r@ == request_body_json(model@, t@),
{
    let mut out: Vec<u8> = Vec::new();
    write_str(&mut out, "{\"model\":\"");
    write_escaped(&mut out, model);
    write_str(&mut out, "\",\"messages\":[");
    let ghost base = out@;
    let n = t.len();
    proof {
        assert(t@.take(0) =~= Seq::<Message>::empty());
        assert(out@ =~= base + messages_json(t@.take(0)));
    }
    let mut i: usize = 0;
    while i < n
        invariant
            n == t@.len(),
            i <= n,
            out@ == base + messages_json(t@.take(i as int)),
        decreases n - i,
    {
        if i > 0 {
            write_str(&mut out, ",");
        }
        write_message(&mut out, t.get(i));
        proof {
            lemma_messages_push(t@.take(i as int), t@[i as int]);
            assert(t@.take(i as int).push(t@[i as int]) =~= t@.take(i as int + 1));
            assert(out@ =~= base + messages_json(t@.take(i as int + 1)));
        }
        i = i + 1;
    }
    proof {
        assert(t@.take(n as int) =~= t@);
    }
    write_str(&mut out, "],\"temperature\":0.8}");
    proof {
        assert(out@ =~= request_body_json(model@, t@));
    }
    out
}

} // verus!
