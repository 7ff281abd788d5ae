//! The decisions of the interactive chat loop.
//!
//! The loop itself lives outside the library: it reads lines, performs
//! the network call, and prints. Every decision — when to stop, what to
//! send, how the transcript grows — is taken here.

use vstd::prelude::*;
use vstd::string::StringSliceAdditionalSpecFns;

use crate::codec::request_body;
use crate::codec::request_body_json;
use crate::transcript::Message;
use crate::transcript::Role;
use crate::transcript::Transcript;
use crate::window::trim_bytes;
use crate::window::trim_ws;

verus! {

/// An upper-case ASCII letter lowered; anything else unchanged.
pub open spec fn lower_byte(b: u8) -> u8 {
    if 65 <= b <= 90 {
        (b + 32) as u8
    } else {
        b
    }
}

/// ASCII lower-casing of a byte string.
pub open spec fn lower_bytes(s: Seq<u8>) -> Seq<u8> {
    s.map_values(|b: u8| lower_byte(b))
}

/// A line ends the session when, trimmed of surrounding whitespace, it
/// equals "exit" up to ASCII case.
pub open spec fn is_exit_line(line: Seq<u8>) -> bool {
    lower_bytes(trim_ws(line)) == "exit".spec_bytes()
}

/// Decide whether a typed line ends the interactive session.
pub fn is_exit_command(line: &[u8]) -> (r: bool)
    ensures
        r == is_exit_line(line@),
{
    let t = trim_bytes(line);
    let pat = "exit".as_bytes();
    let n = t.len();
    proof {
        assert(lower_bytes(t@).len() == t@.len());
    }
    if n != pat.len() {
        return false;
    }
    let mut i: usize = 0;
    while i < n
        invariant
            n == t@.len() == pat@.len(),
            i <= n,
            t@ == trim_ws(line@),
            pat@ == "exit".spec_bytes(),
            forall|j: int| 0 <= j < i ==> lower_byte(t@[j]) == pat@[j],
        decreases n - i,
    {
        let c = t[i];
        let c = if 65 <= c && c <= 90 {
            c + 32
        } else {
            c
        };
        if c != pat[i] {
            proof {
                assert(lower_bytes(t@)[i as int] == lower_byte(t@[i as int]));
            }
            return false;
        }
        i = i + 1;
    }
    proof {
        assert(lower_bytes(t@) =~= pat@);
    }
    true
}

/// What the loop does with a typed line: stop, or send a request body.
pub enum TurnAction {
    Exit,
    Send(Vec<u8>),
}

/// One turn of the interactive loop, decided from the typed line.
///
/// An exit line leaves the transcript untouched and stops the loop; any
/// other line is appended as a user message, and the request body for
/// the grown transcript is handed back to be sent.
pub fn chat_turn(t: &mut Transcript, model: &[u8], line: Vec<u8>) -> (a: TurnAction)
    requires
        old(t).wf(),
    ensures
        final(t).wf(),
        is_exit_line(line@) ==> a is Exit && final(t)@ == old(t)@,
        !is_exit_line(line@) ==> final(t)@ =~= old(t)@.push(
            Message { role: Role::User, content: line },
        ),
        !is_exit_line(line@) ==> (a matches TurnAction::Send(b) && b@ == request_body_json(
            model@,
            old(t)@.push(Message { role: Role::User, content: line }),
        )),
{
    if is_exit_command(line.as_slice()) {
        TurnAction::Exit
    } else {
        t.push_user(line);
        TurnAction::Send(request_body(model, t))
    }
}

/// Record a received reply: a present reply joins the transcript as an
/// assistant message; an absent one changes nothing, and the session
/// goes on.
pub fn note_reply(t: &mut Transcript, reply: Option<Vec<u8>>)
    requires
        old(t).wf(),
    ensures
        final(t).wf(),
        reply matches Some(c) ==> final(t)@ =~= old(t)@.push(
            Message { role: Role::Assistant, content: c },
        ),
        reply is None ==> final(t)@ == old(t)@,
{
    match reply {
        Some(c) => t.push_assistant(c),
        None => (),
    }
}

} // verus!
