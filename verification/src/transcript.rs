//! Messages and transcripts.
//!
//! A transcript is the ordered conversational context sent with every
//! chat-completion request. It always begins with exactly one system
//! message; user and assistant messages follow.

use vstd::prelude::*;
use vstd::string::StrSliceExecFns;
use vstd::string::StringSliceAdditionalSpecFns;

verus! {

/// Who a message is attributed to on the wire.
#[derive(Debug, Clone, Copy, PartialEq, Eq, Structural)]
pub enum Role {
    System,
    User,
    Assistant,
}

/// One role-tagged message. The content is UTF-8 text as bytes.
#[derive(Debug)]
pub struct Message {
    pub role: Role,
    pub content: Vec<u8>,
}

/// The fixed system prompt seeding an interactive chat session.
pub open spec fn chat_system_prompt() -> Seq<u8> {
    "You are a command line expert. Give me a precise CLI command for the query I ask you. Keep it concise, just give me the exact command to run (no explanations).".spec_bytes()
}

/// The fixed system prompt for log analysis.
pub open spec fn analyze_system_prompt() -> Seq<u8> {
    "You are a computer science expert. Analyze the following logs and find the issues and potential bugs. Keep it concise and to the point.".spec_bytes()
}

/// An ordered list of messages, starting with exactly one system message.
pub struct Transcript {
    msgs: Vec<Message>,
}

impl View for Transcript {
    type V = Seq<Message>;

    closed spec fn view(&self) -> Seq<Message> {
        self.msgs@
    }
}

impl Transcript {
    /// A transcript begins with one system message; no later message is
    /// a system message.
    pub open spec fn wf(&self) -> bool {
        &&& self@.len() >= 1
        &&& self@[0].role == Role::System
        &&& forall|i: int| 1 <= i < self@.len() ==> (#[trigger] self@[i].role) != Role::System
    }

    /// Start a transcript from a system prompt.
    pub fn new(system: Vec<u8>) -> (t: Transcript)
        ensures
            t.wf(),
            t@ =~= seq![(Message { role: Role::System, content: system })],
    {
        let mut msgs: Vec<Message> = Vec::new();
        msgs.push(Message { role: Role::System, content: system });
        Transcript { msgs }
    }

    /// Seed an interactive chat session with its fixed system prompt.
    pub fn new_chat() -> (t: Transcript)
        ensures
            t.wf(),
            t@.len() == 1,
            t@[0].role == Role::System,
            t@[0].content@ == chat_system_prompt(),
    {
        Transcript::new(
            "You are a command line expert. Give me a precise CLI command for the query I ask you. Keep it concise, just give me the exact command to run (no explanations).".as_bytes_vec(),
        )
    }

    /// Build the two-message transcript of a log analysis: the fixed
    /// system prompt followed by one user message holding the input.
    pub fn new_analysis(input: Vec<u8>) -> (t: Transcript)
        ensures
            t.wf(),
            t@.len() == 2,
            t@[0].role == Role::System,
            t@[0].content@ == analyze_system_prompt(),
            t@[1] == (Message { role: Role::User, content: input }),
    {
        let mut t = Transcript::new(
            "You are a computer science expert. Analyze the following logs and find the issues and potential bugs. Keep it concise and to the point.".as_bytes_vec(),
        );
        t.push_user(input);
        t
    }

    /// Append a user message.
    pub fn push_user(&mut self, content: Vec<u8>)
        requires
            old(self).wf(),
        ensures
            final(self).wf(),
            final(self)@ =~= old(self)@.push(Message { role: Role::User, content }),
    {
        self.msgs.push(Message { role: Role::User, content });
    }

    /// Append an assistant message.
    pub fn push_assistant(&mut self, content: Vec<u8>)
        requires
            old(self).wf(),
        ensures
            final(self).wf(),
            final(self)@ =~= old(self)@.push(Message { role: Role::Assistant, content }),
    {
        self.msgs.push(Message { role: Role::Assistant, content });
    }

    /// How many messages the transcript holds.
    pub fn len(&self) -> (n: usize)
        ensures
            n == self@.len(),
    {
        self.msgs.len()
    }

    /// Borrow the message at `i`.
    pub fn get(&self, i: usize) -> (m: &Message)
        requires
            i < self@.len(),
        ensures
            *m == self@[i as int],
    {
        &self.msgs[i]
    }
}

} // verus!
