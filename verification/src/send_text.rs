//! The text frames in which a worker answers its caller.

use vstd::prelude::*;
use crate::text::{owned, push_char};

verus! {

/// How the work stands.
#[derive(Debug, Clone, Copy, PartialEq, Eq, Structural)]
pub enum WsStatus {
    Success,
    Failure,
    Busy,
}

/// The word for a status.
pub open spec fn status_label(status: WsStatus) -> Seq<char> {
    match status {
        WsStatus::Success => "success"@,
        WsStatus::Failure => "failure"@,
        WsStatus::Busy => "busy"@,
    }
}

/// A message with a backslash in front of each of its double quotes.
pub open spec fn escaped(message: Seq<char>) -> Seq<char>
    decreases message.len(),
{
    if message.len() == 0 {
        Seq::<char>::empty()
    } else if message.last() == '"' {
        escaped(message.drop_last()) + seq!['\\', '"']
    } else {
        escaped(message.drop_last()).push(message.last())
    }
}

/// The frame that carries a message and a status: an object with the two members
/// `msg` and `status`, the status empty where there is none.
pub open spec fn frame(message: Seq<char>, status: Option<WsStatus>) -> Seq<char> {
    "{\"msg\":\""@ + escaped(message) + "\", \"status\":\""@ + match status {
        Some(status) => status_label(status),
        None => Seq::<char>::empty(),
    } + "\"}"@
}

impl WsStatus {
    /// The word for this status.
    pub fn to_string(&self) -> (r: String)
        ensures
            r@ == status_label(*self),
    {
        match self {
            WsStatus::Success => owned("success"),
            WsStatus::Failure => owned("failure"),
            WsStatus::Busy => owned("busy"),
        }
    }
}

/// Writes the frame that carries `msg` and `status`.
pub fn frame_text(msg: &str, status: Option<WsStatus>) -> (r: String)
    ensures
        r@ == frame(msg@, status),
{
    let mut text = owned("{\"msg\":\"");
    let ghost start = text@;
    let n = msg.unicode_len();
    let mut i: usize = 0;
    assert(msg@.take(0) =~= Seq::<char>::empty());
    assert(text@ =~= start + escaped(msg@.take(0)));
    while i < n
        invariant
            n == msg@.len(),
            i <= n,
            text@ == start + escaped(msg@.take(i as int)),
        decreases n - i,
    {
        let c = msg.get_char(i);
        proof {
            assert(msg@.take(i + 1).drop_last() =~= msg@.take(i as int));
            assert(msg@.take(i + 1).last() == c);
        }
        let ghost before = text@;
        if c == '"' {
            push_char(&mut text, '\\');
            push_char(&mut text, '"');
            assert(text@ =~= before + seq!['\\', '"']);
        } else {
            push_char(&mut text, c);
        }
        assert(text@ =~= start + escaped(msg@.take(i + 1)));
        i += 1;
    }
    assert(msg@.take(n as int) =~= msg@);
    text.append("\", \"status\":\"");
    match status {
        Some(status) => {
            text.append(status.to_string().as_str());
        },
        None => {
            assert(text@ =~= text@ + Seq::<char>::empty());
        },
    }
    text.append("\"}");
    text
}

} // verus!
