//! The chat bot's replies.
use vstd::prelude::*;
use crate::text::str_equal;

verus! {

/// The reply of the bot to a message: `Pong!` to `!ping`, nothing to
/// anything else.
pub open spec fn reply_spec(content: Seq<char>) -> Option<Seq<char>> {
    if content == "!ping"@ {
        Some("Pong!"@)
    } else {
        None
    }
}

/// What the bot answers to a message with this content, if anything.
pub fn reply_to(content: &str) -> (reply: Option<String>)
    ensures
        match reply {
            Some(r) => reply_spec(content@) == Some(r@),
            None => reply_spec(content@) is None,
        },
{
    if str_equal(content, "!ping") {
        Some(String::from_str("Pong!"))
    } else {
        None
    }
}

} // verus!
