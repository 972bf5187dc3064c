//! The amount prompt's decision.
//!
//! The amount dialogue reads one reply per round and parses it as a decimal
//! number; the parse itself happens in the unverified front end, which hands
//! this module the reply together with the parse outcome. The decision is:
//! an absent or empty reply cancels the dialogue, a reply that parsed is
//! accepted with its value, and any other reply is rejected so that the
//! dialogue asks again.

use vstd::prelude::*;

verus! {

/// What one round of the amount dialogue decides.
#[derive(Clone, Copy, Debug, PartialEq, Eq)]
pub enum AmountReply {
    /// The reply was absent or empty: the dialogue is cancelled.
    Cancelled,
    /// The reply parsed as a number; its 64-bit encoding is carried along.
    Accepted(u64),
    /// The reply did not parse: the dialogue prompts again.
    Rejected,
}

/// The decision for a reply `input` whose parse outcome was `parsed`:
/// cancellation wins over everything, then a parsed value is accepted,
/// and anything else is rejected.
pub open spec fn amount_reply_spec(input: Option<Seq<char>>, parsed: Option<u64>) -> AmountReply {
    match input {
        None => AmountReply::Cancelled,
        Some(s) => if s.len() == 0 {
            AmountReply::Cancelled
        } else {
            match parsed {
                Some(v) => AmountReply::Accepted(v),
                None => AmountReply::Rejected,
            }
        },
    }
}

/// Decide one round of the amount dialogue. `input` is what the reader
/// produced; `parsed` is the parse outcome the front end computed for that
/// same reply, as the value's 64-bit encoding. An empty reply is a
/// cancellation even though it would not parse.
pub fn classify_amount_reply(input: &Option<String>, parsed: Option<u64>) -> (r: AmountReply)
    ensures
        r == amount_reply_spec(input.deep_view(), parsed),
{
    match input {
        None => AmountReply::Cancelled,
        Some(s) => {
            if s.as_str().is_empty() {
                AmountReply::Cancelled
            } else {
                match parsed {
                    Some(v) => AmountReply::Accepted(v),
                    None => AmountReply::Rejected,
                }
            }
        },
    }
}

} // verus!
