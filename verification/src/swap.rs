//! Interpretation of a state-changing swap call's reply. The first venue
//! answers a swap with a success-or-failure union; a failure branch carries
//! the venue's embedded rejection. The remote call itself stays outside the
//! library; this module decides, from the decoded reply, whether the venue
//! rejected the swap and with which message.

use vstd::prelude::*;
use crate::decode::{idl_values, label_matches_id, parse_idl_bytes, Label, Value};

verus! {

/// How issuing a swap fails.
#[derive(Debug)]
pub enum SwapError {
    Client(String),
    Encode(String),
    Swap(String),
}

/// The numeric tag of a failure branch named `err` on the wire.
pub const ERR_NAMED_TAG: u32 = 5_048_165;

/// The numeric tag this venue numbers its failure branch with.
pub const ERR_BRANCH_TAG: u32 = 3_456_837;

/// The payload of the reply's failure branch, when the reply is a union
/// tagged as a failure under either accepted tag.
pub open spec fn reply_error_spec(values: Seq<Value>) -> Option<Value> {
    if values.len() == 0 {
        None
    } else {
        match values[0] {
            Value::Variant(l, b) => if label_matches_id(l, ERR_NAMED_TAG) || label_matches_id(
                l,
                ERR_BRANCH_TAG,
            ) {
                Some(*b)
            } else {
                None
            },
            _ => None,
        }
    }
}

/// The venue's rejection message, when the decoded reply reports one: the
/// failure payload's text, or a fixed placeholder for a payload of
/// another kind. The venues embed their rejection reason as text; a
/// rejection payload of a composite kind is deliberately not rendered
/// into the message, only named by the placeholder.
pub fn swap_reply_error(values: &Vec<Value>) -> (r: Option<String>)
    ensures
        (match (r, reply_error_spec(values@)) {
            (Some(s), Some(p)) => s@ == (match p {
                Value::Text(t) => t@,
                _ => "venue rejection"@,
            }),
            (None, None) => true,
            _ => false,
        }),
{
    if values.len() == 0 {
        return None;
    }
    match &values[0] {
        Value::Variant(l, b) => {
            let matched: bool = match l {
                Label::Named(_, h) => *h == ERR_NAMED_TAG || *h == ERR_BRANCH_TAG,
                Label::Id(i) => *i == ERR_NAMED_TAG || *i == ERR_BRANCH_TAG,
            };
            if matched {
                match &**b {
                    Value::Text(t) => Some(t.clone()),
                    _ => Some("venue rejection".to_owned()),
                }
            } else {
                None
            }
        },
        _ => None,
    }
}

/// What a completed swap call's raw reply reports: acceptance, a
/// rejection with the venue's message, or a reply that does not parse and
/// so reports nothing either way.
#[derive(Debug)]
pub enum SwapReplyStatus {
    Accepted,
    Rejected(String),
    Unreadable,
}

/// The status a decoded reply reports: a failure branch is a rejection
/// carrying the venue's embedded message, anything else is acceptance.
pub open spec fn reply_status_post(r: SwapReplyStatus, values: Seq<Value>) -> bool {
    match reply_error_spec(values) {
        Some(p) => r matches SwapReplyStatus::Rejected(m) && m@ == (match p {
            Value::Text(t) => t@,
            _ => "venue rejection"@,
        }),
        None => r is Accepted,
    }
}

/// Decides from a raw swap reply whether the venue rejected the swap.
/// When the reply decodes, a failure branch is a rejection with the
/// venue's message and any other shape is acceptance; a reply the parser
/// refuses — malformed, or beyond its resource bounds — is reported as
/// unreadable for the caller to surface as an error.
pub fn swap_reply_status(raw: &[u8]) -> (r: SwapReplyStatus)
    ensures
        r is Unreadable || reply_status_post(r, idl_values(raw@)),
{
    match parse_idl_bytes(raw) {
        None => SwapReplyStatus::Unreadable,
        Some(values) => match swap_reply_error(&values) {
            Some(m) => SwapReplyStatus::Rejected(m),
            None => SwapReplyStatus::Accepted,
        },
    }
}

} // verus!
