//! Allowance upkeep: the decisions behind the utility that keeps each
//! venue pre-approved to draw funds, so executions need no approval on the
//! hot path. Reading the current allowance and sending an approval are
//! remote calls outside the library; the decode of the allowance reply and
//! the replenish decision are here.

use vstd::prelude::*;
use vstd::arithmetic::div_mod::{lemma_fundamental_div_mod, lemma_hoist_over_denominator};
use crate::decode::{extract_nat_by_id, first_nat_by_id, idl_values, parse_idl_bytes, Value};

verus! {

/// The allowance in an allowance reply: the first top-level value must be
/// a record, and the balance sits under this tag.
pub open spec fn allowance_spec(values: Seq<Value>) -> Option<u128> {
    if values.len() == 0 {
        None
    } else {
        match values[0] {
            Value::Record(fs) => first_nat_by_id(fs@, 3_230_440_920),
            _ => None,
        }
    }
}

/// Reads the allowance out of a decoded allowance reply.
pub fn parse_allowance(values: &Vec<Value>) -> (r: Option<u128>)
    ensures
        r == allowance_spec(values@),
{
    if values.len() == 0 {
        return None;
    }
    match &values[0] {
        Value::Record(fs) => extract_nat_by_id(fs, 3_230_440_920),
        _ => None,
    }
}

/// Reads the allowance out of a raw allowance reply: a reported
/// allowance is always the one the decoded reply holds, and a reply the
/// parser refuses carries no allowance.
pub fn parse_allowance_reply(raw: &[u8]) -> (r: Option<u128>)
    ensures
        (r matches Some(_) ==> r == allowance_spec(idl_values(raw@))),
{
    match parse_idl_bytes(raw) {
        None => None,
        Some(values) => parse_allowance(&values),
    }
}

/// An approval is replenished when the current allowance has fallen below
/// nine tenths of the target.
pub fn needs_approve(current: u128, target: u128) -> (r: bool)
    ensures
        r == (current < (9 * target) / 10),
{
    let q: u128 = target / 10;
    let rem: u128 = target % 10;
    proof {
        lemma_fundamental_div_mod(target as int, 10);
        lemma_hoist_over_denominator(9 * rem, 9 * q, 10nat);
        assert((9 * rem + 9 * q * 10) == 9 * target);
    }
    current < 9 * q + (9 * rem) / 10
}

} // verus!
