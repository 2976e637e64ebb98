//! First venue: a constant-product pool. Its listing method answers with a
//! success-or-failure union over a vector of pool records; the fields the
//! engine needs are addressed by numeric tags, and the ticker may sit under
//! either of two tags depending on the method.

use vstd::prelude::*;
use crate::decode::{
    as_record, extract_float_bits, extract_nat, extract_text_any, first_float_bits_by_id,
    first_of_list, first_text_by_ids, first_value_by_id, idl_values, label_matches_name_or_id,
    parse_idl_bytes, variant_payload, variant_payload_spec, Field, Value,
};

verus! {

/// The most recently decoded state of the first venue's pool: raw reserve
/// balances and accumulated fees in the smallest unit, the venue's own
/// quoted unit price as a raw float bit pattern (diagnostics only, never
/// computed on), and the pool's fee in basis points.
#[derive(Clone, Copy, Debug, PartialEq, Eq, Structural)]
pub struct KongPoolSnapshot {
    pub icp_raw: u128,
    pub sns_raw: u128,
    pub icp_lp_raw: u128,
    pub sns_lp_raw: u128,
    pub price_icp_per_sns_bits: u64,
    pub lp_fee_bps: u32,
}

/// How a fetch from the first venue fails.
#[derive(Debug)]
pub enum KongError {
    Client(String),
    Decode(String),
    MissingFields,
}

/// The ways the pool listing can fail to decode, for specification: the
/// venue answered with its failure branch, the response lacks the
/// expected shape or a field, the listed ticker is not the requested one,
/// or the pool fee does not fit its 32-bit form.
#[derive(Debug)]
pub enum KongFailure {
    VenueRefusal,
    MissingFields,
    TickerMismatch,
    FeeOutOfRange,
}

/// The payload of the listing's failure branch: the top-level union
/// carries a tag other than the success tag.
pub open spec fn pools_refusal(values: Seq<Value>) -> Option<Value> {
    if values.len() == 0 {
        None
    } else {
        match values[0] {
            Value::Variant(l, b) => if !label_matches_name_or_id(l, "ok"@, 17_724) {
                Some(*b)
            } else {
                None
            },
            _ => None,
        }
    }
}

/// The venue's embedded failure message: the refusal payload's text, or a
/// fixed placeholder for a payload of another kind.
pub open spec fn pools_refusal_text(values: Seq<Value>) -> Seq<char> {
    match pools_refusal(values) {
        Some(p) => match p {
            Value::Text(t) => t@,
            _ => "venue failure"@,
        },
        None => Seq::<char>::empty(),
    }
}

/// The pool record of the listing: the success branch of the union (tag
/// `ok` by name, or the tag this venue numbers its success branch with),
/// then the first element of the vector, which must be a record.
pub open spec fn pools_entry(values: Seq<Value>) -> Option<Seq<Field>> {
    if values.len() == 0 {
        None
    } else {
        match variant_payload_spec(values[0], "ok"@, 17_724) {
            Some(p) => match p {
                Value::List(es) => if es.len() > 0 {
                    match es[0] {
                        Value::Record(fs) => Some(fs@),
                        _ => None,
                    }
                } else {
                    None
                },
                _ => None,
            },
            None => None,
        }
    }
}

/// A natural under the tag `id`, under the lookup the pool listing uses: a
/// matching field of another kind ends the search.
pub open spec fn kong_nat(fields: Seq<Field>, id: u32) -> Option<u128> {
    match first_value_by_id(fields, id) {
        Some(v) => if v is Nat {
            Some(v->Nat_0)
        } else {
            None
        },
        None => None,
    }
}

/// What decoding the pool listing yields for a requested ticker: the
/// snapshot on success, or which way it failed.
pub open spec fn pools_result_spec(values: Seq<Value>, ticker: Seq<char>) -> Result<
    KongPoolSnapshot,
    KongFailure,
> {
    match pools_entry(values) {
        None => if pools_refusal(values) is Some {
            Err(KongFailure::VenueRefusal)
        } else {
            Err(KongFailure::MissingFields)
        },
        Some(fields) => match first_text_by_ids(fields, seq![4_007_505_752u32, 486_076_665u32]) {
            None => Err(KongFailure::MissingFields),
            Some(t) => if t != ticker {
                Err(KongFailure::TickerMismatch)
            } else {
                match (
                    kong_nat(fields, 1_476_685_581),
                    kong_nat(fields, 1_476_685_582),
                    kong_nat(fields, 1_283_592_060),
                    kong_nat(fields, 1_283_592_061),
                    first_float_bits_by_id(fields, 3_364_572_809),
                    kong_nat(fields, 4_243_077_425),
                ) {
                    (
                        Some(sns),
                        Some(icp),
                        Some(sns_lp),
                        Some(icp_lp),
                        Some(price_bits),
                        Some(fee),
                    ) => if fee > u32::MAX {
                        Err(KongFailure::FeeOutOfRange)
                    } else {
                        Ok(
                            KongPoolSnapshot {
                                icp_raw: icp,
                                sns_raw: sns,
                                icp_lp_raw: icp_lp,
                                sns_lp_raw: sns_lp,
                                price_icp_per_sns_bits: price_bits,
                                lp_fee_bps: fee as u32,
                            },
                        )
                    },
                    _ => Err(KongFailure::MissingFields),
                }
            },
        },
    }
}

/// The whole decode contract over already-parsed values: the result
/// matches `pools_result_spec` case for case, a refusal by the venue
/// carries the venue's embedded message, and each local error carries its
/// fixed diagnostic text.
pub open spec fn pools_decode_post(
    r: Result<KongPoolSnapshot, KongError>,
    values: Seq<Value>,
    ticker: Seq<char>,
) -> bool {
    match (r, pools_result_spec(values, ticker)) {
        (Ok(s), Ok(t)) => s == t,
        (Err(KongError::MissingFields), Err(f)) => f is MissingFields,
        (Err(KongError::Decode(m)), Err(f)) => {
            |||f is TickerMismatch && m@ == "ticker mismatch"@
            |||f is FeeOutOfRange && m@ == "pool fee out of range"@
            |||f is VenueRefusal && m@ == pools_refusal_text(values)
        },
        _ => false,
    }
}

/// Decodes the already-parsed pool listing for the requested ticker,
/// exactly as `pools_decode_post` says.
pub fn decode_pools(values: &Vec<Value>, ticker: &String) -> (r: Result<
    KongPoolSnapshot,
    KongError,
>)
    ensures
        pools_decode_post(r, values@, ticker@),
{
    if values.len() == 0 {
        return Err(KongError::MissingFields);
    }
    let ok_name: String = "ok".to_owned();
    let payload = match variant_payload(&values[0], &ok_name, 17_724) {
        Some(p) => p,
        None => {
            match &values[0] {
                Value::Variant(_, b) => {
                    let message: String = match &**b {
                        Value::Text(t) => t.clone(),
                        _ => "venue failure".to_owned(),
                    };
                    return Err(KongError::Decode(message));
                },
                _ => {
                    return Err(KongError::MissingFields);
                },
            }
        },
    };
    let entry = match first_of_list(payload) {
        Some(e) => e,
        None => {
            return Err(KongError::MissingFields);
        },
    };
    let fields = match as_record(entry) {
        Some(fs) => fs,
        None => {
            return Err(KongError::MissingFields);
        },
    };
    let mut ticker_ids: Vec<u32> = Vec::new();
    ticker_ids.push(4_007_505_752);
    ticker_ids.push(486_076_665);
    proof {
        assert(ticker_ids@ =~= seq![4_007_505_752u32, 486_076_665u32]);
    }
    let listed = match extract_text_any(fields, &ticker_ids) {
        Some(t) => t,
        None => {
            return Err(KongError::MissingFields);
        },
    };
    if !(listed == *ticker) {
        return Err(KongError::Decode("ticker mismatch".to_owned()));
    }
    let sns = match extract_nat(fields, 1_476_685_581) {
        Some(v) => v,
        None => {
            return Err(KongError::MissingFields);
        },
    };
    let icp = match extract_nat(fields, 1_476_685_582) {
        Some(v) => v,
        None => {
            return Err(KongError::MissingFields);
        },
    };
    let sns_lp = match extract_nat(fields, 1_283_592_060) {
        Some(v) => v,
        None => {
            return Err(KongError::MissingFields);
        },
    };
    let icp_lp = match extract_nat(fields, 1_283_592_061) {
        Some(v) => v,
        None => {
            return Err(KongError::MissingFields);
        },
    };
    let price_bits = match extract_float_bits(fields, 3_364_572_809) {
        Some(v) => v,
        None => {
            return Err(KongError::MissingFields);
        },
    };
    let fee = match extract_nat(fields, 4_243_077_425) {
        Some(v) => v,
        None => {
            return Err(KongError::MissingFields);
        },
    };
    if fee > u32::MAX as u128 {
        return Err(KongError::Decode("pool fee out of range".to_owned()));
    }
    Ok(
        KongPoolSnapshot {
            icp_raw: icp,
            sns_raw: sns,
            icp_lp_raw: icp_lp,
            sns_lp_raw: sns_lp,
            price_icp_per_sns_bits: price_bits,
            lp_fee_bps: fee as u32,
        },
    )
}

/// Parses a binary pool listing and decodes it for the requested ticker.
/// When the message decodes, its values decode as `pools_decode_post`
/// says; a message the parser refuses — malformed, or beyond its
/// resource bounds — is a decode error with a fixed message. A transport
/// error is never produced here.
pub fn parse_pools(raw: &[u8], ticker: &String) -> (r: Result<KongPoolSnapshot, KongError>)
    ensures
        ({
            |||(r matches Err(KongError::Decode(m)) && m@ == "binary record did not parse"@)
            |||pools_decode_post(r, idl_values(raw@), ticker@)
        }),
{
    match parse_idl_bytes(raw) {
        None => Err(KongError::Decode("binary record did not parse".to_owned())),
        Some(values) => decode_pools(&values, ticker),
    }
}

} // verus!
