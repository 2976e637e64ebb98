//! Second venue: a range-liquidity pool. Its metadata method answers with a
//! success-or-failure union over a record holding a square-root price in
//! 96-bit fixed point and a liquidity measure. The engine derives virtual
//! constant-product reserves from them: with `price = sqrtPrice² / 2¹⁹²`,
//! `k0 = L / √price = L·2⁹⁶ / sqrtPrice` and `k1 = L·√price = L·sqrtPrice / 2⁹⁶`.

use vstd::prelude::*;
use vstd::arithmetic::div_mod::{lemma_fundamental_div_mod, lemma_hoist_over_denominator};
use crate::decode::{
    as_record, extract_nat_named_or_id, first_nat_by_name_or_id, idl_values,
    label_matches_name_or_id, parse_idl_bytes, variant_payload, variant_payload_spec, Field,
    Value,
};
use crate::math::{div_wide, mul_words, wide};

verus! {

/// The most recently derived virtual reserves of the second venue's pool,
/// in the smallest unit of each asset.
#[derive(Clone, Copy, Debug, PartialEq, Eq, Structural)]
pub struct IcsPoolSnapshot {
    pub token0_k: u128,
    pub token1_k: u128,
}

/// How a fetch from the second venue fails.
#[derive(Debug)]
pub enum IcsError {
    Client(String),
    Decode(String),
    MissingFields,
}

/// The ways the metadata can fail to decode, for specification: the venue
/// answered with its failure branch, the response lacks the expected
/// shape or a field, or the price and liquidity values leave the range
/// whose derived reserves fit 128 bits.
#[derive(Debug)]
pub enum IcsFailure {
    VenueRefusal,
    MissingFields,
    OutOfRange,
}

/// The payload of the metadata's failure branch: the top-level union
/// carries a tag other than the success tag.
pub open spec fn metadata_refusal(values: Seq<Value>) -> Option<Value> {
    if values.len() == 0 {
        None
    } else {
        match values[0] {
            Value::Variant(l, b) => if !label_matches_name_or_id(l, "ok"@, 24_860) {
                Some(*b)
            } else {
                None
            },
            _ => None,
        }
    }
}

/// The venue's embedded failure message: the refusal payload's text, or a
/// fixed placeholder for a payload of another kind.
pub open spec fn metadata_refusal_text(values: Seq<Value>) -> Seq<char> {
    match metadata_refusal(values) {
        Some(p) => match p {
            Value::Text(t) => t@,
            _ => "venue failure"@,
        },
        None => Seq::<char>::empty(),
    }
}

/// The virtual reserve of the asset the pool counts first.
pub open spec fn derived_token0_k(l: int, sp: int) -> int {
    (l * 0x1_0000_0000_0000_0000_0000_0000int) / sp
}

/// The virtual reserve of the asset the pool counts second.
pub open spec fn derived_token1_k(l: int, sp: int) -> int {
    (l * sp) / 0x1_0000_0000_0000_0000_0000_0000int
}

/// The metadata record: the success branch of the union, which must be a
/// record.
pub open spec fn metadata_entry(values: Seq<Value>) -> Option<Seq<Field>> {
    if values.len() == 0 {
        None
    } else {
        match variant_payload_spec(values[0], "ok"@, 24_860) {
            Some(p) => match p {
                Value::Record(fs) => Some(fs@),
                _ => None,
            },
            None => None,
        }
    }
}

/// The derived reserves stay within 128 bits and the division is sound:
/// the square-root price is positive, scaled liquidity divided by it fits,
/// and liquidity times the price stays under 2²²⁴.
pub open spec fn metadata_in_range(l: u128, sp: u128) -> bool {
    &&& sp > 0
    &&& l / 0x1_0000_0000 < sp
    &&& l * sp < 0x1_0000_0000_0000_0000_0000_0000_0000_0000_0000_0000_0000_0000_0000_0000int
}

/// What decoding the metadata yields: the snapshot of derived reserves on
/// success, or which way it failed.
pub open spec fn metadata_result_spec(values: Seq<Value>) -> Result<IcsPoolSnapshot, IcsFailure> {
    match metadata_entry(values) {
        None => if metadata_refusal(values) is Some {
            Err(IcsFailure::VenueRefusal)
        } else {
            Err(IcsFailure::MissingFields)
        },
        Some(fields) => {
            match (
                first_nat_by_name_or_id(fields, "sqrtPriceX96"@, 1_161_096_524),
                first_nat_by_name_or_id(fields, "liquidity"@, 1_304_432_370),
            ) {
                (Some(sp), Some(l)) => if !metadata_in_range(l, sp) {
                    Err(IcsFailure::OutOfRange)
                } else {
                    Ok(
                        IcsPoolSnapshot {
                            token0_k: derived_token0_k(l as int, sp as int) as u128,
                            token1_k: derived_token1_k(l as int, sp as int) as u128,
                        },
                    )
                },
                _ => Err(IcsFailure::MissingFields),
            }
        },
    }
}

/// The diagnostic text of an out-of-range failure: a zero square-root
/// price is named as such, any other range failure as a derived reserve
/// beyond the fixed-point bound.
pub open spec fn metadata_range_text(values: Seq<Value>) -> Seq<char> {
    match metadata_entry(values) {
        Some(fields) => match first_nat_by_name_or_id(fields, "sqrtPriceX96"@, 1_161_096_524) {
            Some(sp) => if sp == 0 {
                "square-root price is zero"@
            } else {
                "derived reserve out of range"@
            },
            None => Seq::<char>::empty(),
        },
        None => Seq::<char>::empty(),
    }
}

/// The whole decode contract over already-parsed values: the result
/// matches `metadata_result_spec` case for case, a refusal by the venue
/// carries the venue's embedded message, and a range failure carries its
/// fixed diagnostic text.
pub open spec fn metadata_decode_post(
    r: Result<IcsPoolSnapshot, IcsError>,
    values: Seq<Value>,
) -> bool {
    match (r, metadata_result_spec(values)) {
        (Ok(s), Ok(t)) => s == t,
        (Err(IcsError::MissingFields), Err(f)) => f is MissingFields,
        (Err(IcsError::Decode(m)), Err(f)) => {
            |||f is OutOfRange && m@ == metadata_range_text(values)
            |||f is VenueRefusal && m@ == metadata_refusal_text(values)
        },
        _ => false,
    }
}

/// Decodes the already-parsed metadata, exactly as `metadata_decode_post`
/// says.
pub fn decode_metadata(values: &Vec<Value>) -> (r: Result<IcsPoolSnapshot, IcsError>)
    ensures
        metadata_decode_post(r, values@),
{
    if values.len() == 0 {
        return Err(IcsError::MissingFields);
    }
    let ok_name: String = "ok".to_owned();
    let payload = match variant_payload(&values[0], &ok_name, 24_860) {
        Some(p) => p,
        None => {
            match &values[0] {
                Value::Variant(_, b) => {
                    let message: String = match &**b {
                        Value::Text(t) => t.clone(),
                        _ => "venue failure".to_owned(),
                    };
                    return Err(IcsError::Decode(message));
                },
                _ => {
                    return Err(IcsError::MissingFields);
                },
            }
        },
    };
    let fields = match as_record(payload) {
        Some(fs) => fs,
        None => {
            return Err(IcsError::MissingFields);
        },
    };
    let sqrt_price_name: String = "sqrtPriceX96".to_owned();
    let sp = match extract_nat_named_or_id(fields, &sqrt_price_name, 1_161_096_524) {
        Some(v) => v,
        None => {
            return Err(IcsError::MissingFields);
        },
    };
    let liquidity_name: String = "liquidity".to_owned();
    let l = match extract_nat_named_or_id(fields, &liquidity_name, 1_304_432_370) {
        Some(v) => v,
        None => {
            return Err(IcsError::MissingFields);
        },
    };
    if sp == 0 {
        return Err(IcsError::Decode("square-root price is zero".to_owned()));
    }
    let nh: u128 = l / 0x1_0000_0000;
    if nh >= sp {
        return Err(IcsError::Decode("derived reserve out of range".to_owned()));
    }
    let (mh, ml) = mul_words(l, sp);
    if mh >= 0x1_0000_0000_0000_0000_0000_0000 {
        proof {
            assert(l * sp
                >= 0x1_0000_0000_0000_0000_0000_0000_0000_0000_0000_0000_0000_0000_0000_0000int);
        }
        return Err(IcsError::Decode("derived reserve out of range".to_owned()));
    }
    let nl: u128 = (l % 0x1_0000_0000) * 0x1_0000_0000_0000_0000_0000_0000;
    proof {
        assert(l * sp
            < 0x1_0000_0000_0000_0000_0000_0000_0000_0000_0000_0000_0000_0000_0000_0000int);
        lemma_fundamental_div_mod(l as int, 0x1_0000_0000);
        assert(wide(nh, nl) == l * 0x1_0000_0000_0000_0000_0000_0000int);
    }
    let token0_k: u128 = div_wide(nh, nl, sp);
    let token1_k: u128 = mh * 0x1_0000_0000 + ml / 0x1_0000_0000_0000_0000_0000_0000;
    proof {
        lemma_fundamental_div_mod(ml as int, 0x1_0000_0000_0000_0000_0000_0000);
        lemma_hoist_over_denominator(
            ml as int,
            (mh * 0x1_0000_0000) as int,
            0x1_0000_0000_0000_0000_0000_0000nat,
        );
        assert(token1_k == derived_token1_k(l as int, sp as int));
    }
    Ok(IcsPoolSnapshot { token0_k, token1_k })
}

/// Parses a binary metadata message and decodes it. When the message
/// decodes, its values decode as `metadata_decode_post` says; a message
/// the parser refuses — malformed, or beyond its resource bounds — is a
/// decode error with a fixed message. A transport error is never
/// produced here.
pub fn parse_metadata(raw: &[u8]) -> (r: Result<IcsPoolSnapshot, IcsError>)
    ensures
        ({
            |||(r matches Err(IcsError::Decode(m)) && m@ == "binary record did not parse"@)
            |||metadata_decode_post(r, idl_values(raw@))
        }),
{
    match parse_idl_bytes(raw) {
        None => Err(IcsError::Decode("binary record did not parse".to_owned())),
        Some(values) => decode_metadata(&values),
    }
}

} // verus!
