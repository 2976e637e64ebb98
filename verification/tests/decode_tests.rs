use candid::types::value::{IDLField, IDLValue, VariantValue};
use candid::types::Label as WireLabel;
use candid::{IDLArgs, Nat};
use kong_ics::decode::{
    extract_float_bits, extract_nat, extract_nat_by_id, extract_nat_named_or_id,
    extract_text_any, Field, Label, Value,
};
use kong_ics::ics::{parse_metadata, IcsError};
use kong_ics::kong::{parse_pools, KongError};
use kong_ics::swap::{swap_reply_status, SwapReplyStatus};
use kong_ics::approve::{needs_approve, parse_allowance_reply};

fn nat_field(label: Label, v: u128) -> Field {
    Field { label, value: Value::Nat(v) }
}

#[test]
fn selector_matches_name_and_equivalent_tag_alike() {
    // The same logical two-field record, once written with names and once
    // with the names' numeric tags (`sqrtPriceX96` hashes to
    // 1_161_096_524, `liquidity` to 1_304_432_370): the same selector
    // decodes both to identical results.
    let named = vec![
        nat_field(Label::Named("sqrtPriceX96".to_string(), 1_161_096_524), 42),
        nat_field(Label::Named("liquidity".to_string(), 1_304_432_370), 7),
    ];
    let tagged = vec![
        nat_field(Label::Id(1_161_096_524), 42),
        nat_field(Label::Id(1_304_432_370), 7),
    ];
    let name = "sqrtPriceX96".to_string();
    assert_eq!(
        extract_nat_named_or_id(&named, &name, 1_161_096_524),
        extract_nat_named_or_id(&tagged, &name, 1_161_096_524)
    );
    assert_eq!(extract_nat_named_or_id(&tagged, &name, 1_161_096_524), Some(42));
    let name = "liquidity".to_string();
    assert_eq!(
        extract_nat_named_or_id(&named, &name, 1_304_432_370),
        extract_nat_named_or_id(&tagged, &name, 1_304_432_370)
    );
    assert_eq!(extract_nat_named_or_id(&named, &name, 1_304_432_370), Some(7));
}

#[test]
fn named_or_id_lookup_skips_wrong_kinds() {
    let fields = vec![
        Field {
            label: Label::Id(99),
            value: Value::Text("not a number".to_string()),
        },
        nat_field(Label::Id(99), 5),
    ];
    let name = "whatever".to_string();
    assert_eq!(extract_nat_named_or_id(&fields, &name, 99), Some(5));
}

#[test]
fn pool_listing_lookup_stops_at_first_label_match() {
    // The listing's lookup ends at the first matching label even when its
    // kind is wrong.
    let fields = vec![
        Field {
            label: Label::Id(99),
            value: Value::Text("not a number".to_string()),
        },
        nat_field(Label::Id(99), 5),
    ];
    assert_eq!(extract_nat(&fields, 99), None);
    assert_eq!(extract_nat_by_id(&fields, 99), Some(5));
}

#[test]
fn text_lookup_accepts_any_alias() {
    let fields = vec![
        nat_field(Label::Id(4_007_505_752), 1),
        Field {
            label: Label::Id(486_076_665),
            value: Value::Text("BOB_ICP".to_string()),
        },
    ];
    let ids = vec![4_007_505_752, 486_076_665];
    assert_eq!(extract_text_any(&fields, &ids), Some("BOB_ICP".to_string()));
}

#[test]
fn float_lookup_returns_bit_pattern() {
    let fields = vec![Field {
        label: Label::Id(7),
        value: Value::Float64Bits(1.25f64.to_bits()),
    }];
    assert_eq!(extract_float_bits(&fields, 7), Some(1.25f64.to_bits()));
    assert_eq!(extract_float_bits(&fields, 8), None);
}

fn kong_pool_record() -> IDLValue {
    IDLValue::Record(vec![
        IDLField {
            id: WireLabel::Id(1_283_592_060),
            val: IDLValue::Nat(Nat::from(11u64)),
        },
        IDLField {
            id: WireLabel::Id(1_283_592_061),
            val: IDLValue::Nat(Nat::from(13u64)),
        },
        IDLField {
            id: WireLabel::Id(1_476_685_581),
            val: IDLValue::Nat(Nat::from(105_000_000_000_000u64)),
        },
        IDLField {
            id: WireLabel::Id(1_476_685_582),
            val: IDLValue::Nat(Nat::from(100_000_000_000_000u64)),
        },
        IDLField {
            id: WireLabel::Id(3_364_572_809),
            val: IDLValue::Float64(0.9523),
        },
        IDLField {
            id: WireLabel::Id(4_007_505_752),
            val: IDLValue::Text("BOB_ICP".to_string()),
        },
        IDLField {
            id: WireLabel::Id(4_243_077_425),
            val: IDLValue::Nat(Nat::from(30u64)),
        },
    ])
}

#[test]
fn pool_listing_decodes_through_the_wire_format() {
    let reply = IDLArgs {
        args: vec![IDLValue::Variant(VariantValue(
            Box::new(IDLField {
                id: WireLabel::Id(17_724),
                val: IDLValue::Vec(vec![kong_pool_record()]),
            }),
            0,
        ))],
    };
    let raw = reply.to_bytes().expect("encoding must succeed");
    let ticker = "BOB_ICP".to_string();
    let snapshot = parse_pools(&raw, &ticker).expect("decoding must succeed");
    assert_eq!(snapshot.icp_raw, 100_000_000_000_000);
    assert_eq!(snapshot.sns_raw, 105_000_000_000_000);
    assert_eq!(snapshot.icp_lp_raw, 13);
    assert_eq!(snapshot.sns_lp_raw, 11);
    assert_eq!(snapshot.price_icp_per_sns_bits, 0.9523f64.to_bits());
    assert_eq!(snapshot.lp_fee_bps, 30);
}

#[test]
fn pool_listing_with_wrong_ticker_is_a_decode_error() {
    let reply = IDLArgs {
        args: vec![IDLValue::Variant(VariantValue(
            Box::new(IDLField {
                id: WireLabel::Id(17_724),
                val: IDLValue::Vec(vec![kong_pool_record()]),
            }),
            0,
        ))],
    };
    let raw = reply.to_bytes().expect("encoding must succeed");
    let ticker = "KONG_ICP".to_string();
    match parse_pools(&raw, &ticker) {
        Err(KongError::Decode(m)) => assert_eq!(m, "ticker mismatch"),
        other => panic!("expected a decode error, got {:?}", other),
    }
}

#[test]
fn pool_listing_failure_branch_carries_the_venue_message() {
    // The venue answered with its failure branch: the decode error
    // surfaces the venue's embedded message, not a missing-field error.
    let reply = IDLArgs {
        args: vec![IDLValue::Variant(VariantValue(
            Box::new(IDLField {
                id: WireLabel::Id(3_456_837),
                val: IDLValue::Text("no pool".to_string()),
            }),
            0,
        ))],
    };
    let raw = reply.to_bytes().expect("encoding must succeed");
    let ticker = "BOB_ICP".to_string();
    match parse_pools(&raw, &ticker) {
        Err(KongError::Decode(m)) => assert_eq!(m, "no pool"),
        other => panic!("expected the venue's message, got {:?}", other),
    }
}

#[test]
fn metadata_failure_branch_carries_the_venue_message() {
    let reply = IDLArgs {
        args: vec![IDLValue::Variant(VariantValue(
            Box::new(IDLField {
                id: WireLabel::Id(3_456_837),
                val: IDLValue::Text("pool not initialized".to_string()),
            }),
            0,
        ))],
    };
    let raw = reply.to_bytes().expect("encoding must succeed");
    match parse_metadata(&raw) {
        Err(IcsError::Decode(m)) => assert_eq!(m, "pool not initialized"),
        other => panic!("expected the venue's message, got {:?}", other),
    }
}

#[test]
fn pool_listing_with_oversized_fee_is_a_decode_error() {
    // The pool fee must fit 32 bits; a wider value is rejected rather
    // than truncated.
    let record = IDLValue::Record(vec![
        IDLField {
            id: WireLabel::Id(1_283_592_060),
            val: IDLValue::Nat(Nat::from(11u64)),
        },
        IDLField {
            id: WireLabel::Id(1_283_592_061),
            val: IDLValue::Nat(Nat::from(13u64)),
        },
        IDLField {
            id: WireLabel::Id(1_476_685_581),
            val: IDLValue::Nat(Nat::from(105_000_000_000_000u64)),
        },
        IDLField {
            id: WireLabel::Id(1_476_685_582),
            val: IDLValue::Nat(Nat::from(100_000_000_000_000u64)),
        },
        IDLField {
            id: WireLabel::Id(3_364_572_809),
            val: IDLValue::Float64(0.9523),
        },
        IDLField {
            id: WireLabel::Id(4_007_505_752),
            val: IDLValue::Text("BOB_ICP".to_string()),
        },
        IDLField {
            id: WireLabel::Id(4_243_077_425),
            val: IDLValue::Nat(Nat::from(1u128 << 33)),
        },
    ]);
    let reply = IDLArgs {
        args: vec![IDLValue::Variant(VariantValue(
            Box::new(IDLField {
                id: WireLabel::Id(17_724),
                val: IDLValue::Vec(vec![record]),
            }),
            0,
        ))],
    };
    let raw = reply.to_bytes().expect("encoding must succeed");
    let ticker = "BOB_ICP".to_string();
    match parse_pools(&raw, &ticker) {
        Err(KongError::Decode(m)) => assert_eq!(m, "pool fee out of range"),
        other => panic!("expected a decode error, got {:?}", other),
    }
}

#[test]
fn empty_reply_is_missing_fields() {
    let reply = IDLArgs { args: vec![] };
    let raw = reply.to_bytes().expect("encoding must succeed");
    let ticker = "BOB_ICP".to_string();
    match parse_pools(&raw, &ticker) {
        Err(KongError::MissingFields) => {}
        other => panic!("expected missing fields, got {:?}", other),
    }
    match parse_metadata(&raw) {
        Err(IcsError::MissingFields) => {}
        other => panic!("expected missing fields, got {:?}", other),
    }
}

#[test]
fn garbage_bytes_are_a_decode_error() {
    let ticker = "BOB_ICP".to_string();
    match parse_pools(&[0x13, 0x37, 0x00], &ticker) {
        Err(KongError::Decode(_)) => {}
        other => panic!("expected a decode error, got {:?}", other),
    }
    match parse_metadata(&[0x13, 0x37, 0x00]) {
        Err(IcsError::Decode(_)) => {}
        other => panic!("expected a decode error, got {:?}", other),
    }
}

#[test]
fn metadata_decodes_to_derived_reserves() {
    // sqrtPriceX96 = 2^96 is a unit price: both derived reserves equal
    // the liquidity.
    let sqrt_price: u128 = 1 << 96;
    let reply = IDLArgs {
        args: vec![IDLValue::Variant(VariantValue(
            Box::new(IDLField {
                id: WireLabel::Id(24_860),
                val: IDLValue::Record(vec![
                    IDLField {
                        id: WireLabel::Id(1_161_096_524),
                        val: IDLValue::Nat(Nat::from(sqrt_price)),
                    },
                    IDLField {
                        id: WireLabel::Id(1_304_432_370),
                        val: IDLValue::Nat(Nat::from(100_000_000_000_000u64)),
                    },
                ]),
            }),
            0,
        ))],
    };
    let raw = reply.to_bytes().expect("encoding must succeed");
    let snapshot = parse_metadata(&raw).expect("decoding must succeed");
    assert_eq!(snapshot.token0_k, 100_000_000_000_000);
    assert_eq!(snapshot.token1_k, 100_000_000_000_000);
}

#[test]
fn metadata_with_zero_sqrt_price_is_out_of_range() {
    let reply = IDLArgs {
        args: vec![IDLValue::Variant(VariantValue(
            Box::new(IDLField {
                id: WireLabel::Id(24_860),
                val: IDLValue::Record(vec![
                    IDLField {
                        id: WireLabel::Id(1_161_096_524),
                        val: IDLValue::Nat(Nat::from(0u64)),
                    },
                    IDLField {
                        id: WireLabel::Id(1_304_432_370),
                        val: IDLValue::Nat(Nat::from(100_000_000_000_000u64)),
                    },
                ]),
            }),
            0,
        ))],
    };
    let raw = reply.to_bytes().expect("encoding must succeed");
    match parse_metadata(&raw) {
        Err(IcsError::Decode(m)) => assert_eq!(m, "square-root price is zero"),
        other => panic!("expected a decode error, got {:?}", other),
    }
}

#[test]
fn metadata_missing_liquidity_is_missing_fields() {
    let reply = IDLArgs {
        args: vec![IDLValue::Variant(VariantValue(
            Box::new(IDLField {
                id: WireLabel::Id(24_860),
                val: IDLValue::Record(vec![IDLField {
                    id: WireLabel::Id(1_161_096_524),
                    val: IDLValue::Nat(Nat::from(1u64 << 60)),
                }]),
            }),
            0,
        ))],
    };
    let raw = reply.to_bytes().expect("encoding must succeed");
    match parse_metadata(&raw) {
        Err(IcsError::MissingFields) => {}
        other => panic!("expected missing fields, got {:?}", other),
    }
}

#[test]
fn narrow_naturals_decode_like_wide_ones() {
    // A venue may answer with any width of natural; the bridge folds them
    // into one kind.
    let reply = IDLArgs {
        args: vec![IDLValue::Record(vec![IDLField {
            id: WireLabel::Id(3_230_440_920),
            val: IDLValue::Nat64(12_345),
        }])],
    };
    let raw = reply.to_bytes().expect("encoding must succeed");
    assert_eq!(parse_allowance_reply(&raw), Some(12_345));
}

#[test]
fn swap_reply_rejection_carries_the_embedded_message() {
    let reply = IDLArgs {
        args: vec![IDLValue::Variant(VariantValue(
            Box::new(IDLField {
                id: WireLabel::Named("err".to_string()),
                val: IDLValue::Text("Slippage exceeded".to_string()),
            }),
            0,
        ))],
    };
    let raw = reply.to_bytes().expect("encoding must succeed");
    match swap_reply_status(&raw) {
        SwapReplyStatus::Rejected(m) => assert_eq!(m, "Slippage exceeded"),
        other => panic!("expected a rejection, got {:?}", other),
    }
}

#[test]
fn swap_reply_success_branch_is_accepted() {
    let reply = IDLArgs {
        args: vec![IDLValue::Variant(VariantValue(
            Box::new(IDLField {
                id: WireLabel::Id(17_724),
                val: IDLValue::Text("all good".to_string()),
            }),
            0,
        ))],
    };
    let raw = reply.to_bytes().expect("encoding must succeed");
    assert!(matches!(swap_reply_status(&raw), SwapReplyStatus::Accepted));
}

#[test]
fn swap_reply_that_does_not_parse_is_unreadable() {
    assert!(matches!(
        swap_reply_status(&[0x13, 0x37, 0x00]),
        SwapReplyStatus::Unreadable
    ));
}

#[test]
fn allowance_threshold_decision() {
    assert!(needs_approve(89, 100));
    assert!(!needs_approve(90, 100));
    assert!(!needs_approve(1_000_000_000_000, 1_000_000_000_000));
    assert!(needs_approve(899_999_999_999, 1_000_000_000_000));
}
