use kong_ics::amm::{cal_amount, clamp_to_ceiling, swap_icp_to_ckusdc};

#[test]
fn swap_output_exact_value() {
    // 3e12 out-reserve, 1e12 in-reserve, pay 5e8 at 30 bps:
    // (3e12 * 5e8 * 9970) / ((1e12 + 5e8) * 10000)
    let out = swap_icp_to_ckusdc(500_000_000, 1_000_000_000_000, 3_000_000_000_000, 30);
    assert_eq!(out, 1_494_752_623);
}

#[test]
fn swap_output_zero_amount_is_zero() {
    let out = swap_icp_to_ckusdc(0, 1_000_000_000_000, 3_000_000_000_000, 30);
    assert_eq!(out, 0);
}

#[test]
fn swap_output_full_fee_pays_nothing() {
    let out = swap_icp_to_ckusdc(500_000_000, 1_000_000_000_000, 3_000_000_000_000, 10000);
    assert_eq!(out, 0);
}

#[test]
fn round_trip_fee_free_conserves_product() {
    // Leg 1 on (r_in, r_out), leg 2 on the mirrored post-trade reserves.
    let x: u128 = 500_000_000;
    let r_in: u128 = 1_000_000_000_000;
    let r_out: u128 = 3_000_000_000_000;
    let out1 = swap_icp_to_ckusdc(x, r_in, r_out, 0);
    assert_eq!(out1, 1_499_250_374);
    let out2 = swap_icp_to_ckusdc(out1, r_out - out1, r_in + x, 0);
    assert_eq!(out2, 499_999_999);
    // The round trip never creates value, and truncation loses below the
    // proven bound.
    assert!(out2 <= x);
    assert!((x - out2) * r_out < (r_in + x) + r_out);
    // The constant product after leg 1 exceeds the original product by
    // exactly the truncation remainder of leg 1.
    assert_eq!(
        (r_in + x) * (r_out - out1),
        r_in * r_out + (r_out * x) % (r_in + x)
    );
}

#[test]
fn calculator_balanced_pools_near_zero_optimum() {
    // Both venues balanced at 1_000_000 tokens of each asset: the raw
    // optimum is the fee-induced residue, 0.15% of reserves, pointing at
    // the second venue.
    let a: u128 = 100_000_000_000_000;
    let r = cal_amount(a, a, a, a);
    assert!(r.negative);
    assert_eq!(r.magnitude, 150_677_370_117);
}

#[test]
fn calculator_is_deterministic() {
    let r1 = cal_amount(
        100_000_000_000_000,
        105_000_000_000_000,
        100_000_000_000_000,
        100_000_000_000_000,
    );
    let r2 = cal_amount(
        100_000_000_000_000,
        105_000_000_000_000,
        100_000_000_000_000,
        100_000_000_000_000,
    );
    assert_eq!(r1.negative, r2.negative);
    assert_eq!(r1.magnitude, r2.magnitude);
}

#[test]
fn equal_effective_price_gives_zero_optimum() {
    // 9970² · a1 · b1 == 10⁴ · 10⁴ · a0 · b0 exactly: no arbitrage.
    let a0: u128 = 9970 * 9970;
    let a1: u128 = 100_000_000;
    let b0: u128 = 100_000_000;
    let b1: u128 = 100_000_000;
    assert_eq!(
        9970u128 * 9970 * a1 * b1,
        10_000u128 * 10_000 * a0 * b0
    );
    let r = cal_amount(a0, a1, b0, b1);
    assert_eq!(r.magnitude, 0);
    assert!(!r.negative);
}

#[test]
fn clamp_caps_at_ceiling_exactly() {
    assert_eq!(clamp_to_ceiling(150_677_370_117, 1_000_000_000), 1_000_000_000);
    assert_eq!(clamp_to_ceiling(999_999_999, 1_000_000_000), 999_999_999);
    assert_eq!(clamp_to_ceiling(1_000_000_000, 1_000_000_000), 1_000_000_000);
}
