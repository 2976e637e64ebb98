use kong_ics::engine::{
    evaluate, plan_directive, settle_execution, should_execute, Cache, ExecOutcome, Leg,
    SwapDirection, TickEval,
};
use kong_ics::ics::{IcsError, IcsPoolSnapshot};
use kong_ics::kong::{KongError, KongPoolSnapshot};

fn kong_snapshot(icp: u128, sns: u128) -> KongPoolSnapshot {
    KongPoolSnapshot {
        icp_raw: icp,
        sns_raw: sns,
        icp_lp_raw: 0,
        sns_lp_raw: 0,
        price_icp_per_sns_bits: 0,
        lp_fee_bps: 30,
    }
}

fn ics_snapshot(k0: u128, k1: u128) -> IcsPoolSnapshot {
    IcsPoolSnapshot { token0_k: k0, token1_k: k1 }
}

#[test]
fn tick_with_failed_first_fetch_and_empty_cache_skips() {
    // One venue's fetch fails on a tick where the other's succeeds, and no
    // prior snapshot of the failed venue exists: the tick completes with
    // no evaluation and no error.
    let mut cache = Cache::new();
    cache.store_kong(Err(KongError::Client("connection refused".to_string())));
    cache.store_ics(Ok(ics_snapshot(100_000_000_000_000, 100_000_000_000_000)));
    assert!(cache.kong.is_none());
    assert!(cache.ics.is_some());
    let eval = evaluate(&cache.kong, &cache.ics, 1_000_000_000, 30);
    assert_eq!(eval, TickEval::Skip);
}

#[test]
fn cache_retains_stale_snapshot_across_failed_refresh() {
    let mut cache = Cache::new();
    let snap = kong_snapshot(100_000_000_000_000, 100_000_000_000_000);
    cache.store_kong(Ok(snap));
    cache.store_kong(Err(KongError::MissingFields));
    assert_eq!(cache.kong, Some(snap));
    cache.store_ics(Err(IcsError::MissingFields));
    assert!(cache.ics.is_none());
}

#[test]
fn balanced_pools_tick_evaluates_but_does_not_execute() {
    // Both venues balanced at 1_000_000 tokens each side, fee 30 bps,
    // ceiling 10 tokens, threshold 0.1 token: the raw optimum is clamped
    // to the ceiling and the simulated round trip loses the fees, so no
    // execution is triggered.
    let a: u128 = 100_000_000_000_000;
    let kong = Some(kong_snapshot(a, a));
    let ics = Some(ics_snapshot(a, a));
    let eval = evaluate(&kong, &ics, 1_000_000_000, 30);
    match eval {
        TickEval::Opp(opp) => {
            assert!(opp.raw_negative);
            assert_eq!(opp.raw_magnitude, 150_677_370_117);
            assert_eq!(opp.amount, 1_000_000_000);
            assert_eq!(opp.direction, SwapDirection::IcsToKong);
            assert_eq!(opp.output_mid, 996_990_030);
            assert_eq!(opp.output_final, 993_989_149);
            assert_eq!(opp.profit, -6_010_851);
            assert!(!should_execute(opp.profit, 10_000_000));
        }
        other => panic!("expected an evaluated opportunity, got {:?}", other),
    }
}

#[test]
fn skewed_pools_tick_executes_with_scaled_minimum_receives() {
    // The first venue holds 5% more of the base asset at equal quote
    // reserves, so the base is 5% cheaper there; the ceiling does not
    // bind and the profit clears the 0.1-token threshold. The planned
    // minimum receives equal the simulated outputs scaled by 0.99 and
    // rounded.
    let kong = Some(kong_snapshot(100_000_000_000_000, 105_000_000_000_000));
    let ics = Some(ics_snapshot(100_000_000_000_000, 100_000_000_000_000));
    let eval = evaluate(&kong, &ics, 2_000_000_000_000, 30);
    match eval {
        TickEval::Opp(opp) => {
            assert!(!opp.raw_negative);
            assert_eq!(opp.raw_magnitude, 1_059_484_061_592);
            assert_eq!(opp.amount, 1_059_484_061_592);
            assert_eq!(opp.direction, SwapDirection::KongToIcs);
            assert_eq!(opp.output_mid, 1_097_493_125_139);
            assert_eq!(opp.output_final, 1_082_322_233_657);
            assert_eq!(opp.profit, 22_838_172_065);
            assert!(should_execute(opp.profit, 10_000_000));
            let directive = plan_directive(&opp, 9_900);
            assert_eq!(directive.amount_in, 1_059_484_061_592);
            assert_eq!(directive.min_mid, 1_086_518_193_888);
            assert_eq!(directive.min_final, 1_071_499_011_320);
            assert_eq!(directive.direction, SwapDirection::KongToIcs);
        }
        other => panic!("expected an evaluated opportunity, got {:?}", other),
    }
}

#[test]
fn minimum_receive_rounds_half_up() {
    let kong = Some(kong_snapshot(100_000_000_000_000, 105_000_000_000_000));
    let ics = Some(ics_snapshot(100_000_000_000_000, 100_000_000_000_000));
    if let TickEval::Opp(opp) = evaluate(&kong, &ics, 2_000_000_000_000, 30) {
        // 1_097_493_125_139 * 9900 + 5000 = 10_865_181_938_880_100 + 5000;
        // dividing by 10000 floors the half-up rounding into place.
        let d = plan_directive(&opp, 9_900);
        assert_eq!(d.min_mid, (opp.output_mid * 9_900 + 5_000) / 10_000);
    } else {
        panic!("expected an evaluated opportunity");
    }
}

#[test]
fn equal_effective_price_tick_trades_nothing() {
    // 9970² · sns · k1 == 10⁴ · 10⁴ · icp · k0 exactly: the optimum is
    // zero, the legs pay nothing, and the profit is zero.
    let kong = Some(kong_snapshot(9970 * 9970, 100_000_000));
    let ics = Some(ics_snapshot(100_000_000, 100_000_000));
    match evaluate(&kong, &ics, 1_000_000_000, 30) {
        TickEval::Opp(opp) => {
            assert_eq!(opp.raw_magnitude, 0);
            assert_eq!(opp.amount, 0);
            assert_eq!(opp.output_mid, 0);
            assert_eq!(opp.output_final, 0);
            assert_eq!(opp.profit, 0);
            assert!(!should_execute(opp.profit, 10_000_000));
        }
        other => panic!("expected an evaluated opportunity, got {:?}", other),
    }
}

#[test]
fn evaluate_skips_when_either_snapshot_is_missing() {
    let a: u128 = 100_000_000_000_000;
    assert_eq!(evaluate(&None, &Some(ics_snapshot(a, a)), 1_000_000_000, 30), TickEval::Skip);
    assert_eq!(evaluate(&Some(kong_snapshot(a, a)), &None, 1_000_000_000, 30), TickEval::Skip);
    assert_eq!(evaluate(&None, &None, 1_000_000_000, 30), TickEval::Skip);
}

#[test]
fn evaluate_refuses_reserves_out_of_range() {
    let a: u128 = 100_000_000_000_000;
    let kong = Some(kong_snapshot(0, a));
    let ics = Some(ics_snapshot(a, a));
    assert_eq!(evaluate(&kong, &ics, 1_000_000_000, 30), TickEval::OutOfRange);
    let kong = Some(kong_snapshot(1u128 << 56, a));
    assert_eq!(evaluate(&kong, &ics, 1_000_000_000, 30), TickEval::OutOfRange);
}

#[test]
fn second_leg_rejection_fails_naming_leg_two() {
    // Execution leg 2 reports a venue-level rejection: the outcome is
    // Failed naming the second leg and carrying the rejection message,
    // and no success is reported.
    let outcome = settle_execution(None, Some("slippage exceeded".to_string()));
    match outcome {
        ExecOutcome::Failed { leg, message } => {
            assert_eq!(leg, Leg::Second);
            assert_eq!(message, "slippage exceeded");
        }
        ExecOutcome::Executed => panic!("a rejected leg must not settle as executed"),
    }
}

#[test]
fn first_leg_failure_is_reported_first() {
    let outcome = settle_execution(
        Some("transport error".to_string()),
        Some("slippage exceeded".to_string()),
    );
    match outcome {
        ExecOutcome::Failed { leg, message } => {
            assert_eq!(leg, Leg::First);
            assert_eq!(message, "transport error");
        }
        ExecOutcome::Executed => panic!("a failed leg must not settle as executed"),
    }
}

#[test]
fn clean_legs_settle_as_executed() {
    assert!(matches!(settle_execution(None, None), ExecOutcome::Executed));
}

#[test]
fn threshold_comparison_is_strict() {
    assert!(!should_execute(10_000_000, 10_000_000));
    assert!(should_execute(10_000_001, 10_000_000));
    assert!(!should_execute(-1, 0));
    assert!(!should_execute(0, 0));
    assert!(should_execute(1, 0));
}
