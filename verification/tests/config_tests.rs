use kong_ics::config::{find_token, AppConfig, TradeParams};

fn default_params() -> TradeParams {
    TradeParams {
        fee_rate_bps: 30,
        min_receive_bps: 9_900,
        profit_threshold_e8: 10_000_000,
        loop_interval_ms: 200,
    }
}

#[test]
fn default_config_builds_both_pairs_from_the_token_table() {
    let cfg = AppConfig::build_default(default_params(), "DISCORD_WEBHOOK_URL".to_string());
    assert_eq!(cfg.network.api_url, "https://icp-api.io");
    assert!(!cfg.network.fetch_root_key);
    assert_eq!(cfg.identity.pem_path, "infinity_identity.pem");
    assert!(cfg.line.token.is_none());
    assert_eq!(cfg.discord.env_key, "DISCORD_WEBHOOK_URL");
    assert_eq!(cfg.tokens.len(), 8);
    assert_eq!(cfg.pairs.len(), 2);

    let bob = &cfg.pairs[0];
    assert_eq!(bob.symbol, "BOB_ICP");
    assert_eq!(bob.token_icp, "IC.ryjl3-tyaaa-aaaaa-aaaba-cai");
    assert_eq!(bob.kong_canister, "2ipq2-uqaaa-aaaar-qailq-cai");
    assert_eq!(bob.icpswap_lp, "ybilh-nqaaa-aaaag-qkhzq-cai");
    assert_eq!(bob.token_sns, "7pail-xaaaa-aaaas-aabmq-cai");
    assert_eq!(bob.ikiti_e8, 1_000_000_000);
    assert_eq!(bob.sns_fee_e8, 1_000_000);

    let kong = &cfg.pairs[1];
    assert_eq!(kong.symbol, "KONG_ICP");
    assert_eq!(kong.icpswap_lp, "ye4fx-gqaaa-aaaag-qnara-cai");
    assert_eq!(kong.token_sns, "o7oak-iyaaa-aaaaq-aadzq-cai");
    assert_eq!(kong.ikiti_e8, 1_000_000_000);
    assert_eq!(kong.sns_fee_e8, 10_000);
}

#[test]
fn default_config_approval_targets() {
    let cfg = AppConfig::build_default(default_params(), "DISCORD_WEBHOOK_URL".to_string());
    assert_eq!(cfg.approve.tokens.len(), 2);
    assert_eq!(cfg.approve.tokens[0].name, "kong");
    assert_eq!(cfg.approve.tokens[0].sns_threshold_e8, 1_000_000_000_000);
    assert_eq!(cfg.approve.tokens[1].name, "bob");
    assert_eq!(cfg.approve.tokens[1].sns_threshold_e8, 10_010_000_000);
    assert_eq!(cfg.approve.icp_canister, "ryjl3-tyaaa-aaaaa-aaaba-cai");
    assert_eq!(cfg.approve.kong_canister, "2ipq2-uqaaa-aaaar-qailq-cai");
    assert_eq!(cfg.approve.icp_amount_e8, 1_000_000_000);
    assert_eq!(cfg.approve.interval_secs, 100);
}

#[test]
fn token_table_entries_are_fixed() {
    let cfg = AppConfig::build_default(default_params(), "DISCORD_WEBHOOK_URL".to_string());
    let names = ["bob", "kong", "nicp", "usdc", "usdt", "dkp", "exe", "panda"];
    for (j, name) in names.iter().enumerate() {
        assert_eq!(cfg.tokens[j].name, *name);
    }
    let dkp = &cfg.tokens[5];
    assert_eq!(dkp.icpswap_lp, "ijd5l-jyaaa-aaaag-qdjga-cai");
    assert_eq!(dkp.sns_canister, "zfcdd-tqaaa-aaaaq-aaaga-cai");
    assert_eq!(dkp.transfer_fee_e8, 100_000);
    let panda = &cfg.tokens[7];
    assert_eq!(panda.icpswap_lp, "5fq4w-lyaaa-aaaag-qjqta-cai");
    assert_eq!(panda.sns_canister, "druyg-tyaaa-aaaaq-aactq-cai");
    assert_eq!(panda.transfer_fee_e8, 10_000);
}

#[test]
fn token_lookup_finds_first_match_by_name() {
    let cfg = AppConfig::build_default(default_params(), "DISCORD_WEBHOOK_URL".to_string());
    let name = "nicp".to_string();
    let j = find_token(&cfg.tokens, &name).expect("nicp is in the table");
    assert_eq!(cfg.tokens[j].name, "nicp");
    assert_eq!(cfg.tokens[j].transfer_fee_e8, 1_000_000);
    let name = "unknown".to_string();
    assert!(find_token(&cfg.tokens, &name).is_none());
}

#[test]
fn trade_parameters_pass_through() {
    let cfg = AppConfig::build_default(default_params(), "HOOK".to_string());
    assert_eq!(cfg.trade.fee_rate_bps, 30);
    assert_eq!(cfg.trade.min_receive_bps, 9_900);
    assert_eq!(cfg.trade.profit_threshold_e8, 10_000_000);
    assert_eq!(cfg.trade.loop_interval_ms, 200);
}
