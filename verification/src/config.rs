//! Configuration: endpoints, key paths and per-pair trading parameters,
//! held in one place so no magic number sits in the engine. The default
//! configuration is built from a fixed token table; reading overrides from
//! the process environment stays outside the library and hands the
//! resulting trade parameters in as plain values.

use vstd::prelude::*;

verus! {

/// Where the venues' network is reached.
#[derive(Clone, Debug)]
pub struct NetworkConfig {
    pub api_url: String,
    pub fetch_root_key: bool,
}

/// Where the signing key is found.
#[derive(Clone, Debug)]
pub struct IdentityConfig {
    pub pem_path: String,
}

/// An optional token for a line-message notifier.
#[derive(Clone, Debug)]
pub struct LineNotifyConfig {
    pub token: Option<String>,
}

/// The environment key under which the notifier's webhook address is
/// found, so no secret sits in the configuration itself.
#[derive(Clone, Debug)]
pub struct DiscordWebhookConfig {
    pub env_key: String,
}

/// One tradable token: its name, the second venue's pool for it, its
/// ledger, and its transfer fee in raw units.
#[derive(Clone, Debug)]
pub struct TokenDefinition {
    pub name: String,
    pub icpswap_lp: String,
    pub sns_canister: String,
    pub transfer_fee_e8: u128,
}

/// One token's approval upkeep: which ledgers to keep approved and the
/// allowance to hold.
#[derive(Clone, Debug)]
pub struct ApproveTokenConfig {
    pub name: String,
    pub icpswap: String,
    pub sns: String,
    pub sns_threshold_e8: u128,
}

/// The approval utility's whole configuration.
#[derive(Clone, Debug)]
pub struct ApproveConfig {
    pub tokens: Vec<ApproveTokenConfig>,
    pub icp_canister: String,
    pub kong_canister: String,
    pub icp_amount_e8: u128,
    pub interval_secs: u64,
}

/// One trading pair: the two venue addresses, the pair's symbol, the
/// per-pair trade-size ceiling and the token's transfer fee, in raw units.
#[derive(Clone, Debug)]
pub struct PairConfig {
    pub token_icp: String,
    pub token_sns: String,
    pub kong_canister: String,
    pub icpswap_lp: String,
    pub symbol: String,
    pub ikiti_e8: u128,
    pub sns_fee_e8: u128,
}

/// The trading parameters every pair shares: the flat per-leg fee and the
/// minimum-receive safety factor in basis points, the profit threshold in
/// raw units, and the loop interval.
#[derive(Clone, Copy, Debug, PartialEq, Eq, Structural)]
pub struct TradeParams {
    pub fee_rate_bps: u32,
    pub min_receive_bps: u32,
    pub profit_threshold_e8: u128,
    pub loop_interval_ms: u64,
}

/// Everything the program is configured with.
#[derive(Clone, Debug)]
pub struct AppConfig {
    pub network: NetworkConfig,
    pub identity: IdentityConfig,
    pub line: LineNotifyConfig,
    pub discord: DiscordWebhookConfig,
    pub tokens: Vec<TokenDefinition>,
    pub trade: TradeParams,
    pub approve: ApproveConfig,
    pub pairs: Vec<PairConfig>,
}

/// Whole raw units from hundredths of a token: one hundredth is a million
/// raw units at eight decimal places.
pub fn e8_from_centi(centi: u64) -> (r: u128)
    ensures
        r == centi * 1_000_000,
{
    (centi as u128) * 1_000_000
}

/// The index of the first token with the given name.
pub fn find_token(tokens: &Vec<TokenDefinition>, name: &String) -> (r: Option<usize>)
    ensures
        (match r {
            Some(j) => j < tokens@.len() && tokens@[j as int].name@ == name@ && (forall|k: int|
                0 <= k < j ==> #[trigger] tokens@[k].name@ != name@),
            None => forall|k: int| 0 <= k < tokens@.len() ==> #[trigger] tokens@[k].name@ != name@,
        }),
{
    let n = tokens.len();
    for i in 0..n
        invariant
            n == tokens@.len(),
            forall|k: int| 0 <= k < i ==> #[trigger] tokens@[k].name@ != name@,
    {
        if tokens[i].name == *name {
            return Some(i);
        }
    }
    None
}

impl AppConfig {
    /// The built-in configuration: the fixed token table, the two trading
    /// pairs built from it, and the approval targets, with the trade
    /// parameters and the notifier's environment key handed in.
    pub fn build_default(trade: TradeParams, discord_env_key: String) -> (r: AppConfig)
        ensures
            r.trade == trade,
            r.discord.env_key@ == discord_env_key@,
            r.network.api_url@ == "https://icp-api.io"@,
            !r.network.fetch_root_key,
            r.identity.pem_path@ == "infinity_identity.pem"@,
            r.line.token is None,
            r.tokens@.len() == 8,
            r.tokens@[0].name@ == "bob"@ && r.tokens@[0].transfer_fee_e8 == 1_000_000
                && r.tokens@[0].icpswap_lp@ == "ybilh-nqaaa-aaaag-qkhzq-cai"@
                && r.tokens@[0].sns_canister@ == "7pail-xaaaa-aaaas-aabmq-cai"@,
            r.tokens@[1].name@ == "kong"@ && r.tokens@[1].transfer_fee_e8 == 10_000
                && r.tokens@[1].icpswap_lp@ == "ye4fx-gqaaa-aaaag-qnara-cai"@
                && r.tokens@[1].sns_canister@ == "o7oak-iyaaa-aaaaq-aadzq-cai"@,
            r.tokens@[2].name@ == "nicp"@ && r.tokens@[2].transfer_fee_e8 == 1_000_000
                && r.tokens@[2].icpswap_lp@ == "e5a7x-pqaaa-aaaag-qkcga-cai"@
                && r.tokens@[2].sns_canister@ == "buwm7-7yaaa-aaaar-qagva-cai"@,
            r.tokens@[3].name@ == "usdc"@ && r.tokens@[3].transfer_fee_e8 == 10_000
                && r.tokens@[3].icpswap_lp@ == "mohjv-bqaaa-aaaag-qjyia-cai"@
                && r.tokens@[3].sns_canister@ == "xevnm-gaaaa-aaaar-qafnq-cai"@,
            r.tokens@[4].name@ == "usdt"@ && r.tokens@[4].transfer_fee_e8 == 10_000
                && r.tokens@[4].icpswap_lp@ == "hkstf-6iaaa-aaaag-qkcoq-cai"@
                && r.tokens@[4].sns_canister@ == "cngnf-vqaaa-aaaar-qag4q-cai"@,
            r.tokens@[5].name@ == "dkp"@ && r.tokens@[5].transfer_fee_e8 == 100_000
                && r.tokens@[5].icpswap_lp@ == "ijd5l-jyaaa-aaaag-qdjga-cai"@
                && r.tokens@[5].sns_canister@ == "zfcdd-tqaaa-aaaaq-aaaga-cai"@,
            r.tokens@[6].name@ == "exe"@ && r.tokens@[6].transfer_fee_e8 == 100_000
                && r.tokens@[6].icpswap_lp@ == "dlfvj-eqaaa-aaaag-qcs3a-cai"@
                && r.tokens@[6].sns_canister@ == "rh2pm-ryaaa-aaaan-qeniq-cai"@,
            r.tokens@[7].name@ == "panda"@ && r.tokens@[7].transfer_fee_e8 == 10_000
                && r.tokens@[7].icpswap_lp@ == "5fq4w-lyaaa-aaaag-qjqta-cai"@
                && r.tokens@[7].sns_canister@ == "druyg-tyaaa-aaaaq-aactq-cai"@,
            r.pairs@.len() == 2,
            r.pairs@[0].symbol@ == "BOB_ICP"@,
            r.pairs@[0].icpswap_lp@ == r.tokens@[0].icpswap_lp@,
            r.pairs@[0].token_sns@ == r.tokens@[0].sns_canister@,
            r.pairs@[0].sns_fee_e8 == r.tokens@[0].transfer_fee_e8,
            r.pairs@[0].ikiti_e8 == 1_000_000_000,
            r.pairs@[1].symbol@ == "KONG_ICP"@,
            r.pairs@[1].icpswap_lp@ == r.tokens@[1].icpswap_lp@,
            r.pairs@[1].token_sns@ == r.tokens@[1].sns_canister@,
            r.pairs@[1].sns_fee_e8 == r.tokens@[1].transfer_fee_e8,
            r.pairs@[1].ikiti_e8 == 1_000_000_000,
            forall|j: int|
                0 <= j < r.pairs@.len() ==> (#[trigger] r.pairs@[j].token_icp@)
                    == "IC.ryjl3-tyaaa-aaaaa-aaaba-cai"@ && r.pairs@[j].kong_canister@
                    == "2ipq2-uqaaa-aaaar-qailq-cai"@,
            r.approve.tokens@.len() == 2,
            r.approve.tokens@[0].name@ == "kong"@,
            r.approve.tokens@[0].sns_threshold_e8 == 1_000_000_000_000,
            r.approve.tokens@[1].name@ == "bob"@,
            r.approve.tokens@[1].sns_threshold_e8 == 10_010_000_000,
            r.approve.icp_canister@ == "ryjl3-tyaaa-aaaaa-aaaba-cai"@,
            r.approve.kong_canister@ == "2ipq2-uqaaa-aaaar-qailq-cai"@,
            r.approve.icp_amount_e8 == 1_000_000_000,
            r.approve.interval_secs == 100,
    {
        let mut tokens: Vec<TokenDefinition> = Vec::new();
        tokens.push(
            TokenDefinition {
                name: "bob".to_owned(),
                icpswap_lp: "ybilh-nqaaa-aaaag-qkhzq-cai".to_owned(),
                sns_canister: "7pail-xaaaa-aaaas-aabmq-cai".to_owned(),
                transfer_fee_e8: 1_000_000,
            },
        );
        tokens.push(
            TokenDefinition {
                name: "kong".to_owned(),
                icpswap_lp: "ye4fx-gqaaa-aaaag-qnara-cai".to_owned(),
                sns_canister: "o7oak-iyaaa-aaaaq-aadzq-cai".to_owned(),
                transfer_fee_e8: 10_000,
            },
        );
        tokens.push(
            TokenDefinition {
                name: "nicp".to_owned(),
                icpswap_lp: "e5a7x-pqaaa-aaaag-qkcga-cai".to_owned(),
                sns_canister: "buwm7-7yaaa-aaaar-qagva-cai".to_owned(),
                transfer_fee_e8: 1_000_000,
            },
        );
        tokens.push(
            TokenDefinition {
                name: "usdc".to_owned(),
                icpswap_lp: "mohjv-bqaaa-aaaag-qjyia-cai".to_owned(),
                sns_canister: "xevnm-gaaaa-aaaar-qafnq-cai".to_owned(),
                transfer_fee_e8: 10_000,
            },
        );
        tokens.push(
            TokenDefinition {
                name: "usdt".to_owned(),
                icpswap_lp: "hkstf-6iaaa-aaaag-qkcoq-cai".to_owned(),
                sns_canister: "cngnf-vqaaa-aaaar-qag4q-cai".to_owned(),
                transfer_fee_e8: 10_000,
            },
        );
        tokens.push(
            TokenDefinition {
                name: "dkp".to_owned(),
                icpswap_lp: "ijd5l-jyaaa-aaaag-qdjga-cai".to_owned(),
                sns_canister: "zfcdd-tqaaa-aaaaq-aaaga-cai".to_owned(),
                transfer_fee_e8: 100_000,
            },
        );
        tokens.push(
            TokenDefinition {
                name: "exe".to_owned(),
                icpswap_lp: "dlfvj-eqaaa-aaaag-qcs3a-cai".to_owned(),
                sns_canister: "rh2pm-ryaaa-aaaan-qeniq-cai".to_owned(),
                transfer_fee_e8: 100_000,
            },
        );
        tokens.push(
            TokenDefinition {
                name: "panda".to_owned(),
                icpswap_lp: "5fq4w-lyaaa-aaaag-qjqta-cai".to_owned(),
                sns_canister: "druyg-tyaaa-aaaaq-aactq-cai".to_owned(),
                transfer_fee_e8: 10_000,
            },
        );
        let mut approve_tokens: Vec<ApproveTokenConfig> = Vec::new();
        approve_tokens.push(
            ApproveTokenConfig {
                name: tokens[1].name.clone(),
                icpswap: tokens[1].icpswap_lp.clone(),
                sns: tokens[1].sns_canister.clone(),
                sns_threshold_e8: e8_from_centi(1_000_000),
            },
        );
        approve_tokens.push(
            ApproveTokenConfig {
                name: tokens[0].name.clone(),
                icpswap: tokens[0].icpswap_lp.clone(),
                sns: tokens[0].sns_canister.clone(),
                sns_threshold_e8: e8_from_centi(10_010),
            },
        );
        let mut pairs: Vec<PairConfig> = Vec::new();
        pairs.push(
            PairConfig {
                token_icp: "IC.ryjl3-tyaaa-aaaaa-aaaba-cai".to_owned(),
                token_sns: tokens[0].sns_canister.clone(),
                kong_canister: "2ipq2-uqaaa-aaaar-qailq-cai".to_owned(),
                icpswap_lp: tokens[0].icpswap_lp.clone(),
                symbol: "BOB_ICP".to_owned(),
                ikiti_e8: e8_from_centi(1_000),
                sns_fee_e8: tokens[0].transfer_fee_e8,
            },
        );
        pairs.push(
            PairConfig {
                token_icp: "IC.ryjl3-tyaaa-aaaaa-aaaba-cai".to_owned(),
                token_sns: tokens[1].sns_canister.clone(),
                kong_canister: "2ipq2-uqaaa-aaaar-qailq-cai".to_owned(),
                icpswap_lp: tokens[1].icpswap_lp.clone(),
                symbol: "KONG_ICP".to_owned(),
                ikiti_e8: e8_from_centi(1_000),
                sns_fee_e8: tokens[1].transfer_fee_e8,
            },
        );
        AppConfig {
            network: NetworkConfig { api_url: "https://icp-api.io".to_owned(), fetch_root_key: false },
            identity: IdentityConfig { pem_path: "infinity_identity.pem".to_owned() },
            line: LineNotifyConfig { token: None },
            discord: DiscordWebhookConfig { env_key: discord_env_key },
            tokens,
            trade,
            approve: ApproveConfig {
                tokens: approve_tokens,
                icp_canister: "ryjl3-tyaaa-aaaaa-aaaba-cai".to_owned(),
                kong_canister: "2ipq2-uqaaa-aaaar-qailq-cai".to_owned(),
                icp_amount_e8: e8_from_centi(1_000),
                interval_secs: 100,
            },
            pairs,
        }
    }
}

} // verus!
