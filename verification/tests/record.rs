use arb_engine::amount::TokenAmount;
use arb_engine::arbitrage::{ArbEngine, QuotePair};
use arb_engine::address::Address;
use arb_engine::config::AppConfig;
use arb_engine::record::OpportunityRecord;
use chrono::DateTime;

fn engine() -> ArbEngine {
    ArbEngine::new(AppConfig {
        rpc_url: String::from("http://localhost:8545"),
        dex_a_router: Address { bytes: [0x11; 20] },
        dex_b_router: Address { bytes: [0x22; 20] },
        token_in: Address { bytes: [0xab; 20] },
        token_out: Address { bytes: [0x0c; 20] },
        token_in_decimals: 18,
        token_out_decimals: 6,
        trade_size_in_token_in: 1_500_000_000_000_000_000,
        gas_cost_usdc: 2_000_000,
        min_profit_usdc: 5_000_000,
        poll_interval_secs: 20,
    })
}

fn quotes() -> QuotePair {
    QuotePair {
        dex_a_out: TokenAmount::from_u128(1_010_000_000),
        dex_b_out: TokenAmount::from_u128(1_000_000_000),
    }
}

#[test]
fn record_carries_the_opportunity_and_its_provenance() {
    let engine = engine();
    let ev = engine.evaluate(quotes()).unwrap();
    let ts = String::from("2024-05-01T12:00:00+00:00");
    let rec = OpportunityRecord::from_eval_at(&ev, &engine.cfg, 1.5f64.to_string(), ts);
    assert_eq!(rec.ts_utc, "2024-05-01T12:00:00+00:00");
    assert_eq!(rec.dex_buy, "DEX B");
    assert_eq!(rec.dex_sell, "DEX A");
    assert_eq!(
        rec.token_pair,
        "0xabababababababababababababababababababab->0x0c0c0c0c0c0c0c0c0c0c0c0c0c0c0c0c0c0c0c0c"
    );
    assert_eq!(rec.amount_in, "1.5");
    assert_eq!(rec.quote_buy_out, "1000000000");
    assert_eq!(rec.quote_sell_out, "1010000000");
    assert_eq!(rec.gross_profit_usdc, "10.000000");
    assert_eq!(rec.gas_cost_usdc, "2.000000");
    assert_eq!(rec.net_profit_usdc, "8.000000");
}

#[test]
fn record_amounts_read_as_the_expected_values() {
    let engine = engine();
    let ev = engine.evaluate(quotes()).unwrap();
    let rec =
        OpportunityRecord::from_eval_at(&ev, &engine.cfg, 1.0f64.to_string(), String::new());
    assert_eq!(rec.dex_buy, "DEX B");
    assert_eq!(rec.dex_sell, "DEX A");
    assert_eq!(rec.quote_buy_out, "1000000000");
    assert_eq!(rec.quote_sell_out, "1010000000");
    assert_eq!(rec.amount_in, "1");
    assert_eq!(rec.gross_profit_usdc.parse::<f64>().unwrap(), 10.0);
    assert_eq!(rec.gas_cost_usdc.parse::<f64>().unwrap(), 2.0);
    assert_eq!(rec.net_profit_usdc.parse::<f64>().unwrap(), 8.0);
}

#[test]
fn record_is_stamped_with_a_time() {
    let engine = engine();
    let ev = engine.evaluate(quotes()).unwrap();
    let rec = OpportunityRecord::from_eval(&ev, &engine.cfg, String::from("1.5"));
    assert!(DateTime::parse_from_rfc3339(&rec.ts_utc).is_ok());
    assert_eq!(rec.amount_in, "1.5");
    assert_eq!(rec.dex_buy, "DEX B");
    assert_eq!(rec.net_profit_usdc, "8.000000");
}

#[test]
fn token_pair_is_written_in_lower_case_and_in_full() {
    let mut engine = engine();
    engine.cfg.token_in = Address::parse("0x7A250D5630B4CF539739DF2C5DACB4C659F2488D").unwrap();
    engine.cfg.token_out = Address { bytes: [0; 20] };
    let ev = engine.evaluate(quotes()).unwrap();
    let rec = OpportunityRecord::from_eval_at(&ev, &engine.cfg, String::new(), String::new());
    assert_eq!(rec.amount_in, "");
    assert_eq!(
        rec.token_pair,
        "0x7a250d5630b4cf539739df2c5dacb4c659f2488d->0x0000000000000000000000000000000000000000"
    );
    let (written_in, written_out) = rec.token_pair.split_once("->").unwrap();
    assert_eq!(Address::parse(written_in), Ok(engine.cfg.token_in));
    assert_eq!(Address::parse(written_out), Ok(engine.cfg.token_out));
}
