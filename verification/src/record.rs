//! The record that is kept of a reported opportunity.

use crate::amount::{decimal_digits, u256_to_string, TokenAmount};
use crate::arbitrage::Evaluated;
use crate::address::{address_text, h160_debug};
use crate::config::AppConfig;
use crate::units::{human_text, to_human_value};
use chrono::Utc;
use vstd::prelude::*;

verus! {

/// An opportunity with what is needed to trace it: when it was seen, for
/// which pair of tokens and which trade size, and at which quotes. Profits
/// and the cost are decimal text at human scale.
#[derive(Debug)]
pub struct OpportunityRecord {
    pub ts_utc: String,
    pub dex_buy: String,
    pub dex_sell: String,
    pub token_pair: String,
    pub amount_in: String,
    pub quote_buy_out: String,
    pub quote_sell_out: String,
    pub gross_profit_usdc: String,
    pub gas_cost_usdc: String,
    pub net_profit_usdc: String,
}

/// A pair of tokens as it is written: the input token, `->`, the output token.
pub open spec fn token_pair_text(token_in: Seq<u8>, token_out: Seq<u8>) -> Seq<char> {
    address_text(token_in) + "->"@ + address_text(token_out)
}

/// The current time in UTC as RFC 3339 text, from `chrono`. Nothing is
/// claimed of it: each call reads the clock.
#[verifier::external_body]
fn now_rfc3339() -> String {
    Utc::now().to_rfc3339()
}

impl OpportunityRecord {
    /// Whether the record holds what `ev` and `cfg` give. Its time and the
    /// trade size as the operator wrote it come from the caller and are not
    /// spoken of here.
    pub open spec fn describes(&self, ev: &Evaluated, cfg: &AppConfig) -> bool {
        let out_decimals = cfg.token_out_decimals as nat;
        &&& self.dex_buy@ == ev.buy_on@
        &&& self.dex_sell@ == ev.sell_on@
        &&& self.token_pair@ == token_pair_text(cfg.token_in.bytes@, cfg.token_out.bytes@)
        &&& self.quote_buy_out@ == decimal_digits(ev.amount_out_buy@)
        &&& self.quote_sell_out@ == decimal_digits(ev.amount_out_sell@)
        &&& self.gross_profit_usdc@ == human_text(ev.gross_profit_out@, out_decimals)
        &&& self.gas_cost_usdc@ == human_text(cfg.gas_cost_usdc as nat, out_decimals)
        &&& self.net_profit_usdc@ == human_text(ev.net_profit_out@, out_decimals)
    }

    /// The record of `ev` for a trade of size `amount_in`, stamped with the
    /// current time. `amount_in` is the trade size in the operator's words
    /// and is kept as it is.
    pub fn from_eval(ev: &Evaluated, cfg: &AppConfig, amount_in: String) -> (r: OpportunityRecord)
        ensures
            r.amount_in == amount_in,
            r.describes(ev, cfg),
    {
        OpportunityRecord::from_eval_at(ev, cfg, amount_in, now_rfc3339())
    }

    /// The record of `ev` for a trade of size `amount_in`, stamped with the
    /// time `ts_utc`. Both texts are kept as they are.
    pub fn from_eval_at(
        ev: &Evaluated,
        cfg: &AppConfig,
        amount_in: String,
        ts_utc: String,
    ) -> (r: OpportunityRecord)
        ensures
            r.ts_utc == ts_utc,
            r.amount_in == amount_in,
            r.describes(ev, cfg),
    {
        let mut token_pair = h160_debug(&cfg.token_in);
        token_pair.append("->");
        token_pair.append(h160_debug(&cfg.token_out).as_str());
        let gas_cost = TokenAmount::from_u128(cfg.gas_cost_usdc);
        OpportunityRecord {
            ts_utc,
            dex_buy: String::from_str(ev.buy_on),
            dex_sell: String::from_str(ev.sell_on),
            token_pair,
            amount_in,
            quote_buy_out: u256_to_string(&ev.amount_out_buy),
            quote_sell_out: u256_to_string(&ev.amount_out_sell),
            gross_profit_usdc: to_human_value(&ev.gross_profit_out, cfg.token_out_decimals),
            gas_cost_usdc: to_human_value(&gas_cost, cfg.token_out_decimals),
            net_profit_usdc: to_human_value(&ev.net_profit_out, cfg.token_out_decimals),
        }
    }
}

} // verus!
