//! The opportunity evaluator: which venue to buy from, which to sell into,
//! and whether the difference pays for the fixed cost and the threshold.

use crate::amount::TokenAmount;
use crate::config::AppConfig;
use vstd::prelude::*;

verus! {

/// One of the two price sources.
#[derive(Clone, Copy, Debug, PartialEq, Eq, Structural)]
pub enum Venue {
    DexA,
    DexB,
}

/// The name under which a venue is reported.
pub open spec fn venue_label(v: Venue) -> Seq<char> {
    match v {
        Venue::DexA => "DEX A"@,
        Venue::DexB => "DEX B"@,
    }
}

/// The venue to buy from: the one whose quote is the smaller. `a` is the
/// quote of the first venue and `b` that of the second.
pub open spec fn buy_venue(a: nat, b: nat) -> Venue
    recommends
        a != b,
{
    if a > b {
        Venue::DexB
    } else {
        Venue::DexA
    }
}

/// The venue to sell into: the one whose quote is the larger.
pub open spec fn sell_venue(a: nat, b: nat) -> Venue
    recommends
        a != b,
{
    if a > b {
        Venue::DexA
    } else {
        Venue::DexB
    }
}

/// Gross profit: the larger quote minus the smaller.
pub open spec fn gross_profit(a: nat, b: nat) -> nat {
    if a > b {
        (a - b) as nat
    } else {
        (b - a) as nat
    }
}

/// Net profit: gross profit minus the fixed cost. It may be negative.
pub open spec fn net_profit(a: nat, b: nat, cost: nat) -> int {
    gross_profit(a, b) - cost
}

/// Whether two quotes make an opportunity worth reporting: they differ, and
/// the net profit reaches the threshold.
pub open spec fn is_opportunity(a: nat, b: nat, cost: nat, min_profit: nat) -> bool {
    a != b && net_profit(a, b, cost) >= min_profit
}

impl Venue {
    /// The name under which the venue is reported.
    pub fn label(self) -> (r: &'static str)
        ensures
            r@ == venue_label(self),
    {
        match self {
            Venue::DexA => "DEX A",
            Venue::DexB => "DEX B",
        }
    }
}

/// The two quotes of one sampling cycle, for the same trade and in the same
/// output token.
#[derive(Clone, Copy, Debug)]
pub struct QuotePair {
    pub dex_a_out: TokenAmount,
    pub dex_b_out: TokenAmount,
}

/// The quote in a venue's answer. A venue answers with one amount for each
/// token on the path of the trade, and the last of them is what the trade
/// pays out; an answer without amounts holds no quote.
pub fn quote_of(amounts: &Vec<TokenAmount>) -> (r: Option<TokenAmount>)
    ensures
        amounts@.len() == 0 ==> r is None,
        amounts@.len() > 0 ==> r == Some(amounts@[amounts@.len() - 1]),
{
    if amounts.len() == 0 {
        None
    } else {
        Some(amounts[amounts.len() - 1])
    }
}

/// A reported opportunity. Profits are in smallest units of the output token.
#[derive(Debug)]
pub struct Evaluated {
    pub buy_on: &'static str,
    pub sell_on: &'static str,
    pub amount_out_buy: TokenAmount,
    pub amount_out_sell: TokenAmount,
    pub gross_profit_out: TokenAmount,
    pub net_profit_out: TokenAmount,
}

/// The evaluator. It holds the settings and no other state.
pub struct ArbEngine {
    pub cfg: AppConfig,
}

impl ArbEngine {
    pub fn new(cfg: AppConfig) -> (r: ArbEngine)
        ensures
            r.cfg == cfg,
    {
        ArbEngine { cfg }
    }

    /// The trade size in smallest units of the input token.
    pub fn amount_in_base_units(&self) -> (r: TokenAmount)
        ensures
            r@ == self.cfg.trade_size_in_token_in,
    {
        TokenAmount::from_u128(self.cfg.trade_size_in_token_in)
    }

    /// Decides whether the two quotes make an opportunity.
    ///
    /// Equal quotes never do. Otherwise the venue with the smaller quote is
    /// the one to buy from and the other the one to sell into; the result is
    /// present exactly when the difference of the quotes, less the fixed
    /// cost, is at least the minimum profit.
    pub fn evaluate(&self, quotes: QuotePair) -> (r: Option<Evaluated>)
        ensures
            r is Some <==> is_opportunity(
                quotes.dex_a_out@,
                quotes.dex_b_out@,
                self.cfg.gas_cost_usdc as nat,
                self.cfg.min_profit_usdc as nat,
            ),
            r matches Some(ev) ==> {
                &&& ev.buy_on@ == venue_label(buy_venue(quotes.dex_a_out@, quotes.dex_b_out@))
                &&& ev.sell_on@ == venue_label(sell_venue(quotes.dex_a_out@, quotes.dex_b_out@))
                &&& ev.amount_out_buy == if quotes.dex_a_out@ > quotes.dex_b_out@ {
                    quotes.dex_b_out
                } else {
                    quotes.dex_a_out
                }
                &&& ev.amount_out_sell == if quotes.dex_a_out@ > quotes.dex_b_out@ {
                    quotes.dex_a_out
                } else {
                    quotes.dex_b_out
                }
                &&& ev.gross_profit_out@ == gross_profit(quotes.dex_a_out@, quotes.dex_b_out@)
                &&& ev.net_profit_out@ == net_profit(
                    quotes.dex_a_out@,
                    quotes.dex_b_out@,
                    self.cfg.gas_cost_usdc as nat,
                )
            },
            quotes.dex_a_out@ == quotes.dex_b_out@ ==> r is None,
            r matches Some(ev) ==> ev.amount_out_sell@ > ev.amount_out_buy@ && ev.buy_on@
                != ev.sell_on@,
    {
        let (buy, sell, out_buy, out_sell) = if quotes.dex_a_out.gt(&quotes.dex_b_out) {
            (Venue::DexB, Venue::DexA, quotes.dex_b_out, quotes.dex_a_out)
        } else if quotes.dex_b_out.gt(&quotes.dex_a_out) {
            (Venue::DexA, Venue::DexB, quotes.dex_a_out, quotes.dex_b_out)
        } else {
            return None;
        };
        let gross = out_sell.abs_diff(&out_buy);
        let cost = TokenAmount::from_u128(self.cfg.gas_cost_usdc);
        let min_profit = TokenAmount::from_u128(self.cfg.min_profit_usdc);
        match gross.checked_sub(&cost) {
            None => None,
            Some(net) => {
                if min_profit.gt(&net) {
                    None
                } else {
                    proof {
                        lemma_labels_differ();
                    }
                    Some(
                        Evaluated {
                            buy_on: buy.label(),
                            sell_on: sell.label(),
                            amount_out_buy: out_buy,
                            amount_out_sell: out_sell,
                            gross_profit_out: gross,
                            net_profit_out: net,
                        },
                    )
                }
            },
        }
    }
}

/// Raising the sell-side quote while the buy-side quote stays where it is
/// never lowers the net profit, whichever venue holds which quote; so an
/// opportunity stays one.
pub proof fn lemma_net_profit_monotone(buy: nat, sell: nat, higher_sell: nat, cost: nat)
    requires
        buy <= sell,
        sell <= higher_sell,
    ensures
        net_profit(sell, buy, cost) <= net_profit(higher_sell, buy, cost),
        net_profit(buy, sell, cost) <= net_profit(buy, higher_sell, cost),
        forall|min_profit: nat| #[trigger]
            is_opportunity(sell, buy, cost, min_profit) ==> is_opportunity(
                higher_sell,
                buy,
                cost,
                min_profit,
            ),
{
}

/// The threshold is inclusive: unequal quotes whose net profit is exactly the
/// minimum make an opportunity, and one smallest unit less makes none.
pub proof fn lemma_threshold_inclusive(a: nat, b: nat, cost: nat, min_profit: nat)
    requires
        a != b,
    ensures
        net_profit(a, b, cost) == min_profit ==> is_opportunity(a, b, cost, min_profit),
        net_profit(a, b, cost) == min_profit - 1 ==> !is_opportunity(a, b, cost, min_profit),
{
}

/// Equal quotes make no opportunity, whatever the cost and the threshold.
pub proof fn lemma_equal_quotes_no_opportunity(a: nat, cost: nat, min_profit: nat)
    ensures
        !is_opportunity(a, a, cost, min_profit),
{
}

/// The two venues are reported under different names.
pub proof fn lemma_labels_differ()
    ensures
        venue_label(Venue::DexA) != venue_label(Venue::DexB),
{
    reveal_strlit("DEX A");
    reveal_strlit("DEX B");
    assert("DEX A"@[4] == 'A');
    assert("DEX B"@[4] == 'B');
}

} // verus!
