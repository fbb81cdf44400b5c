//! The price resolver: decides whether a trade yields a direct or a bridged
//! price in the stable asset, computes it exactly, and maintains the bridging
//! reference price carried across trades.

use vstd::prelude::*;
use crate::model::{BridgeState, PriceObservation, PricingConfig, Trade, TradeLeg};
use crate::rational::{Rational, lemma_pow10_adds, same_value};

verus! {

/// A leg is stable when its symbol equals the configured stable symbol.
pub open spec fn spec_is_stable(leg: TradeLeg, config: PricingConfig) -> bool {
    leg.currency.symbol@ == config.stable_symbol@
}

/// A leg is the reference asset when its symbol equals the configured
/// reference symbol.
pub open spec fn spec_is_reference(leg: TradeLeg, config: PricingConfig) -> bool {
    leg.currency.symbol@ == config.reference_symbol@
}

/// Both legs are present and both raw amounts are nonzero; only such trades
/// can be priced.
pub open spec fn spec_legs_priceable(trade: Trade) -> bool {
    &&& trade.buy is Some
    &&& trade.sell is Some
    &&& trade.buy->0.raw_amount != 0
    &&& trade.sell->0.raw_amount != 0
}

/// The trade is exactly a reference-stable pair with priceable legs: the only
/// kind of trade that writes the bridge state.
pub open spec fn spec_updates_bridge(trade: Trade, config: PricingConfig) -> bool {
    &&& spec_legs_priceable(trade)
    &&& {
        ||| spec_is_reference(trade.buy->0, config) && spec_is_stable(trade.sell->0, config)
        ||| spec_is_reference(trade.sell->0, config) && spec_is_stable(trade.buy->0, config)
    }
}

/// The exact quotient of two normalized legs, `top / bot`:
/// `(top.raw / 10^top.decimals) / (bot.raw / 10^bot.decimals)`, which equals
/// `(top.raw * 10^bot.decimals) / (bot.raw * 10^top.decimals)`.
pub open spec fn leg_ratio(top: TradeLeg, bot: TradeLeg) -> Rational {
    Rational {
        num: top.raw_amount as u128,
        den: bot.raw_amount as u128,
        num_exp: bot.currency.decimals as u64,
        den_exp: top.currency.decimals as u64,
    }
}

/// The normalized amount of a leg, `raw / 10^decimals`, as a rational.
pub open spec fn leg_value(leg: TradeLeg) -> Rational {
    Rational {
        num: leg.raw_amount as u128,
        den: 1,
        num_exp: 0,
        den_exp: leg.currency.decimals as u64,
    }
}

/// Normalizes a leg: its raw integer amount scaled down by the currency's
/// decimal precision, as an exact rational. The result is zero exactly when
/// the raw amount is zero, however large the precision.
pub fn normalize(leg: &TradeLeg) -> (r: Rational)
    ensures
        r == leg_value(*leg),
        r.compact(),
        r.wf(),
        r.num == 0 <==> leg.raw_amount == 0,
{
    Rational { num: leg.raw_amount as u128, den: 1, num_exp: 0, den_exp: leg.currency.decimals as u64 }
}

/// The product of two rationals, part by part. Exact whenever both factors
/// are compact, since the integer parts then fit a 128-bit product and the
/// exponent sums fit 64 bits.
pub open spec fn rat_mul(a: Rational, b: Rational) -> Rational {
    Rational {
        num: (a.num * b.num) as u128,
        den: (a.den * b.den) as u128,
        num_exp: (a.num_exp + b.num_exp) as u64,
        den_exp: (a.den_exp + b.den_exp) as u64,
    }
}

/// On compact factors, `rat_mul` multiplies numerators and denominators
/// exactly, with no truncation.
pub proof fn lemma_rat_mul_value(a: Rational, b: Rational)
    requires
        a.compact(),
        b.compact(),
    ensures
        rat_mul(a, b).numerator() == a.numerator() * b.numerator(),
        rat_mul(a, b).denominator() == a.denominator() * b.denominator(),
{
    assert(a.num * b.num <= u128::MAX && a.den * b.den <= u128::MAX) by (nonlinear_arith)
        requires
            a.num <= u64::MAX as u128,
            b.num <= u64::MAX as u128,
            a.den <= u64::MAX as u128,
            b.den <= u64::MAX as u128,
    ;
    lemma_pow10_adds(a.num_exp as nat, b.num_exp as nat);
    lemma_pow10_adds(a.den_exp as nat, b.den_exp as nat);
    assert((a.num * b.num) * (crate::rational::pow10(a.num_exp as nat) * crate::rational::pow10(
        b.num_exp as nat,
    )) == (a.num * crate::rational::pow10(a.num_exp as nat)) * (b.num * crate::rational::pow10(
        b.num_exp as nat,
    ))) by (nonlinear_arith);
    assert((a.den * b.den) * (crate::rational::pow10(a.den_exp as nat) * crate::rational::pow10(
        b.den_exp as nat,
    )) == (a.den * crate::rational::pow10(a.den_exp as nat)) * (b.den * crate::rational::pow10(
        b.den_exp as nat,
    ))) by (nonlinear_arith);
}

/// What resolving a trade yields, as a pure function of the trade, the
/// configured symbols, and the bridge state coming in: the observation, if
/// any, as a pair of the token's characters and the exact price, and the
/// bridge state going out.
///
/// The decision order is strict: a missing leg or a zero amount skips the
/// trade; a stable leg prices directly and, exactly on a reference-stable
/// pair, overwrites the bridge state; otherwise a reference leg prices
/// through the held reference price, if one is held; anything else is
/// ignored. A bridged computation never writes the bridge state.
pub open spec fn spec_resolved(trade: Trade, config: PricingConfig, bridge: Option<Rational>) -> (
    Option<(Seq<char>, Rational)>,
    Option<Rational>,
) {
    if trade.buy is None || trade.sell is None {
        (None, bridge)
    } else {
        let b = trade.buy->0;
        let s = trade.sell->0;
        if b.raw_amount == 0 || s.raw_amount == 0 {
            (None, bridge)
        } else {
            let b_stable = spec_is_stable(b, config);
            let s_stable = spec_is_stable(s, config);
            let b_ref = spec_is_reference(b, config);
            let s_ref = spec_is_reference(s, config);
            if b_stable || s_stable {
                let price = if b_stable {
                    leg_ratio(b, s)
                } else {
                    leg_ratio(s, b)
                };
                let token = if b_stable {
                    s.currency.symbol@
                } else {
                    b.currency.symbol@
                };
                let out_bridge = if (b_ref && s_stable) || (s_ref && b_stable) {
                    Some(
                        if b_ref {
                            leg_ratio(s, b)
                        } else {
                            leg_ratio(b, s)
                        },
                    )
                } else {
                    bridge
                };
                (Some((token, price)), out_bridge)
            } else if b_ref || s_ref {
                match bridge {
                    Some(rate) => {
                        let token_in_reference = if b_ref {
                            leg_ratio(b, s)
                        } else {
                            leg_ratio(s, b)
                        };
                        let token = if b_ref {
                            s.currency.symbol@
                        } else {
                            b.currency.symbol@
                        };
                        (Some((token, rat_mul(token_in_reference, rate))), bridge)
                    },
                    None => (None, bridge),
                }
            } else {
                (None, bridge)
            }
        }
    }
}

/// `leg_ratio(top, bot)` really is the quotient of the two normalized
/// amounts: multiplied back by the normalized `bot` amount it has the same
/// value as the normalized `top` amount.
pub proof fn lemma_leg_ratio_is_quotient(top: TradeLeg, bot: TradeLeg)
    requires
        bot.raw_amount != 0,
    ensures
        same_value(rat_mul(leg_ratio(top, bot), leg_value(bot)), leg_value(top)),
{
    let q = leg_ratio(top, bot);
    let v = leg_value(bot);
    lemma_rat_mul_value(q, v);
    let p = rat_mul(q, v);
    let dt = crate::rational::pow10(top.currency.decimals as nat);
    let db = crate::rational::pow10(bot.currency.decimals as nat);
    vstd::arithmetic::power::lemma_pow0(10);
    lemma_pow10_adds(bot.currency.decimals as nat, 0);
    lemma_pow10_adds(top.currency.decimals as nat, 0);
    assert(p.numerator() == (top.raw_amount as int * db) * (bot.raw_amount as int));
    assert(p.denominator() == (bot.raw_amount as int * dt) * db);
    assert(((top.raw_amount as int * db) * (bot.raw_amount as int)) * dt == (top.raw_amount as int)
        * ((bot.raw_amount as int * dt) * db)) by (nonlinear_arith);
    assert(crate::rational::pow10(0) == 1);
    assert(leg_value(top).numerator() == (top.raw_amount as u128) * crate::rational::pow10(0));
    assert(leg_value(top).numerator() == top.raw_amount as int);
    assert(leg_value(top).denominator() == dt);
}

/// A trade with a stable leg prices the other leg directly, as the quotient
/// of the stable amount by the other amount, and never writes the bridge
/// state unless the other leg is exactly the reference asset.
pub proof fn lemma_direct_price(trade: Trade, config: PricingConfig, bridge: Option<Rational>)
    requires
        spec_legs_priceable(trade),
        spec_is_stable(trade.buy->0, config) || spec_is_stable(trade.sell->0, config),
    ensures
        ({
            let (obs, out_bridge) = spec_resolved(trade, config, bridge);
            let price = obs->0 .1;
            &&& obs is Some
            &&& price == (if spec_is_stable(trade.buy->0, config) {
                leg_ratio(trade.buy->0, trade.sell->0)
            } else {
                leg_ratio(trade.sell->0, trade.buy->0)
            })
            &&& (!spec_updates_bridge(trade, config) ==> out_bridge == bridge)
        }),
{
}

/// A reference-stable pair always leaves the bridge state holding the
/// quotient of the stable amount by the reference amount, whatever it held
/// before: last write wins.
pub proof fn lemma_bridge_update(trade: Trade, config: PricingConfig, bridge: Option<Rational>)
    requires
        spec_updates_bridge(trade, config),
    ensures
        ({
            let (obs, out_bridge) = spec_resolved(trade, config, bridge);
            &&& obs is Some
            &&& out_bridge == Some(
                if spec_is_reference(trade.buy->0, config) && spec_is_stable(
                    trade.sell->0,
                    config,
                ) {
                    leg_ratio(trade.sell->0, trade.buy->0)
                } else {
                    leg_ratio(trade.buy->0, trade.sell->0)
                },
            )
        }),
{
}

/// A trade with a reference leg, no stable leg, and a held reference price
/// `rate` prices the other leg as (reference amount / other amount) * rate,
/// exactly, and leaves the bridge state alone.
pub proof fn lemma_bridged_price(trade: Trade, config: PricingConfig, rate: Rational)
    requires
        spec_legs_priceable(trade),
        !spec_is_stable(trade.buy->0, config),
        !spec_is_stable(trade.sell->0, config),
        spec_is_reference(trade.buy->0, config) || spec_is_reference(trade.sell->0, config),
        rate.compact(),
    ensures
        ({
            let (obs, out_bridge) = spec_resolved(trade, config, Some(rate));
            let token_in_reference = if spec_is_reference(trade.buy->0, config) {
                leg_ratio(trade.buy->0, trade.sell->0)
            } else {
                leg_ratio(trade.sell->0, trade.buy->0)
            };
            let price = obs->0 .1;
            &&& obs is Some
            &&& price == rat_mul(token_in_reference, rate)
            &&& price.numerator() == token_in_reference.numerator() * rate.numerator()
            &&& price.denominator() == token_in_reference.denominator() * rate.denominator()
            &&& out_bridge == Some(rate)
        }),
{
    let token_in_reference = if spec_is_reference(trade.buy->0, config) {
        leg_ratio(trade.buy->0, trade.sell->0)
    } else {
        leg_ratio(trade.sell->0, trade.buy->0)
    };
    lemma_rat_mul_value(token_in_reference, rate);
}

/// A trade with a reference leg and no stable leg yields nothing while no
/// reference price is held, and holds none afterwards either.
pub proof fn lemma_bridged_without_reference(trade: Trade, config: PricingConfig)
    requires
        spec_legs_priceable(trade),
        !spec_is_stable(trade.buy->0, config),
        !spec_is_stable(trade.sell->0, config),
        spec_is_reference(trade.buy->0, config) || spec_is_reference(trade.sell->0, config),
    ensures
        spec_resolved(trade, config, None) == (None::<(Seq<char>, Rational)>, None::<Rational>),
{
}

/// A trade with neither a stable nor a reference leg yields nothing and
/// leaves the bridge state alone, whatever that state is.
pub proof fn lemma_unrelated_trade(trade: Trade, config: PricingConfig, bridge: Option<Rational>)
    requires
        trade.buy is Some,
        trade.sell is Some,
        !spec_is_stable(trade.buy->0, config),
        !spec_is_stable(trade.sell->0, config),
        !spec_is_reference(trade.buy->0, config),
        !spec_is_reference(trade.sell->0, config),
    ensures
        spec_resolved(trade, config, bridge) == (None::<(Seq<char>, Rational)>, bridge),
{
}

/// Resolving is idempotent on any trade that is not a reference-stable pair:
/// the bridge state never changes, and a second resolution of the same trade
/// yields the same observation.
pub proof fn lemma_resolve_idempotent(trade: Trade, config: PricingConfig, bridge: Option<Rational>)
    requires
        !spec_updates_bridge(trade, config),
    ensures
        ({
            let (obs1, out1) = spec_resolved(trade, config, bridge);
            let (obs2, out2) = spec_resolved(trade, config, out1);
            &&& out1 == bridge
            &&& obs2 == obs1
            &&& out2 == bridge
        }),
{
}

/// A trade where either raw amount is exactly zero yields nothing and leaves
/// the bridge state alone, whatever the symbols are.
pub proof fn lemma_zero_amount_guard(trade: Trade, config: PricingConfig, bridge: Option<Rational>)
    requires
        trade.buy is Some,
        trade.sell is Some,
        trade.buy->0.raw_amount == 0 || trade.sell->0.raw_amount == 0,
    ensures
        spec_resolved(trade, config, bridge) == (None::<(Seq<char>, Rational)>, bridge),
{
}

/// Builds the exact quotient of two normalized legs.
fn ratio_of_legs(top: &TradeLeg, bot: &TradeLeg) -> (r: Rational)
    ensures
        r == leg_ratio(*top, *bot),
        r.compact(),
        bot.raw_amount != 0 ==> r.wf(),
        top.raw_amount != 0 ==> r.num != 0,
{
    Rational {
        num: top.raw_amount as u128,
        den: bot.raw_amount as u128,
        num_exp: bot.currency.decimals as u64,
        den_exp: top.currency.decimals as u64,
    }
}

/// Multiplies two compact rationals exactly.
fn mul_compact(a: Rational, b: Rational) -> (r: Rational)
    requires
        a.compact(),
        b.compact(),
    ensures
        r == rat_mul(a, b),
        a.den != 0 && b.den != 0 ==> r.wf(),
        a.num != 0 && b.num != 0 ==> r.num != 0,
{
    proof {
        assert(a.num * b.num <= u128::MAX && a.den * b.den <= u128::MAX) by (nonlinear_arith)
            requires
                a.num <= u64::MAX as u128,
                b.num <= u64::MAX as u128,
                a.den <= u64::MAX as u128,
                b.den <= u64::MAX as u128,
        ;
        assert(a.den != 0 && b.den != 0 ==> a.den * b.den != 0) by (nonlinear_arith);
        assert(a.num != 0 && b.num != 0 ==> a.num * b.num != 0) by (nonlinear_arith);
    }
    Rational {
        num: a.num * b.num,
        den: a.den * b.den,
        num_exp: a.num_exp + b.num_exp,
        den_exp: a.den_exp + b.den_exp,
    }
}

/// Resolves one trade against the configured symbols and the bridge state:
/// returns the price observation, if the trade yields one, and updates the
/// bridge state exactly when the trade is a reference-stable pair.
pub fn resolve(trade: &Trade, config: &PricingConfig, bridge: &mut BridgeState) -> (result: Option<
    PriceObservation,
>)
    requires
        old(bridge).wf(),
    ensures
        final(bridge).wf(),
        ({
            let (obs, out_bridge) = spec_resolved(
                *trade,
                *config,
                old(bridge).last_reference_price_in_stable,
            );
            &&& final(bridge).last_reference_price_in_stable == out_bridge
            &&& (match result {
                Some(o) => obs is Some && o@ == obs->0,
                None => obs is None,
            })
        }),
        (match result {
            Some(o) => o.price.wf() && o.price.num != 0,
            None => true,
        }),
{
    let (buy_leg, sell_leg) = match (&trade.buy, &trade.sell) {
        (Some(b), Some(s)) => (b, s),
        _ => {
            return None;
        },
    };
    if buy_leg.raw_amount == 0 || sell_leg.raw_amount == 0 {
        return None;
    }
    let buy_is_stable = buy_leg.currency.symbol == config.stable_symbol;
    let sell_is_stable = sell_leg.currency.symbol == config.stable_symbol;
    let buy_is_reference = buy_leg.currency.symbol == config.reference_symbol;
    let sell_is_reference = sell_leg.currency.symbol == config.reference_symbol;

    if buy_is_stable || sell_is_stable {
        let price = if buy_is_stable {
            ratio_of_legs(buy_leg, sell_leg)
        } else {
            ratio_of_legs(sell_leg, buy_leg)
        };
        let token = if buy_is_stable {
            sell_leg.currency.symbol.clone()
        } else {
            buy_leg.currency.symbol.clone()
        };
        if (buy_is_reference && sell_is_stable) || (sell_is_reference && buy_is_stable) {
            let rate = if buy_is_reference {
                ratio_of_legs(sell_leg, buy_leg)
            } else {
                ratio_of_legs(buy_leg, sell_leg)
            };
            bridge.last_reference_price_in_stable = Some(rate);
        }
        Some(PriceObservation { token, price })
    } else if buy_is_reference || sell_is_reference {
        match bridge.last_reference_price_in_stable {
            Some(rate) => {
                let token_in_reference = if buy_is_reference {
                    ratio_of_legs(buy_leg, sell_leg)
                } else {
                    ratio_of_legs(sell_leg, buy_leg)
                };
                let token = if buy_is_reference {
                    sell_leg.currency.symbol.clone()
                } else {
                    buy_leg.currency.symbol.clone()
                };
                let price = mul_compact(token_in_reference, rate);
                Some(PriceObservation { token, price })
            },
            None => None,
        }
    } else {
        None
    }
}

} // verus!
