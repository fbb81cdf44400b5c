//! The data model: currencies, trade legs, trades, observations, and the
//! bridging state carried across trades.

use vstd::prelude::*;
use crate::rational::Rational;

verus! {

/// A tradable asset: its symbol and its decimal precision. Identity is by
/// symbol string equality alone.
#[derive(Clone, PartialEq, Eq, Debug)]
pub struct CurrencyDescriptor {
    pub symbol: String,
    pub decimals: u32,
}

/// One side of a trade: a raw unsigned amount denoting
/// `raw_amount / 10^currency.decimals` units.
#[derive(Clone, PartialEq, Eq, Debug)]
pub struct TradeLeg {
    pub raw_amount: u64,
    pub currency: CurrencyDescriptor,
}

/// A two-sided trade. A trade with either leg absent is invalid and is
/// skipped without error.
#[derive(Clone, PartialEq, Eq, Debug)]
pub struct Trade {
    pub buy: Option<TradeLeg>,
    pub sell: Option<TradeLeg>,
}

/// One side of a trade as it arrives off the wire, where the currency
/// descriptor itself may be absent.
#[derive(Clone, PartialEq, Eq, Debug)]
pub struct RawTradeLeg {
    pub amount: u64,
    pub currency: Option<CurrencyDescriptor>,
}

/// A decoded trade as it arrives off the wire, before validation.
#[derive(Clone, PartialEq, Eq, Debug)]
pub struct RawTrade {
    pub buy: Option<RawTradeLeg>,
    pub sell: Option<RawTradeLeg>,
}

/// A computed spot price for one token, denominated in the stable asset.
#[derive(Clone, PartialEq, Eq, Debug)]
pub struct PriceObservation {
    pub token: String,
    pub price: Rational,
}

impl PriceObservation {
    /// The part of an observation that contracts speak of: the token's
    /// characters and the exact price.
    pub open spec fn view(self) -> (Seq<char>, Rational) {
        (self.token@, self.price)
    }
}

/// The configured symbols: the stable unit of account and the secondary
/// reference asset used for bridging.
#[derive(Clone, PartialEq, Eq, Debug)]
pub struct PricingConfig {
    pub stable_symbol: String,
    pub reference_symbol: String,
}

/// The bridging state carried across trades: the last observed price of the
/// reference asset in the stable asset, absent until a reference-stable trade
/// has been seen.
#[derive(Clone, PartialEq, Eq, Debug)]
pub struct BridgeState {
    pub last_reference_price_in_stable: Option<Rational>,
}

impl BridgeState {
    /// A held reference price always comes from a ratio of two nonzero
    /// 64-bit amounts, so it is compact and has a nonzero denominator.
    pub open spec fn wf(self) -> bool {
        match self.last_reference_price_in_stable {
            Some(r) => r.wf() && r.compact() && r.num != 0,
            None => true,
        }
    }

    /// The state at startup: no reference price seen yet.
    pub fn new() -> (s: BridgeState)
        ensures
            s.last_reference_price_in_stable is None,
            s.wf(),
    {
        BridgeState { last_reference_price_in_stable: None }
    }
}

/// What `from_raw` yields, leg by leg: a leg survives validation exactly when
/// it is present and carries a currency descriptor.
pub open spec fn spec_validated_leg(raw: Option<RawTradeLeg>) -> Option<TradeLeg> {
    match raw {
        Some(leg) => match leg.currency {
            Some(c) => Some(TradeLeg { raw_amount: leg.amount, currency: c }),
            None => None,
        },
        None => None,
    }
}

/// What validating a whole raw trade yields.
pub open spec fn spec_validated_trade(raw: RawTrade) -> Trade {
    Trade { buy: spec_validated_leg(raw.buy), sell: spec_validated_leg(raw.sell) }
}

/// Validates one side of a decoded trade.
fn validated_leg(raw: &Option<RawTradeLeg>) -> (leg: Option<TradeLeg>)
    ensures
        leg == spec_validated_leg(*raw),
{
    match raw {
        Some(l) => match &l.currency {
            Some(c) => Some(
                TradeLeg {
                    raw_amount: l.amount,
                    currency: CurrencyDescriptor { symbol: c.symbol.clone(), decimals: c.decimals },
                },
            ),
            None => None,
        },
        None => None,
    }
}

impl Trade {
    /// Validates a decoded trade: a leg that is absent, or that carries no
    /// currency descriptor, becomes an absent leg, which the resolver then
    /// skips.
    pub fn from_raw(raw: &RawTrade) -> (t: Trade)
        ensures
            t == spec_validated_trade(*raw),
    {
        Trade { buy: validated_leg(&raw.buy), sell: validated_leg(&raw.sell) }
    }
}

} // verus!
