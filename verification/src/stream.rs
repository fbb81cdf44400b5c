//! The stream loop, as a state machine over plain values: a decoded batch of
//! transactions is walked trade by trade, successful transactions feed the
//! resolver, and the loop decides which action the surrounding consumer
//! performs next (receive, decode, commit, report).

use vstd::prelude::*;
use crate::model::{
    BridgeState, PriceObservation, PricingConfig, RawTrade, Trade, spec_validated_trade,
};
use crate::rational::Rational;
use crate::resolver::{resolve, spec_resolved};

verus! {

/// The transaction-level status flag carried by the wire format.
#[derive(Clone, Copy, PartialEq, Eq, Structural, Debug)]
pub struct TransactionStatus {
    pub success: bool,
}

/// One transaction of a batch: its status and its trades.
#[derive(Clone, PartialEq, Eq, Debug)]
pub struct Transaction {
    pub status: Option<TransactionStatus>,
    pub trades: Vec<RawTrade>,
}

/// One decoded broker message: a batch of transactions.
#[derive(Clone, PartialEq, Eq, Debug)]
pub struct BatchMessage {
    pub transactions: Vec<Transaction>,
}

/// Only trades under a present, successful status are priced.
pub open spec fn spec_tx_included(tx: Transaction) -> bool {
    tx.status is Some && tx.status->0.success
}

/// The observation parts a sequence of observations denotes.
pub open spec fn obs_views(s: Seq<PriceObservation>) -> Seq<(Seq<char>, Rational)> {
    s.map_values(|o: PriceObservation| o@)
}

/// What resolving a sequence of raw trades in order yields: the observations
/// produced, and the bridge state after the last trade.
pub open spec fn spec_resolved_trades(
    trades: Seq<RawTrade>,
    config: PricingConfig,
    bridge: Option<Rational>,
) -> (Seq<(Seq<char>, Rational)>, Option<Rational>)
    decreases trades.len(),
{
    if trades.len() == 0 {
        (Seq::empty(), bridge)
    } else {
        let (first_obs, b1) = spec_resolved(spec_validated_trade(trades[0]), config, bridge);
        let (rest, bf) = spec_resolved_trades(trades.drop_first(), config, b1);
        let head = match first_obs {
            Some(o) => seq![o],
            None => Seq::empty(),
        };
        (head + rest, bf)
    }
}

/// What processing a sequence of transactions in order yields: trades of
/// skipped transactions contribute nothing and leave the bridge state alone.
pub open spec fn spec_processed_transactions(
    txs: Seq<Transaction>,
    config: PricingConfig,
    bridge: Option<Rational>,
) -> (Seq<(Seq<char>, Rational)>, Option<Rational>)
    decreases txs.len(),
{
    if txs.len() == 0 {
        (Seq::empty(), bridge)
    } else {
        let (head, b1) = if spec_tx_included(txs[0]) {
            spec_resolved_trades(txs[0].trades@, config, bridge)
        } else {
            (Seq::empty(), bridge)
        };
        let (rest, bf) = spec_processed_transactions(txs.drop_first(), config, b1);
        (head + rest, bf)
    }
}

/// Resolves the trades of one transaction in order, threading the bridge
/// state through, and returns the observations produced.
pub fn resolve_trades(
    trades: &Vec<RawTrade>,
    config: &PricingConfig,
    bridge: &mut BridgeState,
) -> (out: Vec<PriceObservation>)
    requires
        old(bridge).wf(),
    ensures
        final(bridge).wf(),
        obs_views(out@) == spec_resolved_trades(
            trades@,
            *config,
            old(bridge).last_reference_price_in_stable,
        ).0,
        final(bridge).last_reference_price_in_stable == spec_resolved_trades(
            trades@,
            *config,
            old(bridge).last_reference_price_in_stable,
        ).1,
{
    let ghost b0 = old(bridge).last_reference_price_in_stable;
    let mut out: Vec<PriceObservation> = Vec::new();
    let mut i: usize = 0;
    proof {
        assert(obs_views(out@) =~= Seq::<(Seq<char>, Rational)>::empty());
        assert(trades@.skip(0) =~= trades@);
        assert(Seq::<(Seq<char>, Rational)>::empty() + spec_resolved_trades(trades@, *config, b0).0
            =~= spec_resolved_trades(trades@, *config, b0).0);
    }
    while i < trades.len()
        invariant
            i <= trades@.len(),
            bridge.wf(),
            obs_views(out@) + spec_resolved_trades(
                trades@.skip(i as int),
                *config,
                bridge.last_reference_price_in_stable,
            ).0 == spec_resolved_trades(trades@, *config, b0).0,
            spec_resolved_trades(
                trades@.skip(i as int),
                *config,
                bridge.last_reference_price_in_stable,
            ).1 == spec_resolved_trades(trades@, *config, b0).1,
        decreases trades@.len() - i,
    {
        let ghost pending = trades@.skip(i as int);
        let ghost b_here = bridge.last_reference_price_in_stable;
        proof {
            assert(pending[0] == trades@[i as int]);
            assert(pending.drop_first() =~= trades@.skip(i + 1));
        }
        let trade = Trade::from_raw(&trades[i]);
        let resolved = resolve(&trade, config, bridge);
        proof {
            let (first_obs, b1) = spec_resolved(spec_validated_trade(pending[0]), *config, b_here);
            assert(spec_resolved_trades(pending, *config, b_here).0 == (match first_obs {
                Some(o) => seq![o],
                None => Seq::<(Seq<char>, Rational)>::empty(),
            }) + spec_resolved_trades(pending.drop_first(), *config, b1).0);
        }
        match resolved {
            Some(o) => {
                let ghost out_before = out@;
                out.push(o);
                proof {
                    assert(obs_views(out@) =~= obs_views(out_before) + seq![o@]);
                    assert(obs_views(out_before) + (seq![o@] + spec_resolved_trades(
                        trades@.skip(i + 1),
                        *config,
                        bridge.last_reference_price_in_stable,
                    ).0) =~= obs_views(out@) + spec_resolved_trades(
                        trades@.skip(i + 1),
                        *config,
                        bridge.last_reference_price_in_stable,
                    ).0);
                }
            },
            None => {
                proof {
                    assert(Seq::<(Seq<char>, Rational)>::empty() + spec_resolved_trades(
                        trades@.skip(i + 1),
                        *config,
                        bridge.last_reference_price_in_stable,
                    ).0 =~= spec_resolved_trades(
                        trades@.skip(i + 1),
                        *config,
                        bridge.last_reference_price_in_stable,
                    ).0);
                }
            },
        }
        i += 1;
    }
    proof {
        assert(trades@.skip(trades@.len() as int) =~= Seq::<RawTrade>::empty());
        assert(obs_views(out@) + Seq::<(Seq<char>, Rational)>::empty() =~= obs_views(out@));
    }
    out
}

/// Processes one decoded batch: walks its transactions in order, prices the
/// trades of the successful ones, and returns all observations produced.
pub fn process_batch(
    batch: &BatchMessage,
    config: &PricingConfig,
    bridge: &mut BridgeState,
) -> (out: Vec<PriceObservation>)
    requires
        old(bridge).wf(),
    ensures
        final(bridge).wf(),
        obs_views(out@) == spec_processed_transactions(
            batch.transactions@,
            *config,
            old(bridge).last_reference_price_in_stable,
        ).0,
        final(bridge).last_reference_price_in_stable == spec_processed_transactions(
            batch.transactions@,
            *config,
            old(bridge).last_reference_price_in_stable,
        ).1,
{
    let ghost b0 = old(bridge).last_reference_price_in_stable;
    let txs = &batch.transactions;
    let mut out: Vec<PriceObservation> = Vec::new();
    let mut i: usize = 0;
    proof {
        assert(obs_views(out@) =~= Seq::<(Seq<char>, Rational)>::empty());
        assert(txs@.skip(0) =~= txs@);
        assert(Seq::<(Seq<char>, Rational)>::empty() + spec_processed_transactions(
            txs@,
            *config,
            b0,
        ).0 =~= spec_processed_transactions(txs@, *config, b0).0);
    }
    while i < txs.len()
        invariant
            i <= txs@.len(),
            bridge.wf(),
            obs_views(out@) + spec_processed_transactions(
                txs@.skip(i as int),
                *config,
                bridge.last_reference_price_in_stable,
            ).0 == spec_processed_transactions(txs@, *config, b0).0,
            spec_processed_transactions(
                txs@.skip(i as int),
                *config,
                bridge.last_reference_price_in_stable,
            ).1 == spec_processed_transactions(txs@, *config, b0).1,
        decreases txs@.len() - i,
    {
        let ghost pending = txs@.skip(i as int);
        let ghost b_here = bridge.last_reference_price_in_stable;
        proof {
            assert(pending[0] == txs@[i as int]);
            assert(pending.drop_first() =~= txs@.skip(i + 1));
        }
        let tx = &txs[i];
        let included = match &tx.status {
            Some(st) => st.success,
            None => false,
        };
        if included {
            let ghost out_before = out@;
            let mut part = resolve_trades(&tx.trades, config, bridge);
            let ghost part_view = part@;
            out.append(&mut part);
            proof {
                assert(obs_views(out@) =~= obs_views(out_before) + obs_views(part_view));
                assert(obs_views(out_before) + (obs_views(part_view)
                    + spec_processed_transactions(
                    txs@.skip(i + 1),
                    *config,
                    bridge.last_reference_price_in_stable,
                ).0) =~= obs_views(out@) + spec_processed_transactions(
                    txs@.skip(i + 1),
                    *config,
                    bridge.last_reference_price_in_stable,
                ).0);
            }
        } else {
            proof {
                assert(Seq::<(Seq<char>, Rational)>::empty() + spec_processed_transactions(
                    txs@.skip(i + 1),
                    *config,
                    bridge.last_reference_price_in_stable,
                ).0 =~= spec_processed_transactions(
                    txs@.skip(i + 1),
                    *config,
                    bridge.last_reference_price_in_stable,
                ).0);
            }
        }
        i += 1;
    }
    proof {
        assert(txs@.skip(txs@.len() as int) =~= Seq::<Transaction>::empty());
        assert(obs_views(out@) + Seq::<(Seq<char>, Rational)>::empty() =~= obs_views(out@));
    }
    out
}

/// The loop's states: idle between rounds, waiting on a bounded receive,
/// processing a received message, committing its position.
#[derive(Clone, Copy, PartialEq, Eq, Structural, Debug)]
pub enum StreamState {
    Idle,
    Waiting,
    Processing,
    Committing,
}

/// What the surrounding consumer must do next. Reports are informational:
/// a timeout and a receive failure are not fatal, and a malformed payload is
/// reported and still committed, as received messages always are.
#[derive(Clone, Copy, PartialEq, Eq, Structural, Debug)]
pub enum StreamAction {
    IssueReceive,
    DecodePayload,
    CommitMessage,
    ReportMalformedThenCommit,
    ReportIdle,
    ReportReceiveError,
    Hold,
}

/// What the surrounding consumer observed: the outcome of the bounded
/// receive, then the outcome of decoding the payload, then the commit.
#[derive(Clone, PartialEq, Eq, Debug)]
pub enum StreamEvent {
    PollRequested,
    MessageArrived,
    ReceiveTimedOut,
    ReceiveFailed,
    PayloadDecoded(BatchMessage),
    PayloadMalformed,
    PayloadMissing,
    CommitIssued,
}

/// The loop's transition relation: next state, next action, observations
/// emitted, and bridge state after the step. A state-event pair outside the
/// protocol changes nothing and asks for nothing.
pub open spec fn spec_step(
    state: StreamState,
    event: StreamEvent,
    config: PricingConfig,
    bridge: Option<Rational>,
) -> (StreamState, StreamAction, Seq<(Seq<char>, Rational)>, Option<Rational>) {
    match (state, event) {
        (StreamState::Idle, StreamEvent::PollRequested) => (
            StreamState::Waiting,
            StreamAction::IssueReceive,
            Seq::empty(),
            bridge,
        ),
        (StreamState::Waiting, StreamEvent::MessageArrived) => (
            StreamState::Processing,
            StreamAction::DecodePayload,
            Seq::empty(),
            bridge,
        ),
        (StreamState::Waiting, StreamEvent::ReceiveTimedOut) => (
            StreamState::Idle,
            StreamAction::ReportIdle,
            Seq::empty(),
            bridge,
        ),
        (StreamState::Waiting, StreamEvent::ReceiveFailed) => (
            StreamState::Idle,
            StreamAction::ReportReceiveError,
            Seq::empty(),
            bridge,
        ),
        (StreamState::Processing, StreamEvent::PayloadDecoded(batch)) => {
            let (obs, out_bridge) = spec_processed_transactions(
                batch.transactions@,
                config,
                bridge,
            );
            (StreamState::Committing, StreamAction::CommitMessage, obs, out_bridge)
        },
        (StreamState::Processing, StreamEvent::PayloadMalformed) => (
            StreamState::Committing,
            StreamAction::ReportMalformedThenCommit,
            Seq::empty(),
            bridge,
        ),
        (StreamState::Processing, StreamEvent::PayloadMissing) => (
            StreamState::Committing,
            StreamAction::CommitMessage,
            Seq::empty(),
            bridge,
        ),
        (StreamState::Committing, StreamEvent::CommitIssued) => (
            StreamState::Idle,
            StreamAction::Hold,
            Seq::empty(),
            bridge,
        ),
        _ => (state, StreamAction::Hold, Seq::empty(), bridge),
    }
}

/// Drives the loop one step: feeds a decoded batch through the resolver,
/// threads the bridge state, and tells the consumer what to do next.
pub fn step(
    state: StreamState,
    event: StreamEvent,
    config: &PricingConfig,
    bridge: &mut BridgeState,
) -> (result: (StreamState, StreamAction, Vec<PriceObservation>))
    requires
        old(bridge).wf(),
    ensures
        final(bridge).wf(),
        ({
            let (next, action, obs, out_bridge) = spec_step(
                state,
                event,
                *config,
                old(bridge).last_reference_price_in_stable,
            );
            &&& result.0 == next
            &&& result.1 == action
            &&& obs_views(result.2@) == obs
            &&& final(bridge).last_reference_price_in_stable == out_bridge
        }),
{
    proof {
        assert(obs_views(Seq::<PriceObservation>::empty()) =~= Seq::<(Seq<char>, Rational)>::empty());
    }
    match (state, event) {
        (StreamState::Idle, StreamEvent::PollRequested) => (
            StreamState::Waiting,
            StreamAction::IssueReceive,
            Vec::new(),
        ),
        (StreamState::Waiting, StreamEvent::MessageArrived) => (
            StreamState::Processing,
            StreamAction::DecodePayload,
            Vec::new(),
        ),
        (StreamState::Waiting, StreamEvent::ReceiveTimedOut) => (
            StreamState::Idle,
            StreamAction::ReportIdle,
            Vec::new(),
        ),
        (StreamState::Waiting, StreamEvent::ReceiveFailed) => (
            StreamState::Idle,
            StreamAction::ReportReceiveError,
            Vec::new(),
        ),
        (StreamState::Processing, StreamEvent::PayloadDecoded(batch)) => {
            let obs = process_batch(&batch, config, bridge);
            (StreamState::Committing, StreamAction::CommitMessage, obs)
        },
        (StreamState::Processing, StreamEvent::PayloadMalformed) => (
            StreamState::Committing,
            StreamAction::ReportMalformedThenCommit,
            Vec::new(),
        ),
        (StreamState::Processing, StreamEvent::PayloadMissing) => (
            StreamState::Committing,
            StreamAction::CommitMessage,
            Vec::new(),
        ),
        (StreamState::Committing, StreamEvent::CommitIssued) => (
            StreamState::Idle,
            StreamAction::Hold,
            Vec::new(),
        ),
        (st, _) => (st, StreamAction::Hold, Vec::new()),
    }
}

} // verus!
