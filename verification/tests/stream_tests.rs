use dexprice::model::{BridgeState, CurrencyDescriptor, PricingConfig, RawTrade, RawTradeLeg, Trade};
use dexprice::rational::Rational;
use dexprice::stream::{
    process_batch, step, BatchMessage, StreamAction, StreamEvent, StreamState, Transaction,
    TransactionStatus,
};

fn cfg() -> PricingConfig {
    PricingConfig {
        stable_symbol: "USDC".to_string(),
        reference_symbol: "SOL".to_string(),
    }
}

fn raw_leg(symbol: &str, decimals: u32, amount: u64) -> Option<RawTradeLeg> {
    Some(RawTradeLeg {
        amount,
        currency: Some(CurrencyDescriptor { symbol: symbol.to_string(), decimals }),
    })
}

fn raw_trade(buy: Option<RawTradeLeg>, sell: Option<RawTradeLeg>) -> RawTrade {
    RawTrade { buy, sell }
}

fn whole(n: u64) -> Rational {
    Rational::new(n, 1, 0, 0)
}

#[test]
fn trade_with_missing_currency_is_skipped() {
    let raw = raw_trade(
        Some(RawTradeLeg { amount: 1_000, currency: None }),
        raw_leg("USDC", 6, 1_000_000),
    );
    let t = Trade::from_raw(&raw);
    assert!(t.buy.is_none());
    assert!(t.sell.is_some());
    let mut bridge = BridgeState::new();
    assert!(dexprice::resolver::resolve(&t, &cfg(), &mut bridge).is_none());
}

#[test]
fn batch_prices_only_successful_transactions() {
    // Three transactions: a successful one that sets the bridge and then
    // prices a bridged trade, a failed one, and one without a status.
    let priced = Transaction {
        status: Some(TransactionStatus { success: true }),
        trades: vec![
            raw_trade(raw_leg("SOL", 9, 2_000_000_000), raw_leg("USDC", 6, 100_000_000)),
            raw_trade(raw_leg("SOL", 9, 5_000_000_000), raw_leg("FOO", 6, 10_000_000)),
        ],
    };
    let failed = Transaction {
        status: Some(TransactionStatus { success: false }),
        trades: vec![raw_trade(raw_leg("BAR", 2, 100), raw_leg("USDC", 6, 99_000_000))],
    };
    let unset = Transaction {
        status: None,
        trades: vec![raw_trade(raw_leg("BAZ", 2, 100), raw_leg("USDC", 6, 42_000_000))],
    };
    let batch = BatchMessage { transactions: vec![priced, failed, unset] };
    let mut bridge = BridgeState::new();
    let out = process_batch(&batch, &cfg(), &mut bridge);
    assert_eq!(out.len(), 2);
    assert_eq!(out[0].token, "SOL");
    assert!(out[0].price.same_value_as(&whole(50)));
    assert_eq!(out[1].token, "FOO");
    assert!(out[1].price.same_value_as(&whole(25)));
    let rate = bridge.last_reference_price_in_stable.expect("bridge must be set by the pair");
    assert!(rate.same_value_as(&whole(50)));
}

#[test]
fn bridge_state_carries_across_batches() {
    let first = BatchMessage {
        transactions: vec![Transaction {
            status: Some(TransactionStatus { success: true }),
            trades: vec![raw_trade(
                raw_leg("USDC", 6, 100_000_000),
                raw_leg("SOL", 9, 2_000_000_000),
            )],
        }],
    };
    let second = BatchMessage {
        transactions: vec![Transaction {
            status: Some(TransactionStatus { success: true }),
            trades: vec![raw_trade(raw_leg("FOO", 6, 10_000_000), raw_leg("SOL", 9, 5_000_000_000))],
        }],
    };
    let mut bridge = BridgeState::new();
    let out1 = process_batch(&first, &cfg(), &mut bridge);
    assert_eq!(out1.len(), 1);
    assert_eq!(out1[0].token, "SOL");
    let out2 = process_batch(&second, &cfg(), &mut bridge);
    assert_eq!(out2.len(), 1);
    assert_eq!(out2[0].token, "FOO");
    assert!(out2[0].price.same_value_as(&whole(25)));
}

#[test]
fn successful_transaction_without_trades_yields_nothing() {
    let batch = BatchMessage {
        transactions: vec![Transaction {
            status: Some(TransactionStatus { success: true }),
            trades: vec![],
        }],
    };
    let mut bridge = BridgeState::new();
    let out = process_batch(&batch, &cfg(), &mut bridge);
    assert!(out.is_empty());
    assert!(bridge.last_reference_price_in_stable.is_none());
}

#[test]
fn empty_batch_yields_nothing() {
    let batch = BatchMessage { transactions: vec![] };
    let mut bridge = BridgeState::new();
    let out = process_batch(&batch, &cfg(), &mut bridge);
    assert!(out.is_empty());
    assert!(bridge.last_reference_price_in_stable.is_none());
}

#[test]
fn step_walks_the_receive_decode_commit_round() {
    let mut bridge = BridgeState::new();
    let (st, action, obs) = step(StreamState::Idle, StreamEvent::PollRequested, &cfg(), &mut bridge);
    assert_eq!(st, StreamState::Waiting);
    assert_eq!(action, StreamAction::IssueReceive);
    assert!(obs.is_empty());

    let (st, action, obs) = step(st, StreamEvent::MessageArrived, &cfg(), &mut bridge);
    assert_eq!(st, StreamState::Processing);
    assert_eq!(action, StreamAction::DecodePayload);
    assert!(obs.is_empty());

    let batch = BatchMessage {
        transactions: vec![Transaction {
            status: Some(TransactionStatus { success: true }),
            trades: vec![raw_trade(
                raw_leg("SOL", 9, 2_000_000_000),
                raw_leg("USDC", 6, 100_000_000),
            )],
        }],
    };
    let (st, action, obs) = step(st, StreamEvent::PayloadDecoded(batch), &cfg(), &mut bridge);
    assert_eq!(st, StreamState::Committing);
    assert_eq!(action, StreamAction::CommitMessage);
    assert_eq!(obs.len(), 1);
    assert_eq!(obs[0].token, "SOL");
    assert!(bridge.last_reference_price_in_stable.is_some());

    let (st, action, obs) = step(st, StreamEvent::CommitIssued, &cfg(), &mut bridge);
    assert_eq!(st, StreamState::Idle);
    assert_eq!(action, StreamAction::Hold);
    assert!(obs.is_empty());
}

#[test]
fn step_timeout_and_failure_return_to_idle() {
    let mut bridge = BridgeState::new();
    let (st, action, _) = step(StreamState::Waiting, StreamEvent::ReceiveTimedOut, &cfg(), &mut bridge);
    assert_eq!(st, StreamState::Idle);
    assert_eq!(action, StreamAction::ReportIdle);
    let (st, action, _) = step(StreamState::Waiting, StreamEvent::ReceiveFailed, &cfg(), &mut bridge);
    assert_eq!(st, StreamState::Idle);
    assert_eq!(action, StreamAction::ReportReceiveError);
}

#[test]
fn step_commits_malformed_and_missing_payloads() {
    let mut bridge = BridgeState::new();
    let (st, action, obs) =
        step(StreamState::Processing, StreamEvent::PayloadMalformed, &cfg(), &mut bridge);
    assert_eq!(st, StreamState::Committing);
    assert_eq!(action, StreamAction::ReportMalformedThenCommit);
    assert!(obs.is_empty());
    let (st, action, obs) =
        step(StreamState::Processing, StreamEvent::PayloadMissing, &cfg(), &mut bridge);
    assert_eq!(st, StreamState::Committing);
    assert_eq!(action, StreamAction::CommitMessage);
    assert!(obs.is_empty());
}

#[test]
fn step_ignores_out_of_protocol_events() {
    let mut bridge = BridgeState::new();
    let (st, action, obs) = step(StreamState::Idle, StreamEvent::MessageArrived, &cfg(), &mut bridge);
    assert_eq!(st, StreamState::Idle);
    assert_eq!(action, StreamAction::Hold);
    assert!(obs.is_empty());
    let (st, action, _) = step(StreamState::Committing, StreamEvent::ReceiveTimedOut, &cfg(), &mut bridge);
    assert_eq!(st, StreamState::Committing);
    assert_eq!(action, StreamAction::Hold);
    assert!(bridge.last_reference_price_in_stable.is_none());
}
