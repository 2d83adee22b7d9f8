use bitcoincore_rpc::bitcoin::absolute::LockTime;
use bitcoincore_rpc::bitcoin::psbt::Psbt;
use bitcoincore_rpc::bitcoin::transaction::Version;
use bitcoincore_rpc::bitcoin::Amount;
use bitcoincore_rpc::bitcoin::OutPoint;
use bitcoincore_rpc::bitcoin::ScriptBuf;
use bitcoincore_rpc::bitcoin::Sequence;
use bitcoincore_rpc::bitcoin::Transaction;
use bitcoincore_rpc::bitcoin::TxIn;
use bitcoincore_rpc::bitcoin::TxOut;
use bitcoincore_rpc::bitcoin::Witness;
use btc_outbound::barrier::Phase;
use btc_outbound::chains::ChainInfo;
use btc_outbound::chains::ManagedChains;
use btc_outbound::chains::RoundSource;
use btc_outbound::events::copy_bytes;
use btc_outbound::events::Address;
use btc_outbound::events::EventMessage;
use btc_outbound::events::LedgerEvent;
use btc_outbound::events::RoundNumber;
use btc_outbound::protocol::Action;
use btc_outbound::handler::BtcOutboundHandler;
use btc_outbound::protocol::Event;
use btc_outbound::protocol::FatalError;
use btc_outbound::protocol::Stage;
use btc_outbound::window::BootstrapConfig;

const CALL_INTERVAL: u64 = 250;

fn relayer() -> Address {
    Address { bytes: [7; 20] }
}

fn round(number: u64) -> RoundNumber {
    RoundNumber { limbs: [number, 0, 0, 0] }
}

/// A settlement transaction that pays `sats`, undecoded and decoded.
fn artifact(sats: u64) -> (Vec<u8>, Psbt) {
    let tx = Transaction {
        version: Version::TWO,
        lock_time: LockTime::ZERO,
        input: vec![TxIn {
            previous_output: OutPoint::null(),
            script_sig: ScriptBuf::new(),
            sequence: Sequence::MAX,
            witness: Witness::new(),
        }],
        output: vec![TxOut { value: Amount::from_sat(sats), script_pubkey: ScriptBuf::new() }],
    };
    let psbt = Psbt::from_unsigned_tx(tx).unwrap();
    (psbt.serialize(), psbt)
}

fn submitted(blob: &Vec<u8>) -> LedgerEvent {
    LedgerEvent::UnsignedPsbtSubmitted { psbt: blob.clone() }
}

fn live_handler() -> BtcOutboundHandler {
    let mut handler =
        BtcOutboundHandler::new(relayer(), false, CALL_INTERVAL, None, ManagedChains::new());
    assert_eq!(handler.step(Event::Phase(Phase::Streaming)), Action::AwaitBatch);
    handler
}

/// Answers the two registry questions for the event in hand.
fn answer_selection(handler: &mut BtcOutboundHandler, number: u64, selected: bool) -> Action {
    assert_eq!(
        handler.step(Event::LatestRound(round(number))),
        Action::QueryRelayerSelection { round: round(number), relayer: relayer(), is_initial: false }
    );
    handler.step(Event::RelayerSelection(selected))
}

#[test]
fn new_handler_waits_for_the_phase() {
    let handler =
        BtcOutboundHandler::new(relayer(), false, CALL_INTERVAL, None, ManagedChains::new());
    assert_eq!(*handler.stage(), Stage::Polling);
    assert_eq!(handler.halted(), None);
    assert!(!handler.has_replayed());
    assert!(handler.is_selected_socket());
}

#[test]
fn batch_is_processed_in_ledger_order() {
    let (first_blob, first) = artifact(1000);
    let (third_blob, third) = artifact(3000);
    let mut handler = live_handler();
    let batch = EventMessage::new(
        12,
        vec![submitted(&first_blob), LedgerEvent::Other, submitted(&third_blob)],
    );
    assert_eq!(
        handler.step(Event::Batch(batch)),
        Action::QueryLatestRound { announce: true, blob: first_blob.clone() }
    );
    assert_eq!(
        answer_selection(&mut handler, 5, true),
        Action::Submit { from: relayer(), artifact: first }
    );
    assert_eq!(*handler.stage(), Stage::Submitting);
    assert_eq!(
        handler.step(Event::Submitted(true)),
        Action::QueryLatestRound { announce: true, blob: third_blob.clone() }
    );
    assert_eq!(
        answer_selection(&mut handler, 5, true),
        Action::Submit { from: relayer(), artifact: third }
    );
    assert_eq!(handler.step(Event::Submitted(true)), Action::ReadPhase);
    assert_eq!(*handler.stage(), Stage::Polling);
}

#[test]
fn decoded_artifact_is_the_transaction_of_the_blob() {
    let (blob, psbt) = artifact(4242);
    let (other_blob, other) = artifact(1);
    assert_ne!(psbt, other);
    let mut handler = live_handler();
    handler.step(Event::Batch(EventMessage::new(1, vec![submitted(&blob)])));
    match answer_selection(&mut handler, 1, true) {
        Action::Submit { from, artifact } => {
            assert_eq!(from, relayer());
            assert_eq!(artifact, psbt);
            assert_eq!(artifact.serialize(), blob);
            assert_ne!(artifact.serialize(), other_blob);
            assert_eq!(artifact.unsigned_tx.output[0].value, Amount::from_sat(4242));
        },
        other => panic!("unexpected action {:?}", other),
    }
}

#[test]
fn malformed_artifact_is_reported_and_the_next_one_submitted() {
    let malformed: Vec<u8> = vec![0x70, 0x73, 0x62, 0x74, 0x00, 0x01];
    let (good_blob, good) = artifact(2000);
    let mut handler = live_handler();
    let batch = EventMessage::new(3, vec![submitted(&malformed), submitted(&good_blob)]);
    match handler.step(Event::Batch(batch)) {
        Action::ReportDecodeFailure { blob, reason } => {
            assert_eq!(blob, malformed);
            assert_eq!(reason, Psbt::deserialize(&malformed).unwrap_err().to_string());
            assert!(!reason.is_empty());
        },
        other => panic!("unexpected action {:?}", other),
    }
    assert_eq!(*handler.stage(), Stage::Reporting);
    assert_eq!(handler.halted(), None);
    assert_eq!(
        handler.step(Event::Reported),
        Action::QueryLatestRound { announce: true, blob: good_blob.clone() }
    );
    assert_eq!(
        answer_selection(&mut handler, 9, true),
        Action::Submit { from: relayer(), artifact: good }
    );
    assert_eq!(handler.step(Event::Submitted(true)), Action::ReadPhase);
}

#[test]
fn empty_blob_is_reported() {
    let mut handler = live_handler();
    let batch = EventMessage::new(3, vec![submitted(&vec![])]);
    match handler.step(Event::Batch(batch)) {
        Action::ReportDecodeFailure { blob, .. } => assert!(blob.is_empty()),
        other => panic!("unexpected action {:?}", other),
    }
    assert_eq!(handler.step(Event::Reported), Action::ReadPhase);
}

#[test]
fn unselected_relayer_never_submits() {
    let (first_blob, _) = artifact(1000);
    let (second_blob, _) = artifact(2000);
    let mut handler = live_handler();
    let batch = EventMessage::new(8, vec![submitted(&first_blob), submitted(&second_blob)]);
    assert_eq!(
        handler.step(Event::Batch(batch)),
        Action::QueryLatestRound { announce: true, blob: first_blob.clone() }
    );
    assert_eq!(
        answer_selection(&mut handler, 2, false),
        Action::QueryLatestRound { announce: true, blob: second_blob.clone() }
    );
    assert_eq!(answer_selection(&mut handler, 2, false), Action::ReadPhase);
    assert_eq!(*handler.stage(), Stage::Polling);
}

#[test]
fn other_events_are_passed_over_in_silence() {
    let mut handler = live_handler();
    let batch = EventMessage::new(8, vec![LedgerEvent::Other, LedgerEvent::Other]);
    assert_eq!(handler.step(Event::Batch(batch)), Action::ReadPhase);
    assert_eq!(handler.step(Event::Phase(Phase::Streaming)), Action::AwaitBatch);
    assert_eq!(handler.step(Event::Batch(EventMessage::new(9, vec![]))), Action::ReadPhase);
}

#[test]
fn handler_without_window_reports_completion_once() {
    let chains =
        ManagedChains::from_entries(vec![ChainInfo { id: 1, is_native: false }]).unwrap();
    let mut handler = BtcOutboundHandler::new(relayer(), false, CALL_INTERVAL, None, chains);
    assert_eq!(handler.step(Event::Phase(Phase::CatchUp)), Action::SignalCompletion);
    assert!(handler.has_replayed());
    assert_eq!(*handler.stage(), Stage::Signalling);
    assert_eq!(
        handler.step(Event::CompletionRecorded),
        Action::Pause { millis: CALL_INTERVAL }
    );
    for _ in 0..4 {
        assert_eq!(handler.step(Event::Resumed), Action::ReadPhase);
        assert_eq!(
            handler.step(Event::Phase(Phase::CatchUp)),
            Action::Pause { millis: CALL_INTERVAL }
        );
    }
    assert_eq!(handler.step(Event::Resumed), Action::ReadPhase);
    assert_eq!(handler.step(Event::Phase(Phase::Streaming)), Action::AwaitBatch);
}

#[test]
fn replay_runs_through_the_window() {
    let (blob, psbt) = artifact(500);
    let config = BootstrapConfig { round_offset: Some(2) };
    let mut handler =
        BtcOutboundHandler::new(relayer(), true, CALL_INTERVAL, Some(config), ManagedChains::new());
    assert_eq!(
        handler.step(Event::Phase(Phase::CatchUp)),
        Action::ResolveOffsetHeight { source: RoundSource::Local, round_offset: 2 }
    );
    assert_eq!(handler.step(Event::OffsetHeight(300)), Action::FetchLatestBlock);
    assert_eq!(*handler.stage(), Stage::FetchingLatestBlock { offset_height: 300 });
    assert_eq!(
        handler.step(Event::LatestBlock(1000)),
        Action::QueryHistory { from_block: 700, to_block: 1000 }
    );
    let history = vec![LedgerEvent::Other, submitted(&blob)];
    assert_eq!(
        handler.step(Event::History(history)),
        Action::QueryLatestRound { announce: false, blob: blob.clone() }
    );
    assert!(!handler.has_replayed());
    assert_eq!(
        answer_selection(&mut handler, 4, true),
        Action::Submit { from: relayer(), artifact: psbt }
    );
    assert_eq!(handler.step(Event::Submitted(true)), Action::SignalCompletion);
    assert!(handler.has_replayed());
    assert_eq!(
        handler.step(Event::CompletionRecorded),
        Action::Pause { millis: CALL_INTERVAL }
    );
    assert_eq!(handler.step(Event::Resumed), Action::ReadPhase);
    assert_eq!(
        handler.step(Event::Phase(Phase::CatchUp)),
        Action::Pause { millis: CALL_INTERVAL }
    );
}

#[test]
fn replay_window_is_clamped_at_block_zero() {
    let config = BootstrapConfig { round_offset: None };
    let mut handler =
        BtcOutboundHandler::new(relayer(), true, CALL_INTERVAL, Some(config), ManagedChains::new());
    assert_eq!(
        handler.step(Event::Phase(Phase::CatchUp)),
        Action::ResolveOffsetHeight { source: RoundSource::Local, round_offset: 3 }
    );
    assert_eq!(handler.step(Event::OffsetHeight(1500)), Action::FetchLatestBlock);
    assert_eq!(
        handler.step(Event::LatestBlock(1000)),
        Action::QueryHistory { from_block: 0, to_block: 1000 }
    );
    assert_eq!(handler.step(Event::History(vec![])), Action::SignalCompletion);
}

#[test]
fn replay_reads_the_clock_of_the_native_managed_chain() {
    let chains = ManagedChains::from_entries(vec![
        ChainInfo { id: 1, is_native: false },
        ChainInfo { id: 49, is_native: true },
    ])
    .unwrap();
    let config = BootstrapConfig { round_offset: Some(1) };
    let mut handler =
        BtcOutboundHandler::new(relayer(), false, CALL_INTERVAL, Some(config), chains);
    assert_eq!(
        handler.step(Event::Phase(Phase::CatchUp)),
        Action::ResolveOffsetHeight { source: RoundSource::Managed(49), round_offset: 1 }
    );
}

#[test]
fn replay_without_a_native_chain_is_fatal() {
    let chains =
        ManagedChains::from_entries(vec![ChainInfo { id: 1, is_native: false }]).unwrap();
    let config = BootstrapConfig { round_offset: None };
    let mut handler =
        BtcOutboundHandler::new(relayer(), false, CALL_INTERVAL, Some(config), chains);
    assert_eq!(
        handler.step(Event::Phase(Phase::CatchUp)),
        Action::Halt(FatalError::InvalidNativeness)
    );
    assert_eq!(handler.halted(), Some(FatalError::InvalidNativeness));
    assert!(!handler.has_replayed());
    assert_eq!(
        handler.step(Event::Phase(Phase::Streaming)),
        Action::Halt(FatalError::InvalidNativeness)
    );
}

#[test]
fn malformed_artifact_in_the_replay_is_reported() {
    let malformed: Vec<u8> = vec![1, 2, 3];
    let config = BootstrapConfig { round_offset: None };
    let mut handler =
        BtcOutboundHandler::new(relayer(), true, CALL_INTERVAL, Some(config), ManagedChains::new());
    handler.step(Event::Phase(Phase::CatchUp));
    handler.step(Event::OffsetHeight(10));
    handler.step(Event::LatestBlock(100));
    match handler.step(Event::History(vec![submitted(&malformed)])) {
        Action::ReportDecodeFailure { blob, .. } => assert_eq!(blob, malformed),
        other => panic!("unexpected action {:?}", other),
    }
    assert_eq!(handler.step(Event::Reported), Action::SignalCompletion);
}

#[test]
fn closed_stream_is_fatal() {
    let mut handler = live_handler();
    assert_eq!(handler.step(Event::StreamClosed), Action::Halt(FatalError::StreamClosed));
    assert_eq!(*handler.stage(), Stage::Halted(FatalError::StreamClosed));
    assert_eq!(handler.step(Event::Resumed), Action::Halt(FatalError::StreamClosed));
}

#[test]
fn failed_submission_is_fatal() {
    let (blob, _) = artifact(1000);
    let (later_blob, _) = artifact(2000);
    let mut handler = live_handler();
    handler.step(Event::Batch(EventMessage::new(
        1,
        vec![submitted(&blob), submitted(&later_blob)],
    )));
    answer_selection(&mut handler, 1, true);
    assert_eq!(
        handler.step(Event::Submitted(false)),
        Action::Halt(FatalError::SubmissionFailed)
    );
    assert_eq!(handler.halted(), Some(FatalError::SubmissionFailed));
    assert_eq!(handler.step(Event::Reported), Action::Halt(FatalError::SubmissionFailed));
}

#[test]
fn reply_to_nothing_asked_is_fatal() {
    let mut handler =
        BtcOutboundHandler::new(relayer(), false, CALL_INTERVAL, None, ManagedChains::new());
    assert_eq!(handler.step(Event::Submitted(true)), Action::Halt(FatalError::UnexpectedReply));
    assert_eq!(handler.halted(), Some(FatalError::UnexpectedReply));
    let mut waiting = live_handler();
    assert_eq!(
        waiting.step(Event::Phase(Phase::Streaming)),
        Action::Halt(FatalError::UnexpectedReply)
    );
}

#[test]
fn standby_phase_is_polled_again() {
    let mut handler =
        BtcOutboundHandler::new(relayer(), false, CALL_INTERVAL, None, ManagedChains::new());
    assert_eq!(handler.step(Event::Phase(Phase::Standby)), Action::ReadPhase);
    assert_eq!(*handler.stage(), Stage::Polling);
    assert!(!handler.has_replayed());
    assert_eq!(handler.step(Event::Phase(Phase::Standby)), Action::ReadPhase);
}

#[test]
fn blob_of_an_event_is_copied() {
    let (blob, _) = artifact(10);
    assert_eq!(submitted(&blob).submitted_blob(), Some(blob.clone()));
    assert_eq!(LedgerEvent::Other.submitted_blob(), None);
    assert_eq!(copy_bytes(&blob), blob);
    assert_eq!(copy_bytes(&vec![]), Vec::<u8>::new());
}

#[test]
fn batch_keeps_block_and_events() {
    let message = EventMessage::new(77, vec![LedgerEvent::Other]);
    assert_eq!(message.block_number, 77);
    assert_eq!(message.events, vec![LedgerEvent::Other]);
}
