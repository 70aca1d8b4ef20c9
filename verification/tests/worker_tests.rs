use beacon_sync::objects::{BeaconBlock, Root, SignedBeaconBlock};
use beacon_sync::worker::{
    classify_segment_outcome, BatchFault, BatchId, BatchProcessResult, BeginAction, BlockError,
    ImportAnomaly, PeerId, ProcessId, ReportOutcome, SyncMessage, Worker, WorkerPhase,
};

fn block_at_slot(slot: u64) -> SignedBeaconBlock {
    SignedBeaconBlock {
        message: BeaconBlock { slot, parent_root: Root(slot), state_root: Root(slot + 100) },
        signature: slot,
    }
}

fn channel() -> (
    tokio::sync::mpsc::UnboundedSender<SyncMessage>,
    tokio::sync::mpsc::UnboundedReceiver<SyncMessage>,
) {
    tokio::sync::mpsc::unbounded_channel()
}

#[test]
fn batch_success_with_empty_import_skips_fork_choice() {
    let (tx, mut rx) = channel();
    let blocks = vec![block_at_slot(1), block_at_slot(2)];
    let mut w = Worker::new(ProcessId::RangeBatchId(BatchId(7)), blocks.clone());
    match w.begin(true) {
        BeginAction::Import(ordered) => assert_eq!(ordered, blocks),
        BeginAction::Halt => panic!("a live chain must lead to an import"),
    }
    // Every block was already known: the import returns no new roots.
    let d = w.on_segment_outcome(Ok(vec![]));
    assert!(!d.run_fork_choice);
    assert!(d.fault.is_none());
    assert_eq!(w.phase, WorkerPhase::Reporting { failed: false });
    let r = w.report(&tx);
    assert!(r.attempted && r.delivered);
    assert_eq!(
        rx.try_recv().expect("a range batch always reports"),
        SyncMessage::BatchProcessed {
            batch_id: BatchId(7),
            downloaded_blocks: blocks,
            result: BatchProcessResult::Success,
        }
    );
}

#[test]
fn batch_success_with_new_blocks_runs_fork_choice_once() {
    let (tx, mut rx) = channel();
    let blocks = vec![block_at_slot(3)];
    let mut w = Worker::new(ProcessId::RangeBatchId(BatchId(8)), blocks.clone());
    w.begin(true);
    let d = w.on_segment_outcome(Ok(vec![Root(55)]));
    assert!(d.run_fork_choice);
    // The state machine holds the report back until fork choice has run.
    assert_eq!(w.phase, WorkerPhase::ForkChoice { failed: false });
    w.fork_choice_done(true);
    assert_eq!(w.phase, WorkerPhase::Reporting { failed: false });
    let r = w.report(&tx);
    assert!(r.attempted && r.delivered);
    assert_eq!(
        rx.try_recv().unwrap(),
        SyncMessage::BatchProcessed {
            batch_id: BatchId(8),
            downloaded_blocks: blocks,
            result: BatchProcessResult::Success,
        }
    );
}

#[test]
fn fork_choice_failure_is_swallowed() {
    let (tx, mut rx) = channel();
    let blocks = vec![block_at_slot(4)];
    let mut w = Worker::new(ProcessId::RangeBatchId(BatchId(9)), blocks.clone());
    w.begin(true);
    let d = w.on_segment_outcome(Ok(vec![Root(56)]));
    assert!(d.run_fork_choice);
    // Fork choice failed; the committed import stands, so the batch is
    // still reported successful.
    w.fork_choice_done(false);
    w.report(&tx);
    assert_eq!(
        rx.try_recv().unwrap(),
        SyncMessage::BatchProcessed {
            batch_id: BatchId(9),
            downloaded_blocks: blocks,
            result: BatchProcessResult::Success,
        }
    );
}

#[test]
fn parent_lookup_blocks_are_reversed_for_import() {
    let newest_first = vec![block_at_slot(10), block_at_slot(9), block_at_slot(8)];
    let mut w = Worker::new(ProcessId::ParentLookup(PeerId(1)), newest_first);
    match w.begin(true) {
        BeginAction::Import(ordered) => {
            let slots: Vec<u64> = ordered.iter().map(|b| b.message.slot).collect();
            assert_eq!(slots, vec![8, 9, 10]);
        }
        BeginAction::Halt => panic!("a live chain must lead to an import"),
    }
}

#[test]
fn range_batch_keeps_received_order_for_import() {
    let ascending = vec![block_at_slot(5), block_at_slot(6), block_at_slot(7)];
    let mut w = Worker::new(ProcessId::RangeBatchId(BatchId(2)), ascending.clone());
    match w.begin(true) {
        BeginAction::Import(ordered) => assert_eq!(ordered, ascending),
        BeginAction::Halt => panic!("a live chain must lead to an import"),
    }
}

#[test]
fn dangling_chain_handle_halts_without_report() {
    let (_tx, mut rx) = channel();
    let mut w = Worker::new(ProcessId::RangeBatchId(BatchId(3)), vec![block_at_slot(1)]);
    let action = w.begin(false);
    assert_eq!(action, BeginAction::Halt);
    assert_eq!(w.phase, WorkerPhase::Done);
    assert!(rx.try_recv().is_err());
}

#[test]
fn closed_channel_does_not_block_or_crash() {
    let (tx, rx) = channel();
    drop(rx);
    let blocks = vec![block_at_slot(1)];
    let mut w = Worker::new(ProcessId::RangeBatchId(BatchId(4)), blocks);
    w.begin(true);
    w.on_segment_outcome(Ok(vec![]));
    let r = w.report(&tx);
    // The message was due and attempted; the closed channel swallowed it.
    assert_eq!(r, ReportOutcome { attempted: true, delivered: false });
    assert_eq!(w.phase, WorkerPhase::Done);
}

#[test]
fn failed_parent_lookup_names_the_peer() {
    let (tx, mut rx) = channel();
    let mut w = Worker::new(ProcessId::ParentLookup(PeerId(77)), vec![block_at_slot(2)]);
    w.begin(true);
    let d = w.on_segment_outcome(Err(BlockError::ParentUnknown(Root(123))));
    assert_eq!(d.fault, Some(BatchFault::UnknownParent(Root(123))));
    let r = w.report(&tx);
    assert!(r.attempted);
    assert_eq!(rx.try_recv().unwrap(), SyncMessage::ParentLookupFailed(PeerId(77)));
}

#[test]
fn successful_parent_lookup_reports_nothing() {
    let (tx, mut rx) = channel();
    let mut w = Worker::new(ProcessId::ParentLookup(PeerId(78)), vec![block_at_slot(2)]);
    w.begin(true);
    // Even with a new root integrated, a parent lookup never triggers fork
    // choice in the same call stack; re-triggering is the embedder's call.
    let d = w.on_segment_outcome(Ok(vec![Root(9)]));
    assert!(d.run_fork_choice);
    assert_eq!(w.phase, WorkerPhase::Reporting { failed: false });
    let r = w.report(&tx);
    assert!(!r.attempted && !r.delivered);
    assert!(rx.try_recv().is_err());
}

#[test]
fn failed_range_batch_reports_failure() {
    let (tx, mut rx) = channel();
    let blocks = vec![block_at_slot(5)];
    let mut w = Worker::new(ProcessId::RangeBatchId(BatchId(11)), blocks.clone());
    w.begin(true);
    let d = w.on_segment_outcome(Err(BlockError::InvalidBlock(String::from("bad signature"))));
    assert_eq!(d.fault, Some(BatchFault::InvalidBlock(String::from("bad signature"))));
    w.report(&tx);
    assert_eq!(
        rx.try_recv().unwrap(),
        SyncMessage::BatchProcessed {
            batch_id: BatchId(11),
            downloaded_blocks: blocks,
            result: BatchProcessResult::Failed,
        }
    );
}

#[test]
fn classification_table() {
    let ok_empty = classify_segment_outcome(Ok(vec![]));
    assert!(!ok_empty.run_fork_choice && ok_empty.fault.is_none() && ok_empty.anomaly.is_none());

    let ok_new = classify_segment_outcome(Ok(vec![Root(1), Root(2)]));
    assert!(ok_new.run_fork_choice && ok_new.fault.is_none());

    let parent = classify_segment_outcome(Err(BlockError::ParentUnknown(Root(6))));
    assert_eq!(parent.fault, Some(BatchFault::UnknownParent(Root(6))));
    assert!(!parent.run_fork_choice);

    let known = classify_segment_outcome(Err(BlockError::BlockIsAlreadyKnown));
    assert!(known.fault.is_none());
    assert_eq!(known.anomaly, Some(ImportAnomaly::BlockAlreadyKnown));

    let revert = classify_segment_outcome(Err(BlockError::WouldRevertFinalizedSlot {
        block_slot: 3,
        finalized_slot: 9,
    }));
    assert!(revert.fault.is_none());
    assert_eq!(revert.anomaly, Some(ImportAnomaly::FinalizedOrEarlierSkipped));

    let genesis = classify_segment_outcome(Err(BlockError::GenesisBlock));
    assert!(genesis.fault.is_none());
    assert_eq!(genesis.anomaly, Some(ImportAnomaly::GenesisReprocessed));

    let internal =
        classify_segment_outcome(Err(BlockError::BeaconChainError(String::from("disk"))));
    assert_eq!(internal.fault, Some(BatchFault::InternalError(String::from("disk"))));
}

#[test]
fn future_slot_tolerance_boundary() {
    // Tolerance is one slot: present 5 tolerates block 6, not block 7.
    let within = classify_segment_outcome(Err(BlockError::FutureSlot {
        present_slot: 5,
        block_slot: 6,
    }));
    assert_eq!(
        within.fault,
        Some(BatchFault::FutureSlotWithinTolerance { present_slot: 5, block_slot: 6 })
    );
    let beyond = classify_segment_outcome(Err(BlockError::FutureSlot {
        present_slot: 5,
        block_slot: 7,
    }));
    assert_eq!(
        beyond.fault,
        Some(BatchFault::FutureSlotBeyondTolerance { present_slot: 5, block_slot: 7 })
    );
    // Near the top of the slot range no arithmetic trips.
    let top = classify_segment_outcome(Err(BlockError::FutureSlot {
        present_slot: u64::MAX,
        block_slot: u64::MAX,
    }));
    assert_eq!(
        top.fault,
        Some(BatchFault::FutureSlotWithinTolerance {
            present_slot: u64::MAX,
            block_slot: u64::MAX,
        })
    );
}

#[test]
fn fault_descriptions() {
    assert_eq!(
        BatchFault::UnknownParent(Root(42)).describe(),
        "Block has an unknown parent: 42"
    );
    assert_eq!(
        BatchFault::FutureSlotBeyondTolerance { present_slot: 5, block_slot: 70 }.describe(),
        "Block with slot 70 is beyond the future tolerance of present slot 5"
    );
    assert_eq!(
        BatchFault::FutureSlotWithinTolerance { present_slot: 5, block_slot: 6 }.describe(),
        "Block with slot 6 is slightly ahead of present slot 5"
    );
    assert_eq!(
        BatchFault::InternalError(String::from("db closed")).describe(),
        "Internal error whilst processing block: db closed"
    );
    assert_eq!(
        BatchFault::InvalidBlock(String::from("bad state root")).describe(),
        "Peer sent invalid block: bad state root"
    );
}
