//! The batch import worker: takes one unit of work (a range-sync batch or a
//! parent-lookup chain), orders the blocks for import, classifies what the
//! chain-import dependency returned, triggers fork choice exactly when a
//! range batch integrated new canonical information, and reports one
//! terminal result to the coordinator over a non-blocking channel.
//!
//! The chain store itself is an external collaborator: the embedder checks
//! the liveness of its handle, performs the import and the fork-choice call,
//! and feeds each outcome back into the worker's state machine, which owns
//! every decision.

use vstd::prelude::*;

use crate::channel::send_sync_message;
use crate::decimal::{dec_digits, render_dec};
use crate::objects::{Root, SignedBeaconBlock};

verus! {

/// How far beyond the present slot a block's slot may lie before the block
/// is dropped as too far in the future.
pub const FUTURE_SLOT_TOLERANCE: u64 = 1;

/// Identifies a contiguous range-sync batch.
#[derive(Clone, Copy, Debug, PartialEq, Eq, Structural)]
pub struct BatchId(pub u64);

/// Identifies the peer that supplied a parent-lookup chain.
#[derive(Clone, Copy, Debug, PartialEq, Eq, Structural)]
pub struct PeerId(pub u64);

/// Id associated to a block processing request, either a batch or a single
/// block.
#[derive(Clone, Copy, Debug, PartialEq, Eq, Structural)]
pub enum ProcessId {
    /// Processing Id of a range syncing batch.
    RangeBatchId(BatchId),
    /// Processing Id of the parent lookup of a block.
    ParentLookup(PeerId),
}

/// The result of a block processing request.
#[derive(Clone, Copy, Debug, PartialEq, Eq, Structural)]
pub enum BatchProcessResult {
    /// The batch was completed successfully.
    Success,
    /// The batch processing failed.
    Failed,
}

/// What the chain-import dependency reports when it rejects a segment.
#[derive(Clone, Debug, PartialEq)]
pub enum BlockError {
    /// A block's parent is not known to the chain.
    ParentUnknown(Root),
    /// A block of the segment was already present.
    BlockIsAlreadyKnown,
    /// A block's slot lies ahead of the chain's present slot.
    FutureSlot { present_slot: u64, block_slot: u64 },
    /// Importing the block would reorganize below the finalized slot.
    WouldRevertFinalizedSlot { block_slot: u64, finalized_slot: u64 },
    /// The genesis block was handed in again.
    GenesisBlock,
    /// An internal or storage failure inside the import dependency.
    BeaconChainError(String),
    /// Any other rejection: the peer supplied an invalid block.
    InvalidBlock(String),
}

/// Why a batch is reported failed.
#[derive(Clone, Debug, PartialEq)]
pub enum BatchFault {
    /// The batch is sequential, so an unknown parent invalidates it whole.
    UnknownParent(Root),
    /// A block's slot is beyond the future tolerance: dropped.
    FutureSlotBeyondTolerance { present_slot: u64, block_slot: u64 },
    /// A block's slot is slightly ahead, within the tolerance.
    FutureSlotWithinTolerance { present_slot: u64, block_slot: u64 },
    /// Internal failure of the import dependency: fatal, not retried here.
    InternalError(String),
    /// A peer-supplied invalid block: fatal for the batch.
    InvalidBlock(String),
}

/// A benign import anomaly: flagged, but no failure of the batch.
#[derive(Clone, Copy, Debug, PartialEq, Eq, Structural)]
pub enum ImportAnomaly {
    /// An already-known block points at an upstream deduplication gap.
    BlockAlreadyKnown,
    /// A block at or below the finalized slot was treated as a no-op.
    FinalizedOrEarlierSkipped,
    /// The genesis block was reprocessed: benign.
    GenesisReprocessed,
}

/// The classification of one chain-import outcome.
#[derive(Clone, Debug, PartialEq)]
pub struct SegmentDecision {
    /// Fork choice must be re-evaluated: at least one new root was imported.
    pub run_fork_choice: bool,
    /// The batch failed for this reason, if any.
    pub fault: Option<BatchFault>,
    /// A benign anomaly to flag, if any.
    pub anomaly: Option<ImportAnomaly>,
}

/// A message reported to the coordinating sync manager.
#[derive(Clone, Debug, PartialEq)]
pub enum SyncMessage {
    /// The terminal result of a range-sync batch, with its blocks.
    BatchProcessed {
        batch_id: BatchId,
        downloaded_blocks: Vec<SignedBeaconBlock>,
        result: BatchProcessResult,
    },
    /// A parent lookup could not be imported; names the supplying peer.
    ParentLookupFailed(PeerId),
}

/// Where the worker stands for one batch.
#[derive(Clone, Copy, Debug, PartialEq, Eq, Structural)]
pub enum WorkerPhase {
    /// Work accepted, chain not consulted yet.
    Pending,
    /// The ordered blocks are with the chain-import dependency.
    Importing,
    /// Import done; fork choice must run before the report goes out.
    ForkChoice { failed: bool },
    /// The terminal result is ready to report.
    Reporting { failed: bool },
    /// Terminal: nothing further happens for this batch.
    Done,
}

/// The action the embedder must perform after accepting work.
#[derive(Clone, Debug, PartialEq)]
pub enum BeginAction {
    /// Hand exactly these blocks, in this order, to the chain import.
    Import(Vec<SignedBeaconBlock>),
    /// The chain was torn down: do nothing, report nothing.
    Halt,
}

/// What reporting did.
#[derive(Clone, Copy, Debug, PartialEq, Eq, Structural)]
pub struct ReportOutcome {
    /// A message was handed to the coordinator channel.
    pub attempted: bool,
    /// The channel accepted it (its receive half was still open).
    pub delivered: bool,
}

/// The order in which a request's blocks go to the chain import: a range
/// batch is already parent-first; a parent lookup arrives newest-first and
/// is reversed.
pub open spec fn spec_import_order(id: ProcessId, blocks: Seq<SignedBeaconBlock>) -> Seq<
    SignedBeaconBlock,
> {
    match id {
        ProcessId::RangeBatchId(_) => blocks,
        ProcessId::ParentLookup(_) => blocks.reverse(),
    }
}

/// The classification table for one chain-import outcome: which outcomes run
/// fork choice, which fail the batch, and which are benign anomalies.
pub open spec fn spec_classify(outcome: Result<Vec<Root>, BlockError>) -> SegmentDecision {
    match outcome {
        Ok(roots) => SegmentDecision {
            run_fork_choice: roots@.len() > 0,
            fault: None,
            anomaly: None,
        },
        Err(BlockError::ParentUnknown(root)) => SegmentDecision {
            run_fork_choice: false,
            fault: Some(BatchFault::UnknownParent(root)),
            anomaly: None,
        },
        Err(BlockError::BlockIsAlreadyKnown) => SegmentDecision {
            run_fork_choice: false,
            fault: None,
            anomaly: Some(ImportAnomaly::BlockAlreadyKnown),
        },
        Err(BlockError::FutureSlot { present_slot, block_slot }) => SegmentDecision {
            run_fork_choice: false,
            fault: Some(
                if block_slot > present_slot + FUTURE_SLOT_TOLERANCE {
                    BatchFault::FutureSlotBeyondTolerance { present_slot, block_slot }
                } else {
                    BatchFault::FutureSlotWithinTolerance { present_slot, block_slot }
                },
            ),
            anomaly: None,
        },
        Err(BlockError::WouldRevertFinalizedSlot { .. }) => SegmentDecision {
            run_fork_choice: false,
            fault: None,
            anomaly: Some(ImportAnomaly::FinalizedOrEarlierSkipped),
        },
        Err(BlockError::GenesisBlock) => SegmentDecision {
            run_fork_choice: false,
            fault: None,
            anomaly: Some(ImportAnomaly::GenesisReprocessed),
        },
        Err(BlockError::BeaconChainError(e)) => SegmentDecision {
            run_fork_choice: false,
            fault: Some(BatchFault::InternalError(e)),
            anomaly: None,
        },
        Err(BlockError::InvalidBlock(e)) => SegmentDecision {
            run_fork_choice: false,
            fault: Some(BatchFault::InvalidBlock(e)),
            anomaly: None,
        },
    }
}

/// An import rejection that fails the batch, as opposed to a benign one.
pub open spec fn spec_import_faulted(e: BlockError) -> bool {
    match e {
        BlockError::ParentUnknown(_) => true,
        BlockError::BlockIsAlreadyKnown => false,
        BlockError::FutureSlot { .. } => true,
        BlockError::WouldRevertFinalizedSlot { .. } => false,
        BlockError::GenesisBlock => false,
        BlockError::BeaconChainError(_) => true,
        BlockError::InvalidBlock(_) => true,
    }
}

/// Whether a terminal report message is due: a range batch always reports
/// its result; a parent lookup reports only failure.
pub open spec fn spec_report_due(id: ProcessId, failed: bool) -> bool {
    match id {
        ProcessId::RangeBatchId(_) => true,
        ProcessId::ParentLookup(_) => failed,
    }
}

/// The shape of the one report message for a request: its batch id, its
/// original (unreversed) blocks and its result, or the peer of a failed
/// parent lookup.
pub open spec fn is_report_for(
    m: SyncMessage,
    id: ProcessId,
    blocks: Seq<SignedBeaconBlock>,
    failed: bool,
) -> bool {
    match id {
        ProcessId::RangeBatchId(bid) => m matches SyncMessage::BatchProcessed {
            batch_id,
            downloaded_blocks,
            result,
        } && batch_id == bid && downloaded_blocks@ == blocks && (result
            == if failed {
                BatchProcessResult::Failed
            } else {
                BatchProcessResult::Success
            }),
        ProcessId::ParentLookup(pid) => m == SyncMessage::ParentLookupFailed(pid) && failed,
    }
}

/// Law: fork choice is re-evaluated exactly when the import integrated at
/// least one new root; a batch fails exactly on a faulting rejection; and a
/// batch that runs fork choice never fails.
pub proof fn lemma_classification_verdict(outcome: Result<Vec<Root>, BlockError>)
    ensures
        spec_classify(outcome).run_fork_choice <==> (outcome matches Ok(roots) && roots@.len()
            > 0),
        spec_classify(outcome).fault is Some <==> (outcome matches Err(e) && spec_import_faulted(
            e,
        )),
        spec_classify(outcome).run_fork_choice ==> spec_classify(outcome).fault is None,
{
}

/// Copies a block sequence in its order.
fn copy_blocks(v: &Vec<SignedBeaconBlock>) -> (r: Vec<SignedBeaconBlock>)
    ensures
        r@ == v@,
{
    let mut r: Vec<SignedBeaconBlock> = Vec::new();
    let mut i: usize = 0;
    while i < v.len()
        invariant
            i <= v@.len(),
            r@ == v@.take(i as int),
        decreases v@.len() - i,
    {
        r.push(v[i]);
        proof {
            assert(r@ =~= v@.take(i + 1));
        }
        i = i + 1;
    }
    proof {
        assert(v@.take(i as int) =~= v@);
    }
    r
}

/// Copies a block sequence in reverse order.
fn reverse_blocks(v: &Vec<SignedBeaconBlock>) -> (r: Vec<SignedBeaconBlock>)
    ensures
        r@ == v@.reverse(),
{
    let n = v.len();
    let mut r: Vec<SignedBeaconBlock> = Vec::new();
    let mut i: usize = 0;
    while i < n
        invariant
            i <= n == v@.len(),
            r@.len() == i,
            forall|j: int| 0 <= j < i ==> r@[j] == v@[n - 1 - j],
        decreases n - i,
    {
        r.push(v[n - 1 - i]);
        i = i + 1;
    }
    proof {
        assert(r@ =~= v@.reverse());
    }
    r
}

/// Classifies what the chain-import dependency returned, per the error
/// taxonomy: an unknown parent, a future slot (beyond or within tolerance),
/// an internal failure and any other rejection fail the batch; an
/// already-known block, a finalized-or-earlier block and a reprocessed
/// genesis block are benign anomalies; a successful import with at least one
/// new root requires a fork-choice re-evaluation.
pub fn classify_segment_outcome(outcome: Result<Vec<Root>, BlockError>) -> (d: SegmentDecision)
    ensures
        d == spec_classify(outcome),
{
    match outcome {
        Ok(roots) => SegmentDecision {
            run_fork_choice: roots.len() > 0,
            fault: None,
            anomaly: None,
        },
        Err(BlockError::ParentUnknown(root)) => SegmentDecision {
            run_fork_choice: false,
            fault: Some(BatchFault::UnknownParent(root)),
            anomaly: None,
        },
        Err(BlockError::BlockIsAlreadyKnown) => SegmentDecision {
            run_fork_choice: false,
            fault: None,
            anomaly: Some(ImportAnomaly::BlockAlreadyKnown),
        },
        Err(BlockError::FutureSlot { present_slot, block_slot }) => {
            let beyond = block_slot > present_slot && block_slot - present_slot
                > FUTURE_SLOT_TOLERANCE;
            SegmentDecision {
                run_fork_choice: false,
                fault: Some(
                    if beyond {
                        BatchFault::FutureSlotBeyondTolerance { present_slot, block_slot }
                    } else {
                        BatchFault::FutureSlotWithinTolerance { present_slot, block_slot }
                    },
                ),
                anomaly: None,
            }
        },
        Err(BlockError::WouldRevertFinalizedSlot { .. }) => SegmentDecision {
            run_fork_choice: false,
            fault: None,
            anomaly: Some(ImportAnomaly::FinalizedOrEarlierSkipped),
        },
        Err(BlockError::GenesisBlock) => SegmentDecision {
            run_fork_choice: false,
            fault: None,
            anomaly: Some(ImportAnomaly::GenesisReprocessed),
        },
        Err(BlockError::BeaconChainError(e)) => SegmentDecision {
            run_fork_choice: false,
            fault: Some(BatchFault::InternalError(e)),
            anomaly: None,
        },
        Err(BlockError::InvalidBlock(e)) => SegmentDecision {
            run_fork_choice: false,
            fault: Some(BatchFault::InvalidBlock(e)),
            anomaly: None,
        },
    }
}

/// Builds the one report message due for a request, if any: a range batch
/// reports its result with the original blocks; a parent lookup reports only
/// failure, naming the peer.
pub fn build_report(id: &ProcessId, blocks: &Vec<SignedBeaconBlock>, failed: bool) -> (r: Option<
    SyncMessage,
>)
    ensures
        r is Some <==> spec_report_due(*id, failed),
        r matches Some(m) ==> is_report_for(m, *id, blocks@, failed),
{
    match id {
        ProcessId::RangeBatchId(bid) => {
            let result = if failed {
                BatchProcessResult::Failed
            } else {
                BatchProcessResult::Success
            };
            Some(
                SyncMessage::BatchProcessed {
                    batch_id: *bid,
                    downloaded_blocks: copy_blocks(blocks),
                    result,
                },
            )
        },
        ProcessId::ParentLookup(pid) => if failed {
            Some(SyncMessage::ParentLookupFailed(*pid))
        } else {
            None
        },
    }
}

/// One block-processing request, stepped by the embedder from `Pending` to
/// `Done`; each step's contract pins the action the embedder must take.
pub struct Worker {
    pub id: ProcessId,
    pub blocks: Vec<SignedBeaconBlock>,
    pub phase: WorkerPhase,
}

impl Worker {
    /// Accepts one unit of work.
    pub fn new(id: ProcessId, blocks: Vec<SignedBeaconBlock>) -> (w: Worker)
        ensures
            w.id == id && w.blocks == blocks && w.phase == WorkerPhase::Pending,
    {
        Worker { id, blocks, phase: WorkerPhase::Pending }
    }

    /// Starts the batch. With a live chain handle it yields the blocks to
    /// hand to the import, in causal order: a parent lookup's sequence is
    /// reversed, a range batch's is kept. With the chain torn down it halts:
    /// the worker is terminal and the import is never consulted, no report
    /// is produced.
    pub fn begin(&mut self, chain_live: bool) -> (a: BeginAction)
        requires
            old(self).phase == WorkerPhase::Pending,
        ensures
            final(self).id == old(self).id && final(self).blocks == old(self).blocks,
            chain_live ==> final(self).phase == WorkerPhase::Importing,
            chain_live ==> (a matches BeginAction::Import(v) && v@ == spec_import_order(
                old(self).id,
                old(self).blocks@,
            )),
            !chain_live ==> final(self).phase == WorkerPhase::Done && a == BeginAction::Halt,
    {
        if !chain_live {
            self.phase = WorkerPhase::Done;
            return BeginAction::Halt;
        }
        let ordered = match &self.id {
            ProcessId::RangeBatchId(_) => copy_blocks(&self.blocks),
            ProcessId::ParentLookup(_) => reverse_blocks(&self.blocks),
        };
        self.phase = WorkerPhase::Importing;
        BeginAction::Import(ordered)
    }

    /// Takes what the chain-import dependency returned for the batch and
    /// classifies it. When a range batch imported at least one new root the
    /// worker waits for a fork-choice re-evaluation before reporting;
    /// otherwise it moves straight to reporting. A successful parent lookup
    /// never triggers fork choice in the same call stack, even when it
    /// integrated new roots: the decision still says so, and the embedder
    /// chooses externally whether to re-trigger. The batch is marked failed
    /// exactly when classification found a fault.
    pub fn on_segment_outcome(&mut self, outcome: Result<Vec<Root>, BlockError>) -> (d:
        SegmentDecision)
        requires
            old(self).phase == WorkerPhase::Importing,
        ensures
            final(self).id == old(self).id && final(self).blocks == old(self).blocks,
            d == spec_classify(outcome),
            final(self).phase == (if d.run_fork_choice && (old(self).id matches
            ProcessId::RangeBatchId(_)) {
                WorkerPhase::ForkChoice { failed: d.fault is Some }
            } else {
                WorkerPhase::Reporting { failed: d.fault is Some }
            }),
    {
        let d = classify_segment_outcome(outcome);
        let failed = d.fault.is_some();
        let range_batch = match self.id {
            ProcessId::RangeBatchId(_) => true,
            ProcessId::ParentLookup(_) => false,
        };
        if d.run_fork_choice && range_batch {
            self.phase = WorkerPhase::ForkChoice { failed };
        } else {
            self.phase = WorkerPhase::Reporting { failed };
        }
        d
    }

    /// Notes that the fork-choice re-evaluation ran. Its failure is logged
    /// by the embedder and swallowed here: the batch's result does not
    /// depend on the flag, since a fork-choice failure does not undo the
    /// committed import.
    pub fn fork_choice_done(&mut self, _fork_choice_ok: bool)
        requires
            (old(self).phase matches WorkerPhase::ForkChoice { .. }),
        ensures
            final(self).id == old(self).id && final(self).blocks == old(self).blocks,
            (old(self).phase matches WorkerPhase::ForkChoice { failed } ==> final(self).phase
                == WorkerPhase::Reporting { failed }),
    {
        let failed = match self.phase {
            WorkerPhase::ForkChoice { failed } => failed,
            _ => false,
        };
        self.phase = WorkerPhase::Reporting { failed };
    }

    /// Reports the batch's terminal result through the coordinator channel,
    /// best-effort: a range batch always reports, a parent lookup reports
    /// only failure, and a closed channel is tolerated without retry. The
    /// worker is terminal afterwards, so each batch reports at most once,
    /// and a message is attempted exactly when one is due.
    pub fn report(&mut self, sync_send: &tokio::sync::mpsc::UnboundedSender<SyncMessage>) -> (r:
        ReportOutcome)
        requires
            (old(self).phase matches WorkerPhase::Reporting { .. }),
        ensures
            final(self).id == old(self).id && final(self).blocks == old(self).blocks,
            final(self).phase == WorkerPhase::Done,
            old(self).phase matches WorkerPhase::Reporting { failed } ==> r.attempted
                == spec_report_due(old(self).id, failed),
            !r.attempted ==> !r.delivered,
    {
        let failed = match self.phase {
            WorkerPhase::Reporting { failed } => failed,
            _ => false,
        };
        let msg = build_report(&self.id, &self.blocks, failed);
        self.phase = WorkerPhase::Done;
        match msg {
            Some(m) => {
                let delivered = send_sync_message(sync_send, m);
                ReportOutcome { attempted: true, delivered }
            },
            None => ReportOutcome { attempted: false, delivered: false },
        }
    }
}

/// The diagnostic text of a batch fault.
pub open spec fn spec_fault_text(f: BatchFault) -> Seq<char> {
    match f {
        BatchFault::UnknownParent(root) => "Block has an unknown parent: "@ + dec_digits(
            root.0 as nat,
        ),
        BatchFault::FutureSlotBeyondTolerance { present_slot, block_slot } => "Block with slot "@
            + dec_digits(block_slot as nat) + " is beyond the future tolerance of present slot "@
            + dec_digits(present_slot as nat),
        BatchFault::FutureSlotWithinTolerance { present_slot, block_slot } => "Block with slot "@
            + dec_digits(block_slot as nat) + " is slightly ahead of present slot "@ + dec_digits(
            present_slot as nat,
        ),
        BatchFault::InternalError(e) => "Internal error whilst processing block: "@ + e@,
        BatchFault::InvalidBlock(e) => "Peer sent invalid block: "@ + e@,
    }
}

impl BatchFault {
    /// Renders the human-diagnostic reason string for a failed batch.
    pub fn describe(&self) -> (r: String)
        ensures
            r@ == spec_fault_text(*self),
    {
        match self {
            BatchFault::UnknownParent(root) => {
                let mut s = String::from_str("Block has an unknown parent: ");
                let digits = render_dec(root.0);
                s.append(digits.as_str());
                proof {
                    assert(s@ =~= spec_fault_text(*self));
                }
                s
            },
            BatchFault::FutureSlotBeyondTolerance { present_slot, block_slot } => {
                let mut s = String::from_str("Block with slot ");
                let block_digits = render_dec(*block_slot);
                s.append(block_digits.as_str());
                s.append(" is beyond the future tolerance of present slot ");
                let present_digits = render_dec(*present_slot);
                s.append(present_digits.as_str());
                proof {
                    assert(s@ =~= spec_fault_text(*self));
                }
                s
            },
            BatchFault::FutureSlotWithinTolerance { present_slot, block_slot } => {
                let mut s = String::from_str("Block with slot ");
                let block_digits = render_dec(*block_slot);
                s.append(block_digits.as_str());
                s.append(" is slightly ahead of present slot ");
                let present_digits = render_dec(*present_slot);
                s.append(present_digits.as_str());
                proof {
                    assert(s@ =~= spec_fault_text(*self));
                }
                s
            },
            BatchFault::InternalError(e) => {
                let mut s = String::from_str("Internal error whilst processing block: ");
                s.append(e.as_str());
                proof {
                    assert(s@ =~= spec_fault_text(*self));
                }
                s
            },
            BatchFault::InvalidBlock(e) => {
                let mut s = String::from_str("Peer sent invalid block: ");
                s.append(e.as_str());
                proof {
                    assert(s@ =~= spec_fault_text(*self));
                }
                s
            },
        }
    }
}

} // verus!
