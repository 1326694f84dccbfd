//! The full-text indexer: the batch sizes of its rounds, and its answers to
//! the queue listener.

use vstd::prelude::*;
use crate::codes::PrepareError;
use crate::text::concat;

verus! {

/// The directory of the module's data.
pub const BASE_PATH: &'static str = "./data";

/// The least time between two commits of the index, in milliseconds.
pub const TIMEOUT_BETWEEN_COMMITS_MS: u128 = 100;

/// The directory of the queue that the indexer reads.
pub open spec fn queue_path_text() -> Seq<char> {
    "./"@ + BASE_PATH@ + "/queue"@
}

/// The directory of the queue that the indexer reads.
pub fn queue_path() -> (p: String)
    ensures
        p@ == queue_path_text(),
{
    let a = concat("./", BASE_PATH);
    concat(a.as_str(), "/queue")
}

/// The batch sizes of the indexer's rounds: each round that fails is tried
/// again with half the batch, until the batch is empty.
pub struct BatchPlan {
    batch: u32,
}

/// The batch size that a round uses.
pub open spec fn round_batch(current: u32, module_max: Option<u32>, default: u32) -> u32 {
    if current != 0 {
        current
    } else {
        let m = match module_max {
            Some(m) => m,
            None => 0,
        };
        if m != 0 { m } else { default }
    }
}

/// The number of rounds that a batch size allows before it is halved to zero.
pub open spec fn rounds(b: nat) -> nat
    decreases b,
{
    if b == 0 { 0 } else { 1 + rounds(b / 2) }
}

impl BatchPlan {
    pub closed spec fn batch(&self) -> u32 {
        self.batch
    }

    /// No batch size chosen yet.
    pub fn new() -> (p: BatchPlan)
        ensures
            p.batch() == 0,
    {
        BatchPlan { batch: 0 }
    }

    /// Starts a round: the batch size so far, else the module's setting, else
    /// `default`.
    pub fn begin_round(&mut self, module_max: Option<u32>, default: u32) -> (b: u32)
        ensures
            b == round_batch(old(self).batch(), module_max, default),
            final(self).batch() == b,
    {
        if self.batch == 0 {
            self.batch = match module_max {
                Some(m) => m,
                None => 0,
            };
        }
        if self.batch == 0 {
            self.batch = default;
        }
        self.batch
    }

    /// Ends a round: halves the batch size, and tells whether another round
    /// follows.
    pub fn end_round(&mut self) -> (more: bool)
        ensures
            final(self).batch() == old(self).batch() / 2,
            more == (final(self).batch() >= 1),
    {
        self.batch = self.batch / 2;
        self.batch >= 1
    }
}

/// Whether the indexer waits for the ontology to be loaded: the `input-onto`
/// module has not reported any (absent information counts as none).
pub fn onto_wait_needed(info: Option<(i64, i64)>) -> (r: bool)
    ensures
        r == match info {
            Some(i) => i.0 == 0,
            None => true,
        },
{
    match info {
        Some(i) => i.0 == 0,
        None => true,
    }
}

/// Whether the heartbeat commits the index: more than the least time has
/// passed since the last commit.
pub fn heartbeat_commit_due(elapsed_ms: u128) -> (r: bool)
    ensures
        r == (elapsed_ms > TIMEOUT_BETWEEN_COMMITS_MS),
{
    elapsed_ms > TIMEOUT_BETWEEN_COMMITS_MS
}

/// The heartbeat's answer after a commit (or none, when `committed` is
/// `None`): a failed commit is fatal.
pub fn heartbeat(committed: Option<bool>) -> (r: Result<(), PrepareError>)
    ensures
        r == (if committed == Some(false) { Err(PrepareError::Fatal) } else { Ok::<(), PrepareError>(()) }),
{
    match committed {
        Some(false) => Err(PrepareError::Fatal),
        _ => Ok(()),
    }
}

/// The answer before a batch: the batch size is left as it is.
pub fn before() -> (r: Option<u32>)
    ensures
        r is None,
{
    None
}

/// The answer after a batch, once the index is committed: a failed commit is
/// fatal, else the batch is confirmed.
pub fn after(committed: bool) -> (r: Result<bool, PrepareError>)
    ensures
        r == (if committed { Ok::<bool, PrepareError>(true) } else { Err(PrepareError::Fatal) }),
{
    if !committed {
        return Err(PrepareError::Fatal);
    }
    Ok(true)
}

/// What the indexer does with a queue element.
#[derive(PartialEq, Eq, Structural, Clone, Copy, Debug)]
pub enum ProcessStep {
    /// The element carries no command: skip it.
    Skip,
    /// Index the element's states under this operation id.
    Index { op_id: i64 },
}

/// What the indexer does with a queue element that carries a command (or
/// not) and an operation id (0 when absent).
pub fn process(has_cmd: bool, op_id: Option<i64>) -> (s: ProcessStep)
    ensures
        !has_cmd ==> s == ProcessStep::Skip,
        has_cmd ==> s == (ProcessStep::Index {
            op_id: match op_id {
                Some(i) => i,
                None => 0,
            },
        }),
{
    if !has_cmd {
        return ProcessStep::Skip;
    }
    let id = match op_id {
        Some(i) => i,
        None => 0,
    };
    ProcessStep::Index { op_id: id }
}

/// The answer for a queue element: a skipped one counts as handled in
/// full; an indexed one leaves the commit to the batch, even when indexing
/// failed.
pub fn process_result(s: ProcessStep) -> (r: Result<bool, PrepareError>)
    ensures
        r == Ok::<bool, PrepareError>(s == ProcessStep::Skip),
{
    match s {
        ProcessStep::Skip => Ok(true),
        ProcessStep::Index { .. } => Ok(false),
    }
}

proof fn lemma_rounds_bound(b: nat, k: nat)
    requires
        b < vstd::arithmetic::power2::pow2(k),
    ensures
        rounds(b) <= k,
    decreases k,
{
    if b > 0 {
        if k == 0 {
            vstd::arithmetic::power2::lemma2_to64();
        } else {
            vstd::arithmetic::power2::lemma_pow2_unfold(k);
            lemma_rounds_bound(b / 2, (k - 1) as nat);
        }
    }
}

/// The indexer's rounds end: a batch size halves each round, so there are at
/// most 32 rounds after any first batch size.
pub proof fn law_rounds_end(b: u32)
    ensures
        b / 2 < b || b == 0,
        rounds(b as nat) <= 32,
{
    vstd::arithmetic::power2::lemma2_to64();
    lemma_rounds_bound(b as nat, 32);
}

} // verus!
