//! The decisions of the processor's queue and workers: which worker gets the
//! next notification, what a worker does with a fetched transaction, when it
//! retries and when it gives up, and how often indexes are rebuilt.
use vstd::prelude::*;
use crate::transaction_processor::database::Transaction;
use crate::transaction_processor::processing::{carries_k_protocol, is_k_protocol_transaction, payload_view};

verus! {

// ---------------------------------------------------------------------------
// Round-robin distribution
// ---------------------------------------------------------------------------

/// The worker after `current` in round-robin order among `count` workers.
pub fn next_worker(current: usize, count: usize) -> (n: usize)
    requires
        current < count,
    ensures
        n == (current + 1) % (count as int),
        n < count,
{
    if current + 1 < count {
        proof {
            vstd::arithmetic::div_mod::lemma_small_mod((current + 1) as nat, count as nat);
        }
        current + 1
    } else {
        proof {
            vstd::arithmetic::div_mod::lemma_mod_self_0(count as int);
        }
        0
    }
}

/// Which worker the next notification goes to.
pub struct RoundRobin {
    pub current: usize,
    pub count: usize,
}

impl RoundRobin {
    pub open spec fn wf(&self) -> bool {
        self.count > 0 && self.current < self.count
    }

    /// Distribution starts with the first worker.
    pub fn new(count: usize) -> (r: RoundRobin)
        requires
            count > 0,
        ensures
            r.wf(),
            r.current == 0,
            r.count == count,
    {
        RoundRobin { current: 0, count }
    }

    /// The worker for this notification; the turn passes to the next one.
    pub fn take_turn(&mut self) -> (w: usize)
        requires
            old(self).wf(),
        ensures
            final(self).wf(),
            w == old(self).current,
            final(self).count == old(self).count,
            final(self).current == (old(self).current + 1) % (old(self).count as int),
    {
        let w = self.current;
        self.current = next_worker(self.current, self.count);
        w
    }
}

/// After `k` notifications from the start, the next one goes to worker
/// `k mod count`: every worker gets its turn in order.
pub proof fn lemma_round_robin_turns(count: int, k: nat)
    requires
        count > 0,
    ensures
        turn_after(count, k) == (k as int) % count,
    decreases k,
{
    if k > 0 {
        lemma_round_robin_turns(count, (k - 1) as nat);
        vstd::arithmetic::div_mod::lemma_add_mod_noop_right(1, (k - 1) as int, count);
    } else {
        vstd::arithmetic::div_mod::lemma_small_mod(0, count as nat);
    }
}

/// The worker whose turn it is after `k` notifications from the start.
pub open spec fn turn_after(count: int, k: nat) -> int
    decreases k,
{
    if k == 0 { 0 } else { (turn_after(count, (k - 1) as nat) + 1) % count }
}

// ---------------------------------------------------------------------------
// Workers
// ---------------------------------------------------------------------------

/// What fetching a notified transaction gave.
#[derive(Debug, Clone)]
pub enum FetchOutcome {
    Found(Transaction),
    NotFound,
    Failed,
}

/// What a worker does after its first fetch.
#[derive(Debug, Clone)]
pub enum WorkerDecision {
    /// Hand the transaction to the protocol processor.
    Process(Transaction),
    /// The transaction holds no K protocol text; it is noted and dropped.
    NotKProtocol,
    /// The transaction is not in the database; it is noted and dropped.
    Missing,
    /// The fetch failed: retry it.
    Retry,
}

/// What a worker does with the first fetch of a notified transaction.
pub fn after_fetch(outcome: FetchOutcome) -> (d: WorkerDecision)
    ensures
        match outcome {
            FetchOutcome::Found(t) => if carries_k_protocol(payload_view(t.payload)) {
                d matches WorkerDecision::Process(p) && p == t
            } else {
                d matches WorkerDecision::NotKProtocol
            },
            FetchOutcome::NotFound => d matches WorkerDecision::Missing,
            FetchOutcome::Failed => d matches WorkerDecision::Retry,
        },
{
    match outcome {
        FetchOutcome::Found(t) => {
            if is_k_protocol_transaction(&t) {
                WorkerDecision::Process(t)
            } else {
                WorkerDecision::NotKProtocol
            }
        },
        FetchOutcome::NotFound => WorkerDecision::Missing,
        FetchOutcome::Failed => WorkerDecision::Retry,
    }
}

/// What a worker does after a retry.
#[derive(Debug, Clone)]
pub enum RetryDecision {
    /// The transaction was found: process it if it holds K protocol text,
    /// and stop retrying either way.
    Finish(Option<Transaction>),
    /// Wait the retry delay, then make retry number `n`.
    Again(u32),
    /// Every retry failed; give up on the transaction.
    Exhausted,
}

/// The first retry: number 1, unless no retries are configured.
pub fn first_retry(retry_attempts: u32) -> (d: RetryDecision)
    ensures
        retry_attempts >= 1 ==> (d matches RetryDecision::Again(n) && n == 1),
        retry_attempts == 0 ==> d matches RetryDecision::Exhausted,
{
    if retry_attempts >= 1 { RetryDecision::Again(1) } else { RetryDecision::Exhausted }
}

/// What follows retry number `attempt` of `retry_attempts`.
pub fn after_retry(attempt: u32, retry_attempts: u32, outcome: FetchOutcome) -> (d: RetryDecision)
    requires
        1 <= attempt <= retry_attempts,
    ensures
        match outcome {
            FetchOutcome::Found(t) => d matches RetryDecision::Finish(p) && (if carries_k_protocol(payload_view(t.payload)) {
                p == Some(t)
            } else {
                p is None
            }),
            _ => if attempt < retry_attempts {
                d matches RetryDecision::Again(n) && n == attempt + 1
            } else {
                d matches RetryDecision::Exhausted
            },
        },
{
    match outcome {
        FetchOutcome::Found(t) => {
            if is_k_protocol_transaction(&t) {
                RetryDecision::Finish(Some(t))
            } else {
                RetryDecision::Finish(None)
            }
        },
        _ => {
            if attempt < retry_attempts {
                RetryDecision::Again(attempt + 1)
            } else {
                RetryDecision::Exhausted
            }
        },
    }
}

// ---------------------------------------------------------------------------
// Index maintenance
// ---------------------------------------------------------------------------

/// Hours between two rebuilds of the transactions table's indexes.
pub const REINDEX_INTERVAL_HOURS: u64 = 2;

/// The indexes rebuilt, in order.
pub fn reindexed_indexes() -> (v: Vec<&'static str>)
    ensures
        v@.map_values(|n: &'static str| n@) == seq!["transactions_pkey"@, "transactions_block_time_idx"@],
{
    vec!["transactions_pkey", "transactions_block_time_idx"]
}

/// Seconds to wait between rebuilds.
pub fn reindex_wait_secs(interval_hours: u64) -> (s: u64)
    requires
        interval_hours * 3600 <= u64::MAX,
    ensures
        s == interval_hours * 3600,
{
    interval_hours * 3600
}

} // verus!
