//! The ingestion scheduler's decision core.
//!
//! The scheduler drives the overall sync: it computes the block range to
//! fetch, partitions it into strides of `concurrency` concurrent
//! `batch_size`-block sub-ranges, and advances a persisted progress cursor
//! past each stride once the stride's results are handled. Every number the
//! surrounding asynchronous driver uses — range bounds, sub-range
//! boundaries, request batches, cursor positions, poll decisions — comes
//! from the functions here; the driver itself only performs the network and
//! row-store calls and hands their results back.

use crate::error::RpcError;
use crate::types::Block;
use vstd::arithmetic::div_mod::lemma_fundamental_div_mod;
use vstd::arithmetic::div_mod::lemma_mod_bound;
use vstd::prelude::*;

verus! {

/// Already-parsed ingestion configuration. Parsing the configuration
/// document is the surrounding program's business; the core consumes the
/// typed values.
#[derive(Debug, Clone, PartialEq, Eq)]
pub struct IngestConfig {
    /// Where the upstream chain RPC source listens.
    pub eth_rpc_url: String,
    /// Optional floor of the block range to sync.
    pub from_block: Option<usize>,
    /// Optional ceiling of the block range to sync.
    pub to_block: Option<usize>,
    /// How many sub-range fetches run concurrently within one stride.
    pub http_req_concurrency: usize,
    /// How many blocks one batched request of the primary ingester covers.
    pub tx_batch_size: usize,
    /// How many blocks one batched request of the writer variant covers.
    pub block_batch_size: usize,
}

/// A typed request descriptor: fetch one block by number. A contiguous
/// sub-range of these is issued as a single network batch call.
#[derive(Debug, Clone, Copy, PartialEq, Eq, Structural)]
pub struct GetBlockByNumber {
    pub block_number: usize,
}

/// Membership of block `x` in sub-range `i` of a stride starting at
/// `block_num` with `batch_size` blocks per sub-range.
pub open spec fn in_sub_range(block_num: int, batch_size: int, i: int, x: int) -> bool {
    block_num + i * batch_size <= x < block_num + (i + 1) * batch_size
}

/// The successfully fetched batches of one stride, in sub-range order.
pub open spec fn ok_batches(group: Seq<Result<Vec<Block>, Vec<RpcError>>>) -> Seq<Vec<Block>>
    decreases group.len(),
{
    if group.len() == 0 {
        Seq::empty()
    } else {
        match group.last() {
            Ok(batch) => ok_batches(group.drop_last()).push(batch),
            Err(_) => ok_batches(group.drop_last()),
        }
    }
}

/// How many sub-ranges of one stride failed after retry exhaustion.
pub open spec fn err_count(group: Seq<Result<Vec<Block>, Vec<RpcError>>>) -> int
    decreases group.len(),
{
    if group.len() == 0 {
        0
    } else {
        err_count(group.drop_last()) + if group.last() is Err {
            1int
        } else {
            0int
        }
    }
}

/// What one stride leaves behind.
#[derive(Debug, Clone, PartialEq, Eq)]
pub struct StrideOutcome {
    /// The successfully fetched batches, in sub-range order, ready to be
    /// forwarded to the writer or the row store.
    pub writes: Vec<Vec<Block>>,
    /// How many sub-ranges failed after retry exhaustion and were skipped.
    pub skipped: usize,
    /// The next stride's first block. The cursor advances past the whole
    /// stride whether or not some sub-range failed: a failed sub-range is
    /// logged and skipped, never allowed to stall the sync.
    pub next_block: usize,
}

/// The decision core of the ingestion scheduler. The asynchronous driver
/// around it owns the RPC client and row store handles; this core computes
/// every block number and range the driver acts on.
pub struct Ingester {
    pub cfg: IngestConfig,
}

impl Ingester {
    pub fn new(cfg: IngestConfig) -> (r: Self)
        ensures
            r.cfg == cfg,
    {
        Self { cfg }
    }

    /// The first block of the initial sync: the larger of the configured
    /// floor and the block after the highest block the row store already
    /// holds; zero when neither is given.
    pub open spec fn spec_from_block(cfg_from: Option<usize>, db_max: Option<usize>) -> int {
        match (cfg_from, db_max) {
            (Some(a), Some(b)) => if a as int >= b + 1 {
                a as int
            } else {
                b + 1
            },
            (Some(a), None) => a as int,
            (None, Some(b)) => b + 1,
            (None, None) => 0,
        }
    }

    /// Computes where the initial sync starts, given the highest block
    /// number the row store already holds.
    pub fn from_block(&self, db_max_block_number: Option<usize>) -> (r: usize)
        requires
            db_max_block_number matches Some(m) ==> m < usize::MAX,
        ensures
            r == Self::spec_from_block(self.cfg.from_block, db_max_block_number),
    {
        let db_next = match db_max_block_number {
            Some(m) => Some(m + 1),
            None => None,
        };
        match (self.cfg.from_block, db_next) {
            (Some(a), Some(b)) => if a >= b {
                a
            } else {
                b
            },
            (Some(a), None) => a,
            (None, Some(b)) => b,
            (None, None) => 0,
        }
    }

    /// The block the initial sync stops before: the configured ceiling, or
    /// the block after the current upstream chain head.
    pub open spec fn spec_to_block(cfg_to: Option<usize>, best_block: usize) -> int {
        match cfg_to {
            Some(t) => t as int,
            None => best_block + 1,
        }
    }

    /// Computes where the initial sync stops, given the current upstream
    /// chain head.
    pub fn to_block(&self, best_block: usize) -> (r: usize)
        requires
            self.cfg.to_block is None ==> best_block < usize::MAX,
        ensures
            r == Self::spec_to_block(self.cfg.to_block, best_block),
    {
        match self.cfg.to_block {
            Some(t) => t,
            None => best_block + 1,
        }
    }

    /// How many blocks one stride of the primary ingester covers.
    pub fn sync_step(&self) -> (r: usize)
        requires
            self.cfg.http_req_concurrency * self.cfg.tx_batch_size <= usize::MAX,
        ensures
            r == self.cfg.http_req_concurrency * self.cfg.tx_batch_size,
    {
        self.cfg.http_req_concurrency * self.cfg.tx_batch_size
    }

    /// How many blocks one stride of the writer variant covers.
    pub fn write_step(&self) -> (r: usize)
        requires
            self.cfg.http_req_concurrency * self.cfg.block_batch_size <= usize::MAX,
        ensures
            r == self.cfg.http_req_concurrency * self.cfg.block_batch_size,
    {
        self.cfg.http_req_concurrency * self.cfg.block_batch_size
    }
}

/// Cursor monotonicity: a sync resumed from a persisted max block number
/// never starts below the block after it, whatever floor is configured.
pub proof fn lemma_resume_cursor_monotonic(cfg_from: Option<usize>, prev_max: usize)
    ensures
        Ingester::spec_from_block(cfg_from, Some(prev_max)) >= prev_max + 1,
{
}

/// How many block numbers are still below `to_block`; the last stride of a
/// sync may overshoot the ceiling, so the distance is clamped at zero.
spec fn blocks_left(current: int, to_block: int) -> int {
    if current < to_block {
        to_block - current
    } else {
        0
    }
}

/// The first blocks of the strides that cover `[from_block, to_block)`:
/// every `step`-th number from `from_block` below `to_block`.
pub fn stride_starts(from_block: usize, to_block: usize, step: usize) -> (r: Vec<usize>)
    requires
        step > 0,
        to_block <= usize::MAX - step,
    ensures
        forall|i: int| 0 <= i < r@.len() ==> #[trigger] r@[i] == from_block + i * step,
        forall|i: int| 0 <= i < r@.len() ==> #[trigger] r@[i] < to_block,
        r@.len() == 0 ==> from_block >= to_block,
        r@.len() > 0 ==> to_block <= from_block + r@.len() * step,
{
    let mut r: Vec<usize> = Vec::new();
    let mut current = from_block;
    proof {
        assert(r@.len() == 0);
        assert(current == from_block + r@.len() * step) by (nonlinear_arith)
            requires
                r@.len() == 0,
                current == from_block,
        ;
    }
    while current < to_block
        invariant
            step > 0,
            to_block <= usize::MAX - step,
            current == from_block + r@.len() * step,
            current <= usize::MAX,
            forall|i: int| 0 <= i < r@.len() ==> #[trigger] r@[i] == from_block + i * step,
            forall|i: int| 0 <= i < r@.len() ==> #[trigger] r@[i] < to_block,
            r@.len() > 0 ==> from_block < to_block,
        decreases blocks_left(current as int, to_block as int),
    {
        r.push(current);
        proof {
            assert((r@.len() - 1) * step + step == r@.len() * step) by (nonlinear_arith);
        }
        current = current + step;
    }
    r
}

/// The sub-ranges of one stride: `concurrency` contiguous half-open ranges
/// of `batch_size` blocks each, starting at `block_num`. Together they
/// cover `[block_num, block_num + concurrency * batch_size)` with no gaps
/// and no overlaps; see [`lemma_stride_tiling`].
pub fn stride_ranges(block_num: usize, concurrency: usize, batch_size: usize) -> (r: Vec<
    (usize, usize),
>)
    requires
        block_num + concurrency * batch_size <= usize::MAX,
    ensures
        r@.len() == concurrency,
        forall|i: int|
            0 <= i < concurrency ==> (#[trigger] r@[i]).0 == block_num + i * batch_size && r@[i].1
                == block_num + (i + 1) * batch_size,
{
    let mut r: Vec<(usize, usize)> = Vec::new();
    let mut i: usize = 0;
    while i < concurrency
        invariant
            i <= concurrency,
            block_num + concurrency * batch_size <= usize::MAX,
            r@.len() == i,
            forall|j: int|
                0 <= j < i ==> (#[trigger] r@[j]).0 == block_num + j * batch_size && r@[j].1
                    == block_num + (j + 1) * batch_size,
        decreases concurrency - i,
    {
        proof {
            assert(i * batch_size + batch_size == (i + 1) * batch_size) by (nonlinear_arith);
            assert((i + 1) * batch_size <= concurrency * batch_size) by (nonlinear_arith)
                requires
                    i + 1 <= concurrency,
                    batch_size >= 0,
            ;
            assert(0 <= i * batch_size) by (nonlinear_arith)
                requires
                    i >= 0,
                    batch_size >= 0,
            ;
        }
        let start = block_num + i * batch_size;
        let end = start + batch_size;
        r.push((start, end));
        i = i + 1;
    }
    r
}

/// Stride coverage, part one: every block of the stride lies in some
/// sub-range, and distinct sub-ranges never share a block.
pub proof fn lemma_stride_tiling(block_num: int, concurrency: int, batch_size: int, x: int)
    requires
        0 <= concurrency,
        0 <= batch_size,
        block_num <= x < block_num + concurrency * batch_size,
    ensures
        exists|i: int|
            0 <= i < concurrency && #[trigger] in_sub_range(block_num, batch_size, i, x),
        forall|i: int, j: int|
            0 <= i < j < concurrency ==> !(#[trigger] in_sub_range(block_num, batch_size, i, x)
                && #[trigger] in_sub_range(block_num, batch_size, j, x)),
{
    if batch_size == 0 {
        assert(concurrency * 0 == 0) by (nonlinear_arith);
        assert(false);
    }
    let d = x - block_num;
    let q = d / batch_size;
    lemma_fundamental_div_mod(d, batch_size);
    lemma_mod_bound(d, batch_size);
    assert(batch_size * q <= d < batch_size * (q + 1)) by (nonlinear_arith)
        requires
            d == batch_size * q + (d % batch_size),
            0 <= d % batch_size < batch_size,
    ;
    assert(0 <= q < concurrency) by (nonlinear_arith)
        requires
            batch_size * q <= d < batch_size * (q + 1),
            0 <= d < concurrency * batch_size,
            batch_size > 0,
    ;
    assert(in_sub_range(block_num, batch_size, q, x)) by (nonlinear_arith)
        requires
            batch_size * q <= d < batch_size * (q + 1),
            d == x - block_num,
    ;
    assert forall|i: int, j: int| 0 <= i < j < concurrency implies !(in_sub_range(
        block_num,
        batch_size,
        i,
        x,
    ) && in_sub_range(block_num, batch_size, j, x)) by {
        assert((i + 1) * batch_size <= j * batch_size) by (nonlinear_arith)
            requires
                i + 1 <= j,
                batch_size >= 0,
        ;
    }
}

/// Stride coverage, part two: a sub-range never reaches outside its stride.
pub proof fn lemma_sub_range_within_stride(
    block_num: int,
    concurrency: int,
    batch_size: int,
    i: int,
    x: int,
)
    requires
        0 <= i < concurrency,
        0 <= batch_size,
        in_sub_range(block_num, batch_size, i, x),
    ensures
        block_num <= x < block_num + concurrency * batch_size,
{
    assert(0 <= i * batch_size && (i + 1) * batch_size <= concurrency * batch_size)
        by (nonlinear_arith)
        requires
            0 <= i,
            i + 1 <= concurrency,
            batch_size >= 0,
    ;
}

/// The request descriptors for one contiguous sub-range of blocks, in
/// non-decreasing block-number order.
pub fn batch_requests(start: usize, end: usize) -> (r: Vec<GetBlockByNumber>)
    requires
        start <= end,
    ensures
        r@.len() == end - start,
        forall|i: int|
            0 <= i < r@.len() ==> (#[trigger] r@[i]).block_number == start + i,
{
    let mut r: Vec<GetBlockByNumber> = Vec::new();
    let mut n = start;
    while n < end
        invariant
            start <= n <= end,
            r@.len() == n - start,
            forall|i: int|
                0 <= i < r@.len() ==> (#[trigger] r@[i]).block_number == start + i,
        decreases end - n,
    {
        r.push(GetBlockByNumber { block_number: n });
        n = n + 1;
    }
    r
}

/// Settles one stride after all its sub-range fetches have completed, in
/// sub-range order: successful batches are kept for writing, failed
/// sub-ranges are counted and skipped, and the cursor advances past the
/// whole stride either way. One exhausted sub-range therefore never stalls
/// the sync: the known gap is reported, not escalated.
pub fn process_stride(
    block_num: usize,
    step: usize,
    group: Vec<Result<Vec<Block>, Vec<RpcError>>>,
) -> (r: StrideOutcome)
    requires
        block_num + step <= usize::MAX,
    ensures
        r.writes@ == ok_batches(group@),
        r.skipped == err_count(group@),
        r.next_block == block_num + step,
{
    let ghost orig = group@;
    let mut rest = group;
    let n = rest.len();
    proof {
        assert(orig.len() == n);
        assert(orig.subrange(0, 0) =~= Seq::empty());
    }
    let mut writes: Vec<Vec<Block>> = Vec::new();
    let mut skipped: usize = 0;
    while rest.len() > 0
        invariant
            rest@.len() <= orig.len(),
            orig.len() <= usize::MAX,
            rest@ == orig.subrange(orig.len() - rest@.len(), orig.len() as int),
            writes@ == ok_batches(orig.subrange(0, orig.len() - rest@.len())),
            skipped == err_count(orig.subrange(0, orig.len() - rest@.len())),
            skipped <= orig.len() - rest@.len(),
        decreases rest.len(),
    {
        let ghost k = orig.len() - rest@.len();
        let item = rest.remove(0);
        proof {
            assert(orig.subrange(0, k + 1).drop_last() =~= orig.subrange(0, k as int));
            assert(orig.subrange(0, k + 1).last() == orig[k as int]);
            assert(item == orig[k as int]);
            assert(rest@ =~= orig.subrange(k + 1, orig.len() as int));
            assert(err_count(orig.subrange(0, k + 1)) <= k + 1);
        }
        match item {
            Ok(batch) => {
                writes.push(batch);
            },
            Err(_) => {
                skipped = skipped + 1;
            },
        }
    }
    proof {
        assert(orig.subrange(0, orig.len() as int) =~= orig);
    }
    StrideOutcome { writes, skipped, next_block: block_num + step }
}

/// One decision of the live tail, taken after polling the row store for the
/// block the cursor waits on.
#[derive(Debug, Clone, PartialEq, Eq)]
pub enum TailStep {
    /// The block is not in the row store yet: sleep this many seconds, then
    /// poll again.
    Poll { sleep_secs: u64 },
    /// The block arrived: write it to the columnar store, delete its
    /// transient row-store copy, and wait for the next number.
    Advance { block: Block, delete_block: usize, next_block: usize },
}

/// Once the initial sync has caught up to the chain head, the tail advances
/// by exactly one block at a time: a block that has not appeared yet is
/// waited for, and an arrived block is written, its row-store copy deleted,
/// and the cursor moved up by one.
pub fn tail_step(block_number: usize, fetched: Option<Block>) -> (r: TailStep)
    requires
        block_number < usize::MAX,
    ensures
        fetched is None ==> r == (TailStep::Poll { sleep_secs: 1u64 }),
        fetched matches Some(b) ==> r == (TailStep::Advance {
            block: b,
            delete_block: block_number,
            next_block: (block_number + 1) as usize,
        }),
{
    match fetched {
        None => TailStep::Poll { sleep_secs: 1 },
        Some(block) => TailStep::Advance {
            block,
            delete_block: block_number,
            next_block: block_number + 1,
        },
    }
}

/// One decision while waiting for the row store to hold its first block.
#[derive(Debug, Clone, Copy, PartialEq, Eq, Structural)]
pub enum StartPoll {
    /// The store holds blocks: the writer's initial sync runs up to this,
    /// the store's lowest block number.
    Ready(usize),
    /// The store is still empty: sleep this many seconds, then ask again.
    Sleep(u64),
}

/// The writer variant starts only once the row store holds a block: its
/// lowest stored number bounds the initial sync, and an empty store is
/// polled again after a fixed pause.
pub fn start_block_poll(found_min: Option<usize>) -> (r: StartPoll)
    ensures
        found_min is None ==> r == StartPoll::Sleep(5u64),
        found_min matches Some(m) ==> r == StartPoll::Ready(m),
{
    match found_min {
        None => StartPoll::Sleep(5),
        Some(m) => StartPoll::Ready(m),
    }
}

} // verus!
