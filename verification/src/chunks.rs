//! How a pixel buffer is divided into chunks, one for each task of a render
//! pass, so that the tasks write to disjoint memory.

use vstd::prelude::*;
use vstd::arithmetic::div_mod::{
    lemma_basic_div,
    lemma_fundamental_div_mod,
    lemma_fundamental_div_mod_converse,
};

verus! {

/// The size of a cache line in bytes. Chunks are whole cache lines, so that
/// two tasks never write to the same line.
pub const CACHE_LINE_BYTES: usize = 64;

/// The number of bytes of a pixel.
pub const PIXEL_BYTES: usize = 4;

/// A render pass aims at this number of chunks for each worker, to balance
/// the load between them.
pub const CHUNKS_PER_WORKER: usize = 5;

/// The number of pixels that a chunk is meant to hold before it is rounded
/// up to whole cache lines: at least one.
pub open spec fn pixels_per_chunk(pixel_count: int, workers: int) -> int {
    let share = pixel_count / (workers * CHUNKS_PER_WORKER);
    if share >= 1 {
        share
    } else {
        1
    }
}

/// The least multiple of the cache line size that is not below `bytes`.
pub open spec fn whole_cache_lines(bytes: int) -> int {
    (bytes + CACHE_LINE_BYTES - 1) / (CACHE_LINE_BYTES as int) * CACHE_LINE_BYTES
}

/// The division of a buffer of `total_bytes` bytes into consecutive chunks of
/// `chunk_bytes` bytes each. The last chunk may be shorter.
#[derive(Clone, Copy, PartialEq, Eq, Debug, Structural)]
pub struct ChunkPlan {
    pub total_bytes: usize,
    pub chunk_bytes: usize,
}

impl ChunkPlan {
    /// The buffer holds whole pixels and a chunk holds whole cache lines, at
    /// least one.
    pub open spec fn well_formed(&self) -> bool {
        &&& self.total_bytes % PIXEL_BYTES == 0
        &&& self.chunk_bytes > 0
        &&& self.chunk_bytes % CACHE_LINE_BYTES == 0
    }

    /// The number of chunks.
    pub open spec fn count(&self) -> int {
        (self.total_bytes + self.chunk_bytes - 1) / (self.chunk_bytes as int)
    }

    /// The offset of the first byte of chunk `k`.
    pub open spec fn start(&self, k: int) -> int {
        k * self.chunk_bytes
    }

    /// The offset after the last byte of chunk `k`.
    pub open spec fn end(&self, k: int) -> int {
        if (k + 1) * self.chunk_bytes <= self.total_bytes {
            (k + 1) * self.chunk_bytes
        } else {
            self.total_bytes as int
        }
    }

    /// The index of the first pixel of chunk `k`.
    pub open spec fn first_pixel(&self, k: int) -> int {
        self.start(k) / (PIXEL_BYTES as int)
    }

    /// The chunk that holds the byte at `offset`.
    pub open spec fn chunk_of(&self, offset: int) -> int {
        offset / (self.chunk_bytes as int)
    }

    /// The plan for a buffer of `pixel_count` pixels and a pool of `workers`
    /// workers.
    pub fn new(pixel_count: usize, workers: usize) -> (plan: ChunkPlan)
        requires
            workers > 0,
            PIXEL_BYTES * pixel_count + CACHE_LINE_BYTES <= usize::MAX,
        ensures
            plan.well_formed(),
            plan.total_bytes == PIXEL_BYTES * pixel_count,
            plan.chunk_bytes == whole_cache_lines(
                PIXEL_BYTES * pixels_per_chunk(pixel_count as int, workers as int),
            ),
    {
        let share = match workers.checked_mul(CHUNKS_PER_WORKER) {
            Some(tasks) => pixel_count / tasks,
            None => {
                proof {
                    lemma_basic_div(pixel_count as int, workers * CHUNKS_PER_WORKER);
                }
                0
            },
        };
        let pixels = if share >= 1 { share } else { 1 };
        proof {
            if share >= 1 {
                let tasks = workers * CHUNKS_PER_WORKER;
                lemma_fundamental_div_mod(pixel_count as int, tasks);
                assert(tasks * share <= pixel_count);
                assert(share <= tasks * share) by (nonlinear_arith)
                    requires
                        tasks >= 1,
                        share >= 0,
                ;
            }
        }
        let total_bytes = PIXEL_BYTES * pixel_count;
        let chunk_bytes = (PIXEL_BYTES * pixels + (CACHE_LINE_BYTES - 1)) / CACHE_LINE_BYTES
            * CACHE_LINE_BYTES;
        ChunkPlan { total_bytes, chunk_bytes }
    }

    /// The number of chunks.
    pub fn chunk_count(&self) -> (count: usize)
        requires
            self.well_formed(),
        ensures
            count == self.count(),
    {
        let full = self.total_bytes / self.chunk_bytes;
        let rest = self.total_bytes % self.chunk_bytes;
        proof {
            let total = self.total_bytes as int;
            let chunk = self.chunk_bytes as int;
            lemma_fundamental_div_mod(total, chunk);
            assert(chunk * full == full * chunk) by (nonlinear_arith);
            assert((full + 1) * chunk == full * chunk + chunk) by (nonlinear_arith);
            if rest == 0 {
                lemma_fundamental_div_mod_converse(total + chunk - 1, chunk, full as int, chunk - 1);
            } else {
                lemma_fundamental_div_mod_converse(
                    total + chunk - 1,
                    chunk,
                    full + 1,
                    rest - 1,
                );
            }
        }
        if rest == 0 {
            full
        } else {
            full + 1
        }
    }

    /// The byte range of chunk `k`: the offset of its first byte, and the
    /// offset after its last.
    pub fn chunk_range(&self, k: usize) -> (range: (usize, usize))
        requires
            self.well_formed(),
            k < self.count(),
        ensures
            range.0 == self.start(k as int),
            range.1 == self.end(k as int),
            range.0 < range.1 <= self.total_bytes,
    {
        proof {
            lemma_chunk_within_buffer(*self, k as int);
            assert((k + 1) * self.chunk_bytes == k * self.chunk_bytes + self.chunk_bytes)
                by (nonlinear_arith);
        }
        let start = k * self.chunk_bytes;
        let end = if self.total_bytes - start >= self.chunk_bytes {
            start + self.chunk_bytes
        } else {
            self.total_bytes
        };
        (start, end)
    }

    /// The index of the first pixel of chunk `k`.
    pub fn chunk_first_pixel(&self, k: usize) -> (pixel: usize)
        requires
            self.well_formed(),
            k < self.count(),
        ensures
            pixel == self.first_pixel(k as int),
    {
        let (start, _) = self.chunk_range(k);
        start / PIXEL_BYTES
    }
}

/// A chunk is not empty and lies within the buffer.
pub proof fn lemma_chunk_within_buffer(plan: ChunkPlan, k: int)
    requires
        plan.well_formed(),
        0 <= k < plan.count(),
    ensures
        0 <= plan.start(k) < plan.end(k) <= plan.total_bytes,
        plan.end(k) - plan.start(k) <= plan.chunk_bytes,
{
    let total = plan.total_bytes as int;
    let chunk = plan.chunk_bytes as int;
    lemma_fundamental_div_mod(total + chunk - 1, chunk);
    let rest = (total + chunk - 1) % chunk;
    assert(chunk * plan.count() + rest == total + chunk - 1);
    assert(chunk * (k + 1) <= chunk * plan.count()) by (nonlinear_arith)
        requires
            k + 1 <= plan.count(),
            chunk > 0,
    ;
    assert(chunk * (k + 1) == k * chunk + chunk) by (nonlinear_arith);
    assert((k + 1) * chunk == k * chunk + chunk) by (nonlinear_arith);
    assert(k * chunk >= 0) by (nonlinear_arith)
        requires
            k >= 0,
            chunk > 0,
    ;
}

/// An empty buffer has no chunk, any other has a first chunk, which starts
/// where the buffer starts.
pub proof fn lemma_no_chunks_in_empty_buffer(plan: ChunkPlan)
    requires
        plan.well_formed(),
    ensures
        plan.count() >= 0,
        plan.count() == 0 <==> plan.total_bytes == 0,
        plan.start(0) == 0,
{
    let total = plan.total_bytes as int;
    let chunk = plan.chunk_bytes as int;
    lemma_fundamental_div_mod(total + chunk - 1, chunk);
    let count = plan.count();
    let rest = (total + chunk - 1) % chunk;
    assert(chunk * count + rest == total + chunk - 1);
    assert(count >= 0 && (count == 0 <==> total == 0)) by (nonlinear_arith)
        requires
            chunk * count + rest == total + chunk - 1,
            0 <= rest < chunk,
            total >= 0,
    ;
}

/// The chunks follow one another without a gap and without an overlap: the
/// first starts where the buffer starts, each of the others starts where the
/// one before it ends, and the last ends where the buffer ends.
pub proof fn lemma_chunks_are_consecutive(plan: ChunkPlan, k: int)
    requires
        plan.well_formed(),
        0 <= k < plan.count(),
    ensures
        plan.start(0) == 0,
        k + 1 < plan.count() ==> plan.end(k) == plan.start(k + 1),
        k + 1 == plan.count() ==> plan.end(k) == plan.total_bytes,
{
    let total = plan.total_bytes as int;
    let chunk = plan.chunk_bytes as int;
    if k + 1 < plan.count() {
        lemma_chunk_within_buffer(plan, k + 1);
    } else {
        lemma_fundamental_div_mod(total + chunk - 1, chunk);
        let rest = (total + chunk - 1) % chunk;
        assert(chunk * plan.count() + rest == total + chunk - 1);
        assert(chunk * (k + 1) == (k + 1) * chunk) by (nonlinear_arith);
    }
}

/// Every byte of the buffer belongs to exactly one chunk.
pub proof fn lemma_byte_in_exactly_one_chunk(plan: ChunkPlan, offset: int)
    requires
        plan.well_formed(),
        0 <= offset < plan.total_bytes,
    ensures
        0 <= plan.chunk_of(offset) < plan.count(),
        plan.start(plan.chunk_of(offset)) <= offset < plan.end(plan.chunk_of(offset)),
        forall|k: int|
            0 <= k < plan.count() && #[trigger] plan.start(k) <= offset < plan.end(k) ==> k
                == plan.chunk_of(offset),
{
    let total = plan.total_bytes as int;
    let chunk = plan.chunk_bytes as int;
    let home = plan.chunk_of(offset);
    lemma_fundamental_div_mod(offset, chunk);
    lemma_fundamental_div_mod(total + chunk - 1, chunk);
    assert(chunk * home == home * chunk) by (nonlinear_arith);
    assert((home + 1) * chunk == home * chunk + chunk) by (nonlinear_arith);
    assert(home >= 0) by (nonlinear_arith)
        requires
            chunk * home + offset % chunk == offset,
            0 <= offset % chunk < chunk,
            offset >= 0,
    ;
    assert(home < plan.count()) by (nonlinear_arith)
        requires
            chunk * home + offset % chunk == offset,
            0 <= offset % chunk < chunk,
            chunk * plan.count() + (total + chunk - 1) % chunk == total + chunk - 1,
            0 <= (total + chunk - 1) % chunk < chunk,
            offset < total,
    ;
    assert forall|k: int|
        0 <= k < plan.count() && #[trigger] plan.start(k) <= offset < plan.end(k) implies k
        == home by {
        assert((k + 1) * chunk == k * chunk + chunk) by (nonlinear_arith);
        lemma_fundamental_div_mod_converse(offset, chunk, k, offset - k * chunk);
    }
}

/// No chunk boundary falls inside a pixel.
pub proof fn lemma_chunks_hold_whole_pixels(plan: ChunkPlan, k: int)
    requires
        plan.well_formed(),
        0 <= k < plan.count(),
    ensures
        plan.start(k) % (PIXEL_BYTES as int) == 0,
        plan.end(k) % (PIXEL_BYTES as int) == 0,
        plan.start(k) == PIXEL_BYTES * plan.first_pixel(k),
{
    let chunk = plan.chunk_bytes as int;
    lemma_fundamental_div_mod(chunk, 64);
    let lines = chunk / 64;
    assert(k * chunk == 4 * (k * (16 * lines))) by (nonlinear_arith)
        requires
            chunk == 64 * lines,
    ;
    assert((k + 1) * chunk == 4 * ((k + 1) * (16 * lines))) by (nonlinear_arith)
        requires
            chunk == 64 * lines,
    ;
}

} // verus!
