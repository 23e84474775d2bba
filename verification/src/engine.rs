//! The streaming copy engine.
//!
//! The engine is a state machine over chunks: a driver reads the source
//! into a transfer buffer, hands the engine each read's length, and
//! performs the plan the engine returns — a broadcast write of exactly
//! the bytes read, preceded on a fixed cadence by a durable commit and a
//! progress report. A zero-length read drains the engine and ends the
//! run; any other signal never does.

use vstd::arithmetic::div_mod::lemma_fundamental_div_mod_converse;
use vstd::prelude::*;

verus! {

/// The default transfer-buffer size in bytes.
pub const DEFAULT_BLOCKSIZE: usize = 8192;

/// The default number of chunks between two sync-and-report points.
pub const DEFAULT_CADENCE: u64 = 500;

/// The phase of a copy run.
#[derive(PartialEq, Eq, Structural, Debug, Clone, Copy)]
pub enum EngineState {
    /// No read has been processed yet.
    Priming,
    /// At least one chunk has flowed and end-of-stream has not been seen.
    Streaming,
    /// A read returned zero bytes: the source is exhausted.
    Drained,
}

/// What the driver must do with the chunk it just read.
pub struct ChunkPlan {
    /// Request a durable commit on every destination first.
    pub sync_before: bool,
    /// Report this cumulative byte count, if a progress update is due.
    pub report: Option<u64>,
    /// Write exactly this many bytes from the front of the transfer
    /// buffer to every destination; zero means the run is over and
    /// nothing is written.
    pub write_len: usize,
}

/// The copy engine: decides, chunk by chunk, what is written, when the
/// destinations are committed to stable storage, and when progress is
/// reported.
pub struct CopyEngine {
    /// The phase the run is in.
    pub state: EngineState,
    /// How many chunks have been processed.
    pub iteration: u64,
    /// The exact running total of bytes accepted.
    pub total_bytes: u64,
    /// The fixed size of the transfer buffer.
    pub blocksize: usize,
    /// How many chunks lie between two sync-and-report points.
    pub cadence: u64,
    /// Whether progress reports are suppressed.
    pub quiet: bool,
    /// Every byte accepted so far, in order.
    pub copied: Ghost<Seq<u8>>,
}

impl CopyEngine {
    /// The engine's invariant: the running total counts exactly the bytes
    /// accepted, and nothing has flowed before the first read.
    pub open spec fn wf(self) -> bool {
        &&& self.blocksize > 0
        &&& self.cadence > 0
        &&& self.total_bytes == self.copied@.len()
        &&& (self.state is Priming ==> self.iteration == 0 && self.copied@ == Seq::<u8>::empty())
        &&& (self.state is Priming ==> self.total_bytes == 0)
    }

    /// Set up a run: a fixed block size, a sync-and-report cadence, and
    /// the quiet setting. No byte has flowed yet.
    pub fn new(blocksize: usize, cadence: u64, quiet: bool) -> (e: Self)
        requires
            blocksize > 0,
            cadence > 0,
        ensures
            e.wf(),
            e.state is Priming,
            e.iteration == 0,
            e.total_bytes == 0,
            e.blocksize == blocksize,
            e.cadence == cadence,
            e.quiet == quiet,
            e.copied@ == Seq::<u8>::empty(),
    {
        CopyEngine {
            state: EngineState::Priming,
            iteration: 0,
            total_bytes: 0,
            blocksize,
            cadence,
            quiet,
            copied: Ghost(Seq::empty()),
        }
    }

    /// Accept one read's result: the transfer buffer and the number of
    /// bytes the read placed at its front.
    ///
    /// A positive length advances the run and plans a broadcast write of
    /// exactly those bytes, preceded by a sync — and, unless the run is
    /// quiet, a progress report of the exact running total — on every
    /// cadence-th chunk. A zero length drains the engine, plans no write,
    /// and requests one final sync if anything was written at all.
    pub fn on_chunk(&mut self, data: &Vec<u8>, n: usize) -> (plan: ChunkPlan)
        requires
            old(self).wf(),
            !(old(self).state is Drained),
            n <= data@.len(),
            n <= old(self).blocksize,
            old(self).total_bytes + n <= u64::MAX,
            n > 0 ==> old(self).iteration < u64::MAX,
        ensures
            final(self).wf(),
            final(self).blocksize == old(self).blocksize,
            final(self).cadence == old(self).cadence,
            final(self).quiet == old(self).quiet,
            plan.write_len == n,
            old(self).quiet ==> plan.report is None,
            n == 0 ==> {
                &&& final(self).state is Drained
                &&& final(self).copied == old(self).copied
                &&& final(self).total_bytes == old(self).total_bytes
                &&& final(self).iteration == old(self).iteration
                &&& plan.sync_before == (old(self).state is Streaming)
                &&& plan.report is None
            },
            n > 0 ==> {
                &&& final(self).state is Streaming
                &&& final(self).copied@ == old(self).copied@ + data@.take(n as int)
                &&& final(self).total_bytes == old(self).total_bytes + n
                &&& final(self).iteration == old(self).iteration + 1
                &&& plan.sync_before == (old(self).iteration % old(self).cadence == 0)
                &&& plan.report == (if !old(self).quiet && old(self).iteration % old(
                    self,
                ).cadence == 0 {
                    Some((old(self).total_bytes + n) as u64)
                } else {
                    None::<u64>
                })
            },
    {
        if n == 0 {
            let was_streaming = match self.state {
                EngineState::Streaming => true,
                _ => false,
            };
            self.state = EngineState::Drained;
            ChunkPlan { sync_before: was_streaming, report: None, write_len: 0 }
        } else {
            let due = self.iteration % self.cadence == 0;
            let total = self.total_bytes + n as u64;
            let report = if due && !self.quiet {
                Some(total)
            } else {
                None
            };
            self.state = EngineState::Streaming;
            self.iteration = self.iteration + 1;
            self.total_bytes = total;
            proof {
                self.copied@ = self.copied@ + data@.take(n as int);
            }
            ChunkPlan { sync_before: due, report, write_len: n }
        }
    }
}

/// Append the first `n` bytes of `data` to every destination, in order:
/// one chunk's broadcast write. Either every destination receives the
/// chunk or (in the real, fallible sink) the run aborts; no destination
/// ever receives anything else.
pub fn broadcast_chunk(dests: &mut Vec<Vec<u8>>, data: &Vec<u8>, n: usize)
    requires
        n <= data@.len(),
    ensures
        final(dests)@.len() == old(dests)@.len(),
        forall|i: int|
            0 <= i < old(dests)@.len() ==> #[trigger] final(dests)@[i]@ == old(dests)@[i]@
                + data@.take(n as int),
{
    let m = dests.len();
    let mut i: usize = 0;
    while i < m
        invariant
            i <= m,
            m == dests@.len(),
            dests@.len() == old(dests)@.len(),
            n <= data@.len(),
            forall|k: int|
                0 <= k < i ==> #[trigger] dests@[k]@ == old(dests)@[k]@ + data@.take(n as int),
            forall|k: int| i <= k < m ==> #[trigger] dests@[k]@ == old(dests)@[k]@,
        decreases m - i,
    {
        let ghost before = dests@[i as int]@;
        let mut j: usize = 0;
        while j < n
            invariant
                j <= n,
                n <= data@.len(),
                i < m,
                m == dests@.len(),
                dests@[i as int]@ == before + data@.take(j as int),
                forall|k: int| i < k < m ==> #[trigger] dests@[k]@ == old(dests)@[k]@,
                forall|k: int|
                    0 <= k < i ==> #[trigger] dests@[k]@ == old(dests)@[k]@ + data@.take(n as int),
                before == old(dests)@[i as int]@,
            decreases n - j,
        {
            let b = data[j];
            dests[i].push(b);
            proof {
                assert(data@.take(j + 1 as int) =~= data@.take(j as int).push(data@[j as int]));
            }
            j = j + 1;
        }
        i = i + 1;
    }
}

/// How many reads a source of `len` bytes takes at the given block size:
/// every chunk is full except possibly the last.
pub open spec fn chunks_needed(len: nat, blocksize: nat) -> int
    recommends
        blocksize > 0,
{
    (len + blocksize - 1) / (blocksize as int)
}

/// Run the whole copy loop against a memory-backed source and `ndest`
/// memory-backed destinations: read chunks of the engine's block size
/// off `input`, drive the engine with each, and perform its planned
/// broadcast writes.
///
/// Every destination ends up byte-for-byte identical to the input — and
/// so of exactly its length — however the length divides by the block
/// size; an empty input drains the engine at once and writes nothing.
/// The engine ends drained, having counted every input byte exactly
/// once, in as many iterations as the length asks full chunks.
pub fn copy_in_memory(engine: &mut CopyEngine, input: &Vec<u8>, ndest: usize) -> (outs: Vec<
    Vec<u8>,
>)
    requires
        old(engine).wf(),
        old(engine).state is Priming,
    ensures
        final(engine).wf(),
        final(engine).state is Drained,
        final(engine).blocksize == old(engine).blocksize,
        final(engine).cadence == old(engine).cadence,
        final(engine).quiet == old(engine).quiet,
        final(engine).copied@ == input@,
        final(engine).total_bytes == input@.len(),
        final(engine).iteration == chunks_needed(input@.len(), old(engine).blocksize as nat),
        input@.len() == 0 ==> final(engine).iteration == 0,
        outs@.len() == ndest,
        forall|i: int| 0 <= i < ndest ==> #[trigger] outs@[i]@ == input@,
        forall|i: int| 0 <= i < ndest ==> #[trigger] outs@[i]@.len() == input@.len(),
        forall|i: int, j: int| 0 <= i < ndest && 0 <= j < ndest ==> outs@[i]@ == outs@[j]@,
{
    let blocksize = engine.blocksize;
    let mut outs: Vec<Vec<u8>> = Vec::new();
    let mut k: usize = 0;
    while k < ndest
        invariant
            k <= ndest,
            outs@.len() == k,
            forall|i: int| 0 <= i < k ==> #[trigger] outs@[i]@ == Seq::<u8>::empty(),
        decreases ndest - k,
    {
        outs.push(Vec::new());
        k = k + 1;
    }
    let total = input.len();
    let mut pos: usize = 0;
    proof {
        assert(input@.take(0) =~= Seq::<u8>::empty());
    }
    while pos < total
        invariant
            pos <= total,
            total == input@.len(),
            blocksize > 0,
            engine.wf(),
            !(engine.state is Drained),
            engine.blocksize == blocksize,
            engine.cadence == old(engine).cadence,
            engine.blocksize == old(engine).blocksize,
            engine.quiet == old(engine).quiet,
            engine.total_bytes == pos,
            engine.iteration <= pos,
            engine.copied@ == input@.take(pos as int),
            pos == engine.iteration * (blocksize as int) || (pos == total && engine.iteration
                == chunks_needed(total as nat, blocksize as nat)),
            outs@.len() == ndest,
            forall|i: int| 0 <= i < ndest ==> #[trigger] outs@[i]@ == input@.take(pos as int),
        decreases total - pos,
    {
        let remain = total - pos;
        let c = if remain < blocksize {
            remain
        } else {
            blocksize
        };
        let mut buf: Vec<u8> = Vec::new();
        let mut j: usize = 0;
        while j < c
            invariant
                j <= c,
                pos + c <= total,
                total == input@.len(),
                buf@ == input@.subrange(pos as int, pos + j as int),
            decreases c - j,
        {
            let b = input[pos + j];
            buf.push(b);
            proof {
                assert(input@.subrange(pos as int, pos + (j + 1) as int) =~= input@.subrange(
                    pos as int,
                    pos + j as int,
                ).push(input@[pos + j as int]));
            }
            j = j + 1;
        }
        let ghost it0 = engine.iteration as int;
        let plan = engine.on_chunk(&buf, c);
        broadcast_chunk(&mut outs, &buf, plan.write_len);
        proof {
            assert(buf@.take(c as int) =~= buf@);
            assert(input@.take(pos as int) + input@.subrange(pos as int, pos + c as int)
                =~= input@.take(pos + c as int));
            let bi = blocksize as int;
            if c == blocksize {
                assert((it0 + 1) * bi == it0 * bi + bi) by (nonlinear_arith);
            } else {
                let li = total as int;
                let ci = c as int;
                assert(li + bi - 1 == (it0 + 1) * bi + (ci - 1)) by (nonlinear_arith)
                    requires
                        li == it0 * bi + ci,
                ;
                lemma_fundamental_div_mod_converse(li + bi - 1, bi, it0 + 1, ci - 1);
            }
        }
        pos = pos + c;
    }
    proof {
        let li = total as int;
        let bi = blocksize as int;
        let it = engine.iteration as int;
        if li == it * bi {
            assert(li + bi - 1 == it * bi + (bi - 1)) by (nonlinear_arith)
                requires
                    li == it * bi,
            ;
            lemma_fundamental_div_mod_converse(li + bi - 1, bi, it, bi - 1);
        }
    }
    let empty_buf: Vec<u8> = Vec::new();
    let _plan = engine.on_chunk(&empty_buf, 0);
    proof {
        assert(input@.take(total as int) =~= input@);
    }
    outs
}

} // verus!

