//! Cutting one large log file into line-aligned pieces for parallel parsing.
//!
//! Every line is a whole record, so pieces end at line ends. Each piece but the last
//! takes lines until it holds at least `size / jobs` bytes; the last takes the rest.
use vstd::prelude::*;

verus! {

/// Files smaller than this (64 MiB) are not worth cutting.
pub const MIN_CHUNK_SPLIT_SIZE: u64 = 67108864;

/// Whether a file of the given size (if it could be read) should be cut for `jobs`
/// parallel tasks; gives the size back when it should.
pub fn should_split(size: Option<u64>, jobs: usize) -> (r: Option<u64>)
    ensures
        r == (match size {
            Some(s) => if jobs > 1 && s >= MIN_CHUNK_SPLIT_SIZE { Some(s) } else { None },
            None => None,
        }),
{
    if jobs <= 1 {
        return None;
    }
    match size {
        Some(s) => if s < MIN_CHUNK_SPLIT_SIZE { None } else { Some(s) },
        None => None,
    }
}

/// What to do with a piece once its lines are written.
#[derive(Debug, PartialEq, Eq)]
pub enum ChunkEnd {
    /// The piece is empty: remove it and stop.
    Discard,
    /// Keep the piece; it was the last one.
    KeepAndStop,
    /// Keep the piece and start the next one.
    KeepAndContinue,
}

/// Where the cutting stands: the number of pieces wanted, the byte target of a piece,
/// the number of the current piece and the bytes written into it.
pub struct ChunkPlan {
    pub jobs: usize,
    pub target: u64,
    pub index: usize,
    pub written: u64,
}

impl ChunkPlan {
    /// The plan stays within its pieces.
    pub open spec fn wf(&self) -> bool {
        &&& self.jobs >= 1
        &&& self.target >= 1
        &&& self.index < self.jobs
    }

    /// The current piece is the last one: it takes every remaining line.
    pub open spec fn spec_is_last(&self) -> bool {
        self.index + 1 >= self.jobs
    }

    /// A plan for a file of `size` bytes cut into at most `jobs` pieces; the target of
    /// a piece is `size / jobs`, and at least one byte.
    pub fn new(size: u64, jobs: usize) -> (p: Self)
        requires
            jobs >= 1,
        ensures
            p.wf(),
            p.jobs == jobs,
            p.target == (if size / (jobs as u64) == 0 { 1 } else { size / (jobs as u64) }),
            p.index == 0,
            p.written == 0,
    {
        let t = size / (jobs as u64);
        ChunkPlan { jobs, target: if t == 0 { 1 } else { t }, index: 0, written: 0 }
    }

    /// Whether the current piece is the last one.
    pub fn is_last_chunk(&self) -> (b: bool)
        requires
            self.wf(),
        ensures
            b == self.spec_is_last(),
    {
        self.index + 1 >= self.jobs
    }

    /// Counts a line of `n` bytes written into the current piece and says whether the
    /// piece is complete: it is not the last one and has reached the target.
    pub fn line_written(&mut self, n: u64) -> (close: bool)
        requires
            old(self).wf(),
            old(self).written + n <= u64::MAX,
        ensures
            final(self).wf(),
            final(self).jobs == old(self).jobs,
            final(self).target == old(self).target,
            final(self).index == old(self).index,
            final(self).written == old(self).written + n,
            close == (!old(self).spec_is_last() && final(self).written >= old(self).target),
    {
        self.written = self.written + n;
        !self.is_last_chunk() && self.written >= self.target
    }

    /// Ends the current piece: an empty piece is dropped and the cutting stops; the last
    /// piece ends the cutting; otherwise the next piece starts empty.
    pub fn finish_chunk(&mut self) -> (e: ChunkEnd)
        requires
            old(self).wf(),
        ensures
            final(self).wf(),
            final(self).jobs == old(self).jobs,
            final(self).target == old(self).target,
            e == (if old(self).written == 0 {
                ChunkEnd::Discard
            } else if old(self).spec_is_last() {
                ChunkEnd::KeepAndStop
            } else {
                ChunkEnd::KeepAndContinue
            }),
            e == ChunkEnd::KeepAndContinue ==> final(self).index == old(self).index + 1 && final(self).written == 0,
            e != ChunkEnd::KeepAndContinue ==> final(self).index == old(self).index && final(self).written == old(self).written,
    {
        if self.written == 0 {
            ChunkEnd::Discard
        } else if self.is_last_chunk() {
            ChunkEnd::KeepAndStop
        } else {
            self.index = self.index + 1;
            self.written = 0;
            ChunkEnd::KeepAndContinue
        }
    }
}

} // verus!
