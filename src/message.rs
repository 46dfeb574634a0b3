//! Segments of words, and the errors that reading them can raise.
use vstd::prelude::*;

verus! {

/// Why a read of a message was refused.
#[derive(Debug, Clone, Copy, PartialEq, Eq, Structural)]
pub enum ErrorKind {
    /// An offset or size places a target outside its segment.
    OutOfBounds,
    /// A pointer of the wrong kind, a chained far pointer, or an inconsistent list.
    MalformedPointer,
    /// Pointers were followed deeper than the nesting budget allows.
    RecursionLimitExceeded,
    /// More words were visited than the word budget allows.
    MessageTooLarge,
}

/// A message: a table of segments, each a flat array of little-endian words.
pub struct Message {
    pub segments: Vec<Vec<u64>>,
}

impl Message {
    pub open spec fn view(&self) -> Seq<Seq<u64>> {
        Seq::new(self.segments@.len(), |i: int| self.segments@[i]@)
    }

    /// A message of one segment.
    pub fn from_words(words: Vec<u64>) -> (r: Message)
        ensures
            r@ == seq![words@],
    {
        let mut segments: Vec<Vec<u64>> = Vec::new();
        segments.push(words);
        let r = Message { segments };
        assert(r@ =~= seq![words@]);
        r
    }

    /// A message of the given segments.
    pub fn from_segments(segments: Vec<Vec<u64>>) -> (r: Message)
        ensures
            r@.len() == segments@.len(),
            forall|i: int| 0 <= i < segments@.len() ==> r@[i] == segments@[i]@,
    {
        Message { segments }
    }

    pub fn segment_count(&self) -> (r: usize)
        ensures
            r == self@.len(),
    {
        self.segments.len()
    }

    pub fn segment_len(&self, seg: usize) -> (r: usize)
        requires
            seg < self@.len(),
        ensures
            r == self@[seg as int].len(),
    {
        self.segments[seg].len()
    }

    pub fn word(&self, seg: usize, idx: usize) -> (r: u64)
        requires
            seg < self@.len(),
            idx < self@[seg as int].len(),
        ensures
            r == self@[seg as int][idx as int],
    {
        self.segments[seg][idx]
    }
}

} // verus!
