//! Owned, fixed-length index buffers that remap logical row order onto
//! physical storage.

use crate::error::VectorError;
use vstd::prelude::*;

verus! {

/// A producer of row indices that knows, before iteration, exactly how many
/// indices it will yield.
///
/// `remaining` is the mathematical sequence of indices the producer has still
/// to hand out. The contracts below are what a well-behaved producer promises;
/// [`SelectionVector::from_sequence`] nevertheless re-checks every report at
/// run time, because a producer implemented outside verified code can break
/// these promises.
pub trait IndexProducer {
    /// The indices this producer has not yet yielded, in order.
    spec fn remaining(&self) -> Seq<u32>;

    /// Reports lower and upper bounds on the number of indices left. A
    /// well-behaved producer reports an exact count.
    fn size_hint(&self) -> (r: (usize, Option<usize>))
        ensures
            r.0 == self.remaining().len(),
            r.1 == Some(r.0),
    ;

    /// Yields the next index, or `None` once the producer is exhausted.
    fn next(&mut self) -> (r: Option<u32>)
        ensures
            match r {
                Some(x) => {
                    &&& old(self).remaining().len() > 0
                    &&& x == old(self).remaining()[0]
                    &&& final (self).remaining() == old(self).remaining().skip(1)
                },
                None => {
                    &&& old(self).remaining().len() == 0
                    &&& final (self).remaining() == old(self).remaining()
                },
            },
    ;
}

/// Yields the row indices `start, start + 1, ..., end - 1` in order.
pub struct RangeProducer {
    current: u32,
    end: u32,
}

impl RangeProducer {
    /// The sequence `start, start + 1, ..., end - 1`.
    pub open spec fn index_range(start: u32, end: u32) -> Seq<u32> {
        if start <= end {
            Seq::new((end - start) as nat, |i: int| (start + i) as u32)
        } else {
            Seq::empty()
        }
    }

    pub fn new(start: u32, end: u32) -> (r: RangeProducer)
        ensures
            r.remaining() == Self::index_range(start, end),
    {
        RangeProducer { current: start, end }
    }
}

impl IndexProducer for RangeProducer {
    closed spec fn remaining(&self) -> Seq<u32> {
        Self::index_range(self.current, self.end)
    }

    fn size_hint(&self) -> (r: (usize, Option<usize>)) {
        let n: usize = if self.current <= self.end {
            (self.end - self.current) as usize
        } else {
            0
        };
        (n, Some(n))
    }

    fn next(&mut self) -> (r: Option<u32>) {
        if self.current < self.end {
            let v = self.current;
            self.current = self.current + 1;
            proof {
                assert(final (self).remaining() =~= old(self).remaining().skip(1));
            }
            Some(v)
        } else {
            None
        }
    }
}

/// An immutable, fixed-length, owned buffer of row indices (logical row to
/// physical row). The buffer's length is fixed at construction and the buffer
/// is never resized; it is released exactly once, when the vector is dropped.
pub struct SelectionVector {
    buf: Vec<u32>,
}

impl View for SelectionVector {
    type V = Seq<u32>;

    closed spec fn view(&self) -> Seq<u32> {
        self.buf@
    }
}

impl SelectionVector {
    /// Allocates a buffer of exactly `vec.len()` indices and copies `vec`
    /// into it.
    pub fn new_copy(vec: &[u32]) -> (r: SelectionVector)
        ensures
            r@ == vec@,
    {
        SelectionVector { buf: vstd::slice::slice_to_vec(vec) }
    }

    /// Builds a selection vector from any exact-count producer of indices.
    ///
    /// The producer's reports are not trusted: if its size bounds are not an
    /// exact count this fails with `InvalidArgument` before anything is
    /// written, and if it yields more indices than it reported this fails
    /// with `OutOfBounds` and leaves no partial buffer reachable. A producer
    /// that keeps the contracts of [`IndexProducer`] never hits either check,
    /// so for verified callers the result carries exactly the produced
    /// indices.
    pub fn from_sequence<P: IndexProducer>(producer: P) -> (r: Result<SelectionVector, VectorError>)
        ensures
            r matches Ok(sv) && sv@ == producer.remaining(),
    {
        let mut producer = producer;
        let ghost all = producer.remaining();
        let (lower, upper) = producer.size_hint();
        let exact = match upper {
            Some(u) => u == lower,
            None => false,
        };
        if !exact {
            return Err(VectorError::InvalidArgument);
        }
        let reported: usize = lower;
        let mut buf: Vec<u32> = Vec::new();
        loop
            invariant
                reported == all.len(),
                buf@.len() <= reported,
                buf@ == all.take(buf@.len() as int),
                producer.remaining() == all.skip(buf@.len() as int),
            ensures
                buf@ == all,
            decreases reported - buf@.len(),
        {
            match producer.next() {
                Some(x) => {
                    if buf.len() >= reported {
                        // Unreachable for a producer that keeps its contract;
                        // reachable for one that misreported its count.
                        return Err(VectorError::OutOfBounds);
                    }
                    buf.push(x);
                    proof {
                        assert(buf@ =~= all.take(buf@.len() as int));
                        assert(producer.remaining() =~= all.skip(buf@.len() as int));
                    }
                },
                None => {
                    proof {
                        assert(buf@ =~= all);
                    }
                    break;
                },
            }
        }
        Ok(SelectionVector { buf })
    }

    /// The fixed number of indices in this selection vector.
    pub fn len(&self) -> (r: u64)
        ensures
            r == self@.len(),
    {
        self.buf.len() as u64
    }

    /// Reads back the index stored at position `i`.
    pub fn get(&self, i: usize) -> (r: u32)
        requires
            i < self@.len(),
        ensures
            r == self@[i as int],
    {
        self.buf[i]
    }

    /// Hands the owned index buffer to the engine when this selection vector
    /// is consumed by a slicing operation.
    pub(crate) fn take_indices(self) -> (r: Vec<u32>)
        ensures
            r@ == self@,
    {
        self.buf
    }
}

} // verus!
