//! Path-recording buffers: one bounded, one growable, behind one trait.

use crate::heading::Vector2;
use vstd::prelude::*;

verus! {

/// Error reported by a bounded buffer whose fixed capacity is already
/// reached; carries that capacity. An expected, recoverable condition: the
/// caller decides whether to pre-size differently or switch backends.
#[derive(Clone, Copy, Debug, PartialEq, Eq, Structural)]
pub struct CapacityExceeded {
    pub capacity: usize,
}

/// Whether `count` recorded entries fit under `limit` (`None`: no limit).
pub open spec fn fits(limit: Option<int>, count: int) -> bool {
    match limit {
        Option::None => true,
        Option::Some(c) => count <= c,
    }
}

/// A recorder of visited positions: an ordered sequence of grid cells plus a
/// write cursor (`head`) equal to the number of entries written so far.
/// Appending writes at the cursor and advances it by one; it never
/// overwrites, wraps or drops an entry silently.
pub trait Buffer: Sized {
    /// The recorded positions, oldest first, as mathematical pairs.
    spec fn contents(&self) -> Seq<(int, int)>;

    /// `Some(c)`: at most `c` entries may ever be held; `None`: no limit.
    spec fn capacity_limit(&self) -> Option<int>;

    /// Append one position at the current write cursor. Succeeds exactly
    /// when one more entry fits under the capacity limit; a rejected append
    /// leaves the buffer unchanged and names the capacity in the error.
    fn append(&mut self, pos: Vector2) -> (r: Result<(), CapacityExceeded>)
        ensures
            final(self).capacity_limit() == old(self).capacity_limit(),
            r is Ok <==> fits(old(self).capacity_limit(), old(self).contents().len() as int + 1),
            r is Ok ==> final(self).contents() == old(self).contents().push(pos@),
            r is Err ==> final(self).contents() == old(self).contents(),
            r is Err ==> old(self).capacity_limit() is Some && r->Err_0.capacity as int
                == old(self).capacity_limit()->Some_0,
    ;

    /// The write cursor: how many entries have been recorded so far.
    fn head(&self) -> (n: usize)
        ensures
            n == self.contents().len(),
    ;

    /// The `i`-th recorded position, oldest first.
    fn entry(&self, i: usize) -> (p: Vector2)
        requires
            i < self.contents().len(),
        ensures
            p@ == self.contents()[i as int],
    ;
}

/// Fixed-capacity backend, for workloads whose total path length is known
/// ahead of time. Once `capacity` entries are held, every further append is
/// rejected with `CapacityExceeded`.
pub struct BoundedBuffer {
    data: Vec<Vector2>,
    capacity: usize,
}

impl BoundedBuffer {
    /// Capacity invariant: the write cursor never exceeds the capacity,
    /// however the buffer was filled.
    #[verifier::type_invariant]
    spec fn inv(self) -> bool {
        self.data@.len() <= self.capacity
    }

    /// The fixed capacity this buffer was created with.
    pub closed spec fn spec_capacity(self) -> int {
        self.capacity as int
    }

    /// An empty buffer that will hold at most `capacity` entries.
    pub fn new(capacity: usize) -> (b: BoundedBuffer)
        ensures
            b.contents() == Seq::<(int, int)>::empty(),
            b.capacity_limit() == Some(capacity as int),
            b.spec_capacity() == capacity,
    {
        let b = BoundedBuffer { data: Vec::new(), capacity };
        proof {
            assert(b.contents() =~= Seq::<(int, int)>::empty());
        }
        b
    }

    /// The fixed capacity, as a value.
    pub fn capacity(&self) -> (c: usize)
        ensures
            c == self.spec_capacity(),
    {
        self.capacity
    }

    /// Law: a bounded buffer never holds more entries than its capacity,
    /// whatever sequence of operations produced it. Stated of any buffer
    /// value a caller holds; the result is always `true`.
    pub fn capacity_invariant(&self) -> (ok: bool)
        ensures
            ok,
            self.contents().len() <= self.spec_capacity(),
    {
        proof {
            use_type_invariant(self);
        }
        true
    }
}

impl Buffer for BoundedBuffer {
    closed spec fn contents(&self) -> Seq<(int, int)> {
        self.data@.map(|_i: int, p: Vector2| p@)
    }

    closed spec fn capacity_limit(&self) -> Option<int> {
        Some(self.capacity as int)
    }

    fn append(&mut self, pos: Vector2) -> (r: Result<(), CapacityExceeded>) {
        if self.data.len() < self.capacity {
            // The type invariant must hold at every program point, so the
            // backing vector is swapped out, grown, and swapped back in.
            let mut data: Vec<Vector2> = Vec::new();
            core::mem::swap(&mut data, &mut self.data);
            data.push(pos);
            core::mem::swap(&mut data, &mut self.data);
            proof {
                assert(self.contents() =~= old(self).contents().push(pos@));
            }
            Ok(())
        } else {
            Err(CapacityExceeded { capacity: self.capacity })
        }
    }

    fn head(&self) -> (n: usize) {
        self.data.len()
    }

    fn entry(&self, i: usize) -> (p: Vector2) {
        self.data[i]
    }
}

/// Unbounded backend, for open-ended workloads: an append always succeeds,
/// limited only by available memory.
pub struct GrowableBuffer {
    data: Vec<Vector2>,
}

impl GrowableBuffer {
    /// An empty buffer with no capacity limit.
    pub fn new() -> (b: GrowableBuffer)
        ensures
            b.contents() == Seq::<(int, int)>::empty(),
            b.capacity_limit() is None,
    {
        let b = GrowableBuffer { data: Vec::new() };
        proof {
            assert(b.contents() =~= Seq::<(int, int)>::empty());
        }
        b
    }
}

impl Buffer for GrowableBuffer {
    closed spec fn contents(&self) -> Seq<(int, int)> {
        self.data@.map(|_i: int, p: Vector2| p@)
    }

    closed spec fn capacity_limit(&self) -> Option<int> {
        None
    }

    fn append(&mut self, pos: Vector2) -> (r: Result<(), CapacityExceeded>) {
        self.data.push(pos);
        proof {
            assert(self.contents() =~= old(self).contents().push(pos@));
        }
        Ok(())
    }

    fn head(&self) -> (n: usize) {
        self.data.len()
    }

    fn entry(&self, i: usize) -> (p: Vector2) {
        self.data[i]
    }
}

/// Law: an append into a bounded buffer succeeds exactly while the write
/// cursor is below the capacity. In particular, once `capacity` entries are
/// held — however that state was reached — the next append must, by
/// `append`'s contract, fail with `CapacityExceeded`.
pub proof fn lemma_bounded_append_iff_below_capacity(b: &BoundedBuffer)
    ensures
        b.capacity_limit() == Some(b.spec_capacity()),
        fits(b.capacity_limit(), b.contents().len() as int + 1) <==> b.contents().len()
            < b.spec_capacity(),
{
}

/// Law: a growable buffer always has room, so by `append`'s contract an
/// append on it never fails, whatever it already holds.
pub proof fn lemma_growable_always_fits(b: &GrowableBuffer, count: int)
    ensures
        fits(b.capacity_limit(), count),
{
}

} // verus!
