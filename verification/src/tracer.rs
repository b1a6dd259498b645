//! The path tracer: position, heading, and a recording buffer.

use crate::buffer::{fits, Buffer, CapacityExceeded};
use crate::heading::{Heading, InvalidHeading, Vector2};
use vstd::prelude::*;

verus! {

/// Error surfaced by `stroke`: wraps the buffer's capacity error.
#[derive(Clone, Copy, Debug, PartialEq, Eq, Structural)]
pub enum TraceError {
    CapacityExceeded(CapacityExceeded),
}

/// One movement step under the deliberate swapped-axis rule: the heading's
/// `y` component moves the position's `x` coordinate and the heading's `x`
/// component moves the position's `y` coordinate.
pub open spec fn swapped_step(p: (int, int), h: (int, int)) -> (int, int) {
    (p.0 + h.1, p.1 + h.0)
}

/// The cells visited by `n` steps from `p` with heading `h`, in the order
/// visited. The starting cell `p` itself is not part of the path.
pub open spec fn stroke_positions(p: (int, int), h: (int, int), n: nat) -> Seq<(int, int)>
    decreases n,
{
    if n == 0 {
        Seq::empty()
    } else {
        seq![swapped_step(p, h)] + stroke_positions(swapped_step(p, h), h, (n - 1) as nat)
    }
}

/// The cell on which `n` steps from `p` with heading `h` end.
pub open spec fn stroke_end(p: (int, int), h: (int, int), n: nat) -> (int, int)
    decreases n,
{
    if n == 0 {
        p
    } else {
        stroke_end(swapped_step(p, h), h, (n - 1) as nat)
    }
}

/// Law: a stroke of `n` steps visits exactly `n` cells.
pub proof fn lemma_stroke_positions_len(p: (int, int), h: (int, int), n: nat)
    ensures
        stroke_positions(p, h, n).len() == n,
    decreases n,
{
    if n > 0 {
        lemma_stroke_positions_len(swapped_step(p, h), h, (n - 1) as nat);
    }
}

/// The last step of a stroke appends one more cell, reached from the end of
/// the shorter stroke by a single swapped-axis step.
pub proof fn lemma_stroke_unfold_right(p: (int, int), h: (int, int), n: nat)
    requires
        n > 0,
    ensures
        stroke_end(p, h, n) == swapped_step(stroke_end(p, h, (n - 1) as nat), h),
        stroke_positions(p, h, n) =~= stroke_positions(p, h, (n - 1) as nat).push(
            swapped_step(stroke_end(p, h, (n - 1) as nat), h),
        ),
    decreases n,
{
    let q = swapped_step(p, h);
    if n == 1 {
        assert(stroke_end(p, h, 1) == stroke_end(q, h, 0));
        assert(stroke_positions(q, h, 0) == Seq::<(int, int)>::empty());
        assert(stroke_positions(p, h, 1) =~= seq![q] + stroke_positions(q, h, 0));
        assert(stroke_positions(p, h, 1) =~= stroke_positions(p, h, 0).push(q));
    } else {
        lemma_stroke_unfold_right(q, h, (n - 1) as nat);
    }
}

/// Law: a non-empty stroke ends on the last cell it visited.
pub proof fn lemma_stroke_end_is_last(p: (int, int), h: (int, int), n: nat)
    requires
        n > 0,
    ensures
        stroke_positions(p, h, n).last() == stroke_end(p, h, n),
    decreases n,
{
    lemma_stroke_unfold_right(p, h, n);
    lemma_stroke_positions_len(p, h, (n - 1) as nat);
}

/// A cursor that walks the 2D integer grid, recording every visited cell
/// into its buffer. Created with an initial position, an initial heading and
/// a buffer; mutated in place by `stroke` and `turn_right`.
pub struct PathTracer<B: Buffer> {
    pub position: Vector2,
    pub heading: Heading,
    pub buffer: B,
}

impl<B: Buffer> PathTracer<B> {
    /// Well-formedness: the heading is cardinal and the buffer's recorded
    /// entries fit under its capacity limit.
    pub open spec fn wf(self) -> bool {
        &&& self.heading.is_cardinal()
        &&& fits(self.buffer.capacity_limit(), self.buffer.contents().len() as int)
    }

    /// A tracer at `initial_position`, facing `initial_heading`, recording
    /// into `buffer`.
    pub fn new(initial_position: Vector2, initial_heading: Heading, buffer: B) -> (t: PathTracer<
        B,
    >)
        requires
            initial_heading.is_cardinal(),
            fits(buffer.capacity_limit(), buffer.contents().len() as int),
        ensures
            t.position == initial_position,
            t.heading == initial_heading,
            t.buffer == buffer,
            t.wf(),
    {
        PathTracer { position: initial_position, heading: initial_heading, buffer }
    }

    /// Move `n` steps in the current heading. Each step first computes the
    /// next cell under the swapped-axis rule, then appends it to the buffer
    /// and makes it the current position. The call succeeds exactly when all
    /// `n` cells fit under the buffer's capacity limit; on a rejected append
    /// the cells recorded so far remain recorded, the position stays on the
    /// last recorded cell, and the capacity error is surfaced unchanged.
    pub fn stroke(&mut self, n: u32) -> (r: Result<(), TraceError>)
        requires
            old(self).wf(),
            i64::MIN <= old(self).position@.0 - n as int,
            old(self).position@.0 + n as int <= i64::MAX,
            i64::MIN <= old(self).position@.1 - n as int,
            old(self).position@.1 + n as int <= i64::MAX,
        ensures
            final(self).wf(),
            final(self).heading == old(self).heading,
            final(self).buffer.capacity_limit() == old(self).buffer.capacity_limit(),
            old(self).position@.0 - n as int <= final(self).position@.0 <= old(self).position@.0
                + n as int,
            old(self).position@.1 - n as int <= final(self).position@.1 <= old(self).position@.1
                + n as int,
            r is Ok <==> fits(
                old(self).buffer.capacity_limit(),
                old(self).buffer.contents().len() as int + n as int,
            ),
            r is Ok ==> final(self).buffer.contents() == old(self).buffer.contents()
                + stroke_positions(old(self).position@, old(self).heading@, n as nat),
            r is Ok ==> final(self).buffer.contents().len() == old(self).buffer.contents().len()
                + n,
            r is Ok ==> final(self).position@ == stroke_end(
                old(self).position@,
                old(self).heading@,
                n as nat,
            ),
            final(self).buffer.contents().len() > old(self).buffer.contents().len()
                ==> final(self).position@ == final(self).buffer.contents().last(),
            r is Err ==> ({
                let limit = old(self).buffer.capacity_limit()->Some_0;
                let stepped = (limit - old(self).buffer.contents().len()) as nat;
                &&& old(self).buffer.capacity_limit() is Some
                &&& old(self).buffer.contents().len() + n > limit
                &&& (match r {
                    Result::Err(TraceError::CapacityExceeded(e)) => e.capacity as int == limit,
                    _ => false,
                })
                &&& final(self).buffer.contents() == old(self).buffer.contents()
                    + stroke_positions(old(self).position@, old(self).heading@, stepped)
                &&& final(self).buffer.contents().len() == limit
                &&& final(self).position@ == stroke_end(
                    old(self).position@,
                    old(self).heading@,
                    stepped,
                )
            }),
    {
        let mut i: u32 = 0;
        while i < n
            invariant
                i <= n,
                old(self).heading.is_cardinal(),
                i64::MIN <= old(self).position@.0 - n as int,
                old(self).position@.0 + n as int <= i64::MAX,
                i64::MIN <= old(self).position@.1 - n as int,
                old(self).position@.1 + n as int <= i64::MAX,
                self.heading == old(self).heading,
                self.buffer.capacity_limit() == old(self).buffer.capacity_limit(),
                fits(self.buffer.capacity_limit(), self.buffer.contents().len() as int),
                self.buffer.contents() == old(self).buffer.contents() + stroke_positions(
                    old(self).position@,
                    old(self).heading@,
                    i as nat,
                ),
                self.buffer.contents().len() == old(self).buffer.contents().len() + i,
                self.position@ == stroke_end(old(self).position@, old(self).heading@, i as nat),
                old(self).position@.0 - i <= self.position@.0 <= old(self).position@.0 + i,
                old(self).position@.1 - i <= self.position@.1 <= old(self).position@.1 + i,
            decreases n - i,
        {
            let next = Vector2 {
                x: self.position.x + self.heading.0.y,
                y: self.position.y + self.heading.0.x,
            };
            proof {
                lemma_stroke_unfold_right(old(self).position@, old(self).heading@, (i + 1) as nat);
                lemma_stroke_positions_len(old(self).position@, old(self).heading@, i as nat);
            }
            match self.buffer.append(next) {
                Ok(()) => {
                    self.position = next;
                    i = i + 1;
                },
                Err(e) => {
                    proof {
                        if i > 0 {
                            lemma_stroke_end_is_last(
                                old(self).position@,
                                old(self).heading@,
                                i as nat,
                            );
                        }
                    }
                    return Err(TraceError::CapacityExceeded(e));
                },
            }
        }
        proof {
            if n > 0 {
                lemma_stroke_end_is_last(old(self).position@, old(self).heading@, n as nat);
                lemma_stroke_positions_len(old(self).position@, old(self).heading@, n as nat);
            }
        }
        Ok(())
    }

    /// Rotate the heading a quarter turn clockwise. Position and buffer are
    /// untouched. A non-cardinal heading — unreachable while the tracer is
    /// well-formed, but checked rather than assumed — is reported as
    /// `InvalidHeading` and leaves the tracer unchanged.
    pub fn turn_right(&mut self) -> (r: Result<(), InvalidHeading>)
        ensures
            final(self).position == old(self).position,
            final(self).buffer == old(self).buffer,
            r is Ok <==> old(self).heading.is_cardinal(),
            old(self).heading.is_cardinal() ==> final(self).heading == old(
                self,
            ).heading.spec_rotate(),
            !old(self).heading.is_cardinal() ==> *final(self) == *old(self) && r == Err::<
                (),
                InvalidHeading,
            >((InvalidHeading { found: old(self).heading.0 })),
            old(self).wf() ==> final(self).wf(),
    {
        match self.heading.rotate_clockwise() {
            Ok(h) => {
                self.heading = h;
                Ok(())
            },
            Err(e) => Err(e),
        }
    }
}

} // verus!
