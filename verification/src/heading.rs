//! Grid vectors and cardinal headings.

use vstd::prelude::*;

verus! {

/// A pair of signed grid coordinates. Used both for positions on the grid
/// and for heading vectors; a plain value type.
#[derive(Clone, Copy, Debug, PartialEq, Eq, Structural)]
pub struct Vector2 {
    pub x: i64,
    pub y: i64,
}

impl View for Vector2 {
    type V = (int, int);

    open spec fn view(&self) -> (int, int) {
        (self.x as int, self.y as int)
    }
}

/// Error reported when an operation meets a heading vector that is not one
/// of the four cardinal unit vectors. Carries the offending vector.
#[derive(Clone, Copy, Debug, PartialEq, Eq, Structural)]
pub struct InvalidHeading {
    pub found: Vector2,
}

/// A facing direction: a vector meant to stay within the four cardinal unit
/// vectors `(1,0)`, `(0,1)`, `(-1,0)`, `(0,-1)`. Operations that read a
/// heading check this instead of assuming it, so a non-cardinal value is a
/// reportable error rather than an abort.
#[derive(Clone, Copy, Debug, PartialEq, Eq, Structural)]
pub struct Heading(pub Vector2);

impl View for Heading {
    type V = (int, int);

    open spec fn view(&self) -> (int, int) {
        (self.0.x as int, self.0.y as int)
    }
}

impl Heading {
    /// The four admissible heading values.
    pub open spec fn is_cardinal(self) -> bool {
        ||| (self.0.x == 1 && self.0.y == 0)
        ||| (self.0.x == 0 && self.0.y == 1)
        ||| (self.0.x == -1 && self.0.y == 0)
        ||| (self.0.x == 0 && self.0.y == -1)
    }

    /// What a quarter turn clockwise yields, on each cardinal value:
    /// `(1,0) -> (0,1) -> (-1,0) -> (0,-1) -> (1,0)`.
    pub open spec fn spec_rotate(self) -> Heading {
        if self.0.x == 1 && self.0.y == 0 {
            Heading(Vector2 { x: 0, y: 1 })
        } else if self.0.x == 0 && self.0.y == 1 {
            Heading(Vector2 { x: -1i64, y: 0 })
        } else if self.0.x == -1 && self.0.y == 0 {
            Heading(Vector2 { x: 0, y: -1i64 })
        } else {
            Heading(Vector2 { x: 1, y: 0 })
        }
    }

    /// Rotate this heading a quarter turn clockwise. Exhaustive over the four
    /// cardinal values; any other vector is rejected with `InvalidHeading`.
    pub fn rotate_clockwise(self) -> (r: Result<Heading, InvalidHeading>)
        ensures
            r is Ok <==> self.is_cardinal(),
            self.is_cardinal() ==> r == Ok::<Heading, InvalidHeading>(self.spec_rotate()),
            !self.is_cardinal() ==> r == Err::<Heading, InvalidHeading>(
                (InvalidHeading { found: self.0 }),
            ),
    {
        if self.0.x == 1 && self.0.y == 0 {
            Ok(Heading(Vector2 { x: 0, y: 1 }))
        } else if self.0.x == 0 && self.0.y == 1 {
            Ok(Heading(Vector2 { x: -1, y: 0 }))
        } else if self.0.x == -1 && self.0.y == 0 {
            Ok(Heading(Vector2 { x: 0, y: -1 }))
        } else if self.0.x == 0 && self.0.y == -1 {
            Ok(Heading(Vector2 { x: 1, y: 0 }))
        } else {
            Err(InvalidHeading { found: self.0 })
        }
    }
}

/// Law: the clockwise rotation is a cycle of length four. Applying it four
/// times returns any cardinal heading unchanged.
pub proof fn lemma_rotate_cycle(h: Heading)
    requires
        h.is_cardinal(),
    ensures
        h.spec_rotate().spec_rotate().spec_rotate().spec_rotate() == h,
{
}

/// A quarter turn keeps a cardinal heading cardinal.
pub proof fn lemma_rotate_stays_cardinal(h: Heading)
    requires
        h.is_cardinal(),
    ensures
        h.spec_rotate().is_cardinal(),
{
}

} // verus!
