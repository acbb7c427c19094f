//! Body geometry: unit body cells at fixed-point 2-D positions, adjacency
//! testing, and blueprint validation for proposed offspring shapes.

use vstd::prelude::*;

verus! {

/// Two positions are adjacent when their Euclidean distance is strictly less
/// than 1.5 units; squared and in fixed-point, the threshold is
/// `(3 * UNIT / 2)^2`.
pub const ADJACENCY_THRESHOLD_SQ: i128 = 2_250_000;

/// A 2-D position in fixed-point units ([`crate::num::UNIT`] subdivisions per
/// unit).
#[derive(Debug, PartialEq, Eq, Structural, Clone, Copy)]
pub struct Vec2 {
    pub x: i64,
    pub y: i64,
}

/// A 2-D displacement or location on the whole-unit grid.
#[derive(Debug, PartialEq, Eq, Structural, Clone, Copy)]
pub struct GridVec2 {
    pub x: isize,
    pub y: isize,
}

/// A single body cell: a position in continuous (fixed-point) space,
/// immutable once placed and compared by value.
#[derive(Debug, PartialEq, Eq, Structural, Clone, Copy)]
pub struct BodySquare {
    pub position: Vec2,
}

/// An ordered sequence of body cells; insertion order gives the positional
/// correspondence between the squares of successive body states.
#[derive(Debug, PartialEq)]
pub struct Body {
    squares: Vec<BodySquare>,
}

impl View for Body {
    type V = Seq<BodySquare>;

    closed spec fn view(&self) -> Seq<BodySquare> {
        self.squares@
    }
}

/// The two positions lie strictly within 1.5 units of each other.
pub open spec fn close(a: Vec2, b: Vec2) -> bool {
    let dx = b.x - a.x;
    let dy = b.y - a.y;
    dx * dx + dy * dy < ADJACENCY_THRESHOLD_SQ as int
}

/// `sq` is adjacent to at least one square of `body`.
pub open spec fn square_adjacent_to(body: Seq<BodySquare>, sq: BodySquare) -> bool {
    exists|j: int| 0 <= j < body.len() && close(body[j].position, sq.position)
}

/// Every proposed square is adjacent to some square of `body`; vacuously true
/// for an empty proposal.
pub open spec fn blueprint_ok(body: Seq<BodySquare>, proposed: Seq<BodySquare>) -> bool {
    forall|i: int| 0 <= i < proposed.len() ==> square_adjacent_to(body, #[trigger] proposed[i])
}

/// Whether the two positions are strictly within 1.5 units of each other.
fn positions_close(a: Vec2, b: Vec2) -> (r: bool)
    ensures
        r == close(a, b),
{
    let dx: i128 = b.x as i128 - a.x as i128;
    let dy: i128 = b.y as i128 - a.y as i128;
    if dx >= 1500 || dx <= -1500 || dy >= 1500 || dy <= -1500 {
        proof {
            assert(dx * dx + dy * dy >= ADJACENCY_THRESHOLD_SQ as int) by (nonlinear_arith)
                requires
                    dx >= 1500 || dx <= -1500 || dy >= 1500 || dy <= -1500,
            ;
        }
        false
    } else {
        proof {
            assert(0 <= dx * dx < ADJACENCY_THRESHOLD_SQ as int && 0 <= dy * dy
                < ADJACENCY_THRESHOLD_SQ as int) by (nonlinear_arith)
                requires
                    -1500 < dx < 1500,
                    -1500 < dy < 1500,
            ;
        }
        dx * dx + dy * dy < ADJACENCY_THRESHOLD_SQ
    }
}

impl Body {
    /// An empty body.
    pub fn new() -> (b: Self)
        ensures
            b@ =~= Seq::<BodySquare>::empty(),
    {
        Self { squares: Vec::new() }
    }

    /// Appends a square; no validation is performed.
    pub fn add_square(&mut self, square: BodySquare)
        ensures
            final(self)@ == old(self)@.push(square),
    {
        self.squares.push(square);
    }

    /// The number of squares in this body.
    pub fn square_count(&self) -> (n: usize)
        ensures
            n == self@.len(),
    {
        self.squares.len()
    }

    /// The square at position `i` in insertion order.
    pub fn square_at(&self, i: usize) -> (s: BodySquare)
        requires
            i < self@.len(),
        ensures
            s == self@[i as int],
    {
        self.squares[i]
    }

    /// The squares of this body, in insertion order.
    pub fn squares(&self) -> (s: &[BodySquare])
        ensures
            s@ == self@,
    {
        self.squares.as_slice()
    }

    /// True iff every proposed square is adjacent (Euclidean distance strictly
    /// less than 1.5 units) to at least one square of this body. Vacuously
    /// true for an empty proposal.
    pub fn check_blueprint_validity(&self, proposed_squares: &[BodySquare]) -> (r: bool)
        ensures
            r == blueprint_ok(self@, proposed_squares@),
    {
        let n: usize = proposed_squares.len();
        let mut i: usize = 0;
        while i < n
            invariant
                n == proposed_squares@.len(),
                i <= n,
                forall|k: int|
                    0 <= k < i ==> square_adjacent_to(self@, #[trigger] proposed_squares@[k]),
            decreases n - i,
        {
            if !self.is_adjacent(&proposed_squares[i]) {
                return false;
            }
            i = i + 1;
        }
        true
    }

    /// True iff `square` is strictly within 1.5 units of some square of this
    /// body.
    pub fn is_adjacent(&self, square: &BodySquare) -> (r: bool)
        ensures
            r == square_adjacent_to(self@, *square),
    {
        let n: usize = self.squares.len();
        let mut j: usize = 0;
        while j < n
            invariant
                n == self@.len(),
                j <= n,
                forall|k: int| 0 <= k < j ==> !close(self@[k].position, square.position),
            decreases n - j,
        {
            if positions_close(self.squares[j].position, square.position) {
                return true;
            }
            j = j + 1;
        }
        false
    }
}

impl Clone for Body {
    /// A deep copy with the same squares in the same order.
    fn clone(&self) -> (r: Self)
        ensures
            r@ == self@,
    {
        let n: usize = self.squares.len();
        let mut squares: Vec<BodySquare> = Vec::new();
        let mut i: usize = 0;
        while i < n
            invariant
                n == self@.len(),
                i <= n,
                squares@ =~= self@.take(i as int),
            decreases n - i,
        {
            squares.push(self.squares[i]);
            proof {
                assert(squares@ =~= self@.take(i + 1 as int));
            }
            i = i + 1;
        }
        proof {
            assert(squares@ =~= self@);
        }
        Self { squares }
    }
}

} // verus!
