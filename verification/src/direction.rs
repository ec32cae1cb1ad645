//! Headings and the rule that rejects an instant reversal.

use vstd::prelude::*;

verus! {

/// One of the four headings on the grid. The y axis points down the screen.
#[derive(Clone, Copy, Debug, PartialEq, Eq, Structural)]
pub enum Direction {
    Right,
    Left,
    Up,
    Down,
}

impl Direction {
    /// The heading that points the other way.
    pub open spec fn spec_opposite(self) -> Direction {
        match self {
            Direction::Right => Direction::Left,
            Direction::Left => Direction::Right,
            Direction::Up => Direction::Down,
            Direction::Down => Direction::Up,
        }
    }

    /// Horizontal component of the unit vector of this heading.
    pub open spec fn dx(self) -> int {
        match self {
            Direction::Right => 1,
            Direction::Left => -1,
            Direction::Up => 0,
            Direction::Down => 0,
        }
    }

    /// Vertical component of the unit vector of this heading.
    pub open spec fn dy(self) -> int {
        match self {
            Direction::Right => 0,
            Direction::Left => 0,
            Direction::Up => -1,
            Direction::Down => 1,
        }
    }

    /// The heading that points the other way.
    #[verifier::when_used_as_spec(spec_opposite)]
    pub fn opposite(self) -> (reversed: Direction)
        ensures
            reversed == self.spec_opposite(),
    {
        match self {
            Direction::Right => Direction::Left,
            Direction::Left => Direction::Right,
            Direction::Up => Direction::Down,
            Direction::Down => Direction::Up,
        }
    }
}

/// The heading that results when `requested` is asked for while travelling
/// along `current`: the request, unless it is the exact reversal.
pub open spec fn spec_propose_heading(current: Direction, requested: Direction) -> Direction {
    if requested == current.opposite() {
        current
    } else {
        requested
    }
}

/// Validates a requested heading against the current one. A request for the
/// exact opposite of `current` is rejected and `current` is kept; any other
/// request is accepted.
#[verifier::when_used_as_spec(spec_propose_heading)]
pub fn propose_heading(current: Direction, requested: Direction) -> (accepted: Direction)
    ensures
        accepted == spec_propose_heading(current, requested),
        requested == current.opposite() ==> accepted == current,
        requested != current.opposite() ==> accepted == requested,
        accepted != current.opposite(),
{
    if requested == current.opposite() {
        current
    } else {
        requested
    }
}

/// Reversing twice gives the heading back, and no heading is its own reversal.
pub proof fn lemma_opposite_involution(heading: Direction)
    ensures
        heading.opposite().opposite() == heading,
        heading.opposite() != heading,
{
}

/// The unit vectors of a heading and of its reversal cancel.
pub proof fn lemma_opposite_cancels(heading: Direction)
    ensures
        heading.dx() + heading.opposite().dx() == 0,
        heading.dy() + heading.opposite().dy() == 0,
{
}

/// A reversal is always rejected; every other request is always accepted.
pub proof fn lemma_reversal_rejected(current: Direction, requested: Direction)
    ensures
        propose_heading(current, current.opposite()) == current,
        requested != current.opposite() ==> propose_heading(current, requested) == requested,
{
}

/// Whatever is requested, the accepted heading never reverses the current one.
pub proof fn lemma_never_reverses(current: Direction, requested: Direction)
    ensures
        propose_heading(current, requested) != current.opposite(),
{
}

} // verus!
