//! The snake: an ordered, never empty body of segments and a heading.

use crate::direction::{propose_heading, Direction};
use crate::grid::{lemma_view_injective, Cell, GridCoordinate};
use vstd::prelude::*;

verus! {

/// The colour class of a body segment.
#[derive(Clone, Copy, Debug, PartialEq, Eq, Structural)]
pub enum ColorTag {
    /// The ordinary body colour.
    Normal,
    /// The transient marker of a segment that growth has just inserted.
    JustGrew,
}

/// One segment of the body.
#[derive(Clone, Copy, Debug, PartialEq, Eq, Structural)]
pub struct BodySegment {
    pub position: GridCoordinate,
    pub color: ColorTag,
}

/// A segment on the mathematical grid.
pub struct SegmentModel {
    pub position: Cell,
    pub color: ColorTag,
}

impl View for BodySegment {
    type V = SegmentModel;

    open spec fn view(&self) -> SegmentModel {
        SegmentModel { position: self.position@, color: self.color }
    }
}

/// The models of a run of segments, in the same order.
pub open spec fn body_model(segments: Seq<BodySegment>) -> Seq<SegmentModel> {
    segments.map_values(|segment: BodySegment| segment@)
}

/// The model of a body determines the body: runs of segments with the same
/// models are the same.
pub proof fn lemma_body_model_injective(a: Seq<BodySegment>, b: Seq<BodySegment>)
    requires
        body_model(a) == body_model(b),
    ensures
        a == b,
{
    assert(a.len() == body_model(a).len());
    assert(b.len() == body_model(b).len());
    assert forall|i: int| 0 <= i < a.len() implies a[i] == b[i] by {
        assert(body_model(a)[i] == a[i]@);
        assert(body_model(b)[i] == b[i]@);
        lemma_view_injective(a[i].position, b[i].position);
    }
    assert(a =~= b);
}

/// The one failure of the simulation core: a snake without a body.
#[derive(Clone, Copy, Debug, PartialEq, Eq, Structural)]
pub enum InvariantViolation {
    /// A snake was to be built from no segments at all.
    EmptyBody,
}

/// The mathematical snake: its segments from head to tail, and its heading.
pub struct SnakeModel {
    pub body: Seq<SegmentModel>,
    pub heading: Direction,
}

impl SnakeModel {
    /// A snake has at least one segment; the first one is the head.
    pub open spec fn wf(self) -> bool {
        self.body.len() >= 1
    }

    /// The first segment.
    pub open spec fn head(self) -> SegmentModel {
        self.body[0]
    }

    /// The snake at the start of a game.
    pub open spec fn starting() -> SnakeModel {
        SnakeModel {
            body: seq![
                SegmentModel { position: Cell { x: 0, y: 0 }, color: ColorTag::Normal },
                SegmentModel { position: Cell { x: 1, y: 0 }, color: ColorTag::Normal },
                SegmentModel { position: Cell { x: 2, y: 0 }, color: ColorTag::Normal },
            ],
            heading: Direction::Right,
        }
    }

    /// The cell that the head enters on the next advance.
    pub open spec fn next_head(self) -> Cell {
        self.head().position.step(self.heading)
    }

    /// The snake after `requested` was proposed as its heading.
    pub open spec fn steer(self, requested: Direction) -> SnakeModel {
        SnakeModel { body: self.body, heading: propose_heading(self.heading, requested) }
    }

    /// The snake with one more segment at `index`, placed on the head's cell
    /// and carrying `color`.
    pub open spec fn grow_at(self, index: int, color: ColorTag) -> SnakeModel {
        SnakeModel {
            body: self.body.insert(index, SegmentModel { position: self.head().position, color }),
            heading: self.heading,
        }
    }

    /// The snake one step later: a new head in the normal colour enters the
    /// next cell, the previous head settles into the normal colour, and the
    /// last segment leaves.
    pub open spec fn advance(self) -> SnakeModel {
        let entering = SegmentModel { position: self.next_head(), color: ColorTag::Normal };
        let settled = SegmentModel { position: self.head().position, color: ColorTag::Normal };
        SnakeModel {
            body: seq![entering] + self.body.update(0, settled).drop_last(),
            heading: self.heading,
        }
    }
}

/// Advancing conserves the number of segments, so a snake with a body keeps
/// one, and leaves the heading as it is.
pub proof fn lemma_advance_conserves_length(snake: SnakeModel)
    requires
        snake.wf(),
    ensures
        snake.advance().wf(),
        snake.advance().body.len() == snake.body.len(),
        snake.advance().heading == snake.heading,
{
}

/// Advancing moves the head by the unit vector of the heading, and the new
/// head carries the normal colour.
pub proof fn lemma_advance_moves_head(snake: SnakeModel)
    requires
        snake.wf(),
    ensures
        snake.advance().head().position.x == snake.head().position.x + snake.heading.dx(),
        snake.advance().head().position.y == snake.head().position.y + snake.heading.dy(),
        snake.advance().head().color == ColorTag::Normal,
{
}

/// Growth adds exactly one segment, on the head's cell and in the given
/// colour, and shifts no segment in front of it. Behind the head it leaves
/// the head as it is.
pub proof fn lemma_grow_adds_one_segment(snake: SnakeModel, index: int, color: ColorTag)
    requires
        snake.wf(),
        0 <= index <= snake.body.len(),
    ensures
        snake.grow_at(index, color).wf(),
        snake.grow_at(index, color).body.len() == snake.body.len() + 1,
        snake.grow_at(index, color).body[index] == (SegmentModel {
            position: snake.head().position,
            color,
        }),
        forall|i: int| 0 <= i < index ==> snake.grow_at(index, color).body[i] == snake.body[i],
        forall|i: int|
            index <= i < snake.body.len() ==> snake.grow_at(index, color).body[i + 1]
                == snake.body[i],
{
}

/// Where each segment is after an advance. Every segment but the last moves
/// one place towards the tail and stays on its cell. The segment that was the
/// head takes the normal colour; every other segment keeps its colour.
pub proof fn lemma_segment_after_advance(snake: SnakeModel, index: int)
    requires
        snake.wf(),
        0 <= index < snake.body.len() - 1,
    ensures
        snake.advance().body[index + 1].position == snake.body[index].position,
        snake.advance().body[index + 1].color == if index == 0 {
            ColorTag::Normal
        } else {
            snake.body[index].color
        },
{
}

/// A marker on the head lasts for exactly one step: after the advance
/// neither the new head nor the segment that was the head carries it.
pub proof fn lemma_head_marker_decays(snake: SnakeModel)
    requires
        snake.wf(),
        snake.head().color == ColorTag::JustGrew,
    ensures
        snake.advance().head().color == ColorTag::Normal,
        snake.body.len() >= 2 ==> snake.advance().body[1] == (SegmentModel {
            position: snake.head().position,
            color: ColorTag::Normal,
        }),
{
}

/// An advance creates no marker: a segment that carries one afterwards
/// carried it before, one place nearer the head, and was not the head.
pub proof fn lemma_advance_creates_no_marker(snake: SnakeModel, index: int)
    requires
        snake.wf(),
        0 <= index < snake.body.len(),
        snake.advance().body[index].color == ColorTag::JustGrew,
    ensures
        index >= 2,
        snake.body[index - 1].color == ColorTag::JustGrew,
{
}

/// Steering never reverses the snake and never touches its body.
pub proof fn lemma_steer_never_reverses(snake: SnakeModel, requested: Direction)
    ensures
        snake.steer(requested).heading != snake.heading.opposite(),
        snake.steer(requested).body == snake.body,
{
}

/// The snake as the game holds it.
#[derive(Debug)]
pub struct Snake {
    body: Vec<BodySegment>,
    heading: Direction,
}

impl View for Snake {
    type V = SnakeModel;

    closed spec fn view(&self) -> SnakeModel {
        SnakeModel { body: body_model(self.body@), heading: self.heading }
    }
}

impl Snake {
    /// Well-formedness of the held snake: that of its model.
    pub open spec fn wf(&self) -> bool {
        self@.wf()
    }

    /// The body is held in memory, so its length is a machine integer.
    pub proof fn lemma_len_fits(&self)
        ensures
            self@.body.len() <= usize::MAX,
    {
        assert(self@.body.len() == self.body.len());
    }

    /// Builds a snake from its segments, head first. An empty body is
    /// refused.
    pub fn new(body: Vec<BodySegment>, heading: Direction) -> (made: Result<
        Snake,
        InvariantViolation,
    >)
        ensures
            made is Err <==> body@.len() == 0,
            made matches Ok(snake) ==> snake.wf() && snake@ == (SnakeModel {
                body: body_model(body@),
                heading,
            }),
    {
        if body.len() == 0 {
            Err(InvariantViolation::EmptyBody)
        } else {
            Ok(Snake { body, heading })
        }
    }

    /// The snake at the start of a game: three segments in the normal colour
    /// along row 0, the head in the corner cell, heading right.
    pub fn starting() -> (snake: Snake)
        ensures
            snake.wf(),
            snake@ == SnakeModel::starting(),
    {
        let mut body: Vec<BodySegment> = Vec::new();
        body.push(BodySegment { position: GridCoordinate { x: 0, y: 0 }, color: ColorTag::Normal });
        body.push(BodySegment { position: GridCoordinate { x: 1, y: 0 }, color: ColorTag::Normal });
        body.push(BodySegment { position: GridCoordinate { x: 2, y: 0 }, color: ColorTag::Normal });
        let snake = Snake { body, heading: Direction::Right };
        proof {
            assert(snake@.body =~= SnakeModel::starting().body);
        }
        snake
    }

    /// The number of segments.
    pub fn len(&self) -> (count: usize)
        ensures
            count == self@.body.len(),
    {
        self.body.len()
    }

    /// The head segment.
    pub fn head(&self) -> (segment: BodySegment)
        requires
            self.wf(),
        ensures
            segment@ == self@.head(),
    {
        self.body[0]
    }

    /// The segment at `index`, counted from the head, if there is one.
    pub fn segment(&self, index: usize) -> (found: Option<BodySegment>)
        ensures
            found is Some <==> index < self@.body.len(),
            found matches Some(segment) ==> segment@ == self@.body[index as int],
    {
        if index < self.body.len() {
            Some(self.body[index])
        } else {
            None
        }
    }

    /// A copy of the segments, head first.
    pub fn segments(&self) -> (copy: Vec<BodySegment>)
        ensures
            body_model(copy@) == self@.body,
    {
        let mut copy: Vec<BodySegment> = Vec::new();
        let mut index: usize = 0;
        while index < self.body.len()
            invariant
                index <= self.body.len(),
                copy@ == self.body@.subrange(0, index as int),
            decreases self.body.len() - index,
        {
            copy.push(self.body[index]);
            index = index + 1;
        }
        proof {
            assert(copy@ =~= self.body@);
        }
        copy
    }

    /// The heading along which the snake last moved, or will move next.
    pub fn heading(&self) -> (heading: Direction)
        ensures
            heading == self@.heading,
    {
        self.heading
    }

    /// Proposes `requested` as the heading; an exact reversal is ignored.
    pub fn steer(&mut self, requested: Direction)
        ensures
            final(self)@ == old(self)@.steer(requested),
    {
        self.heading = propose_heading(self.heading, requested);
    }

    /// Inserts a segment at `index`, on the head's cell and carrying `color`.
    /// No segment leaves, so the body is one longer afterwards.
    pub fn grow_at(&mut self, index: usize, color: ColorTag)
        requires
            old(self).wf(),
            index <= old(self)@.body.len(),
        ensures
            final(self).wf(),
            final(self)@ == old(self)@.grow_at(index as int, color),
            final(self)@.body.len() == old(self)@.body.len() + 1,
    {
        let position: GridCoordinate = self.body[0].position;
        let segment = BodySegment { position, color };
        self.body.insert(index, segment);
        proof {
            assert(self@.body =~= old(self)@.grow_at(index as int, color).body);
        }
    }

    /// Whether `advance` may be called: the snake has a body and the cell in
    /// front of the head can be addressed.
    pub fn can_advance(&self) -> (ok: bool)
        ensures
            ok == (self.wf() && self@.next_head().addressable()),
    {
        if self.body.len() == 0 {
            false
        } else {
            self.body[0].position.checked_step(self.heading).is_some()
        }
    }

    /// Moves the snake one cell along its heading. A marker on the head is
    /// cleared, a new head in the normal colour is put in front, and the last
    /// segment is removed.
    pub fn advance(&mut self)
        requires
            old(self).wf(),
            old(self)@.next_head().addressable(),
        ensures
            final(self).wf(),
            final(self)@ == old(self)@.advance(),
            final(self)@.body.len() == old(self)@.body.len(),
            final(self)@.head().position == old(self)@.head().position.step(old(self)@.heading),
    {
        let head: BodySegment = self.body[0];
        let entering = BodySegment {
            position: head.position.step(self.heading),
            color: ColorTag::Normal,
        };
        if head.color == ColorTag::JustGrew {
            self.body[0].color = ColorTag::Normal;
        }
        self.body.insert(0, entering);
        self.body.pop();
        proof {
            assert(self@.body =~= old(self)@.advance().body);
        }
    }
}

} // verus!
