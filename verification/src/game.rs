//! The game state and the tick that advances it.
//!
//! A tick has two phases, always in this order. The collision phase tests
//! the head against the food; on a match the snake grows behind its head,
//! the food respawns and the score goes up. The movement phase then applies
//! the pending heading and advances the snake by one cell.

use crate::direction::{propose_heading, Direction};
use crate::food::{Bounds, Food};
use crate::grid::{Cell, GridCoordinate};
use crate::score::Score;
use crate::snake::{body_model, BodySegment, ColorTag, SegmentModel, Snake, SnakeModel};
use vstd::prelude::*;

verus! {

/// The number of ticks that the clock fires per second.
pub const TICKS_PER_SECOND: u64 = 8;

/// The mathematical game state.
pub struct GameModel {
    pub snake: SnakeModel,
    pub food: Cell,
    pub eaten: nat,
    /// The heading that the next tick applies.
    pub pending: Direction,
    pub bounds: Bounds,
}

impl GameModel {
    /// What every reachable state satisfies: the snake has a body, the
    /// bounds leave room for food, the pending heading does not reverse the
    /// heading last applied, and every point of the score is matched by a
    /// segment that growth added to the body.
    pub open spec fn wf(self) -> bool {
        &&& self.snake.wf()
        &&& self.bounds.wf()
        &&& self.pending != self.snake.heading.opposite()
        &&& self.eaten < self.snake.body.len()
    }

    /// The state at the start of a game.
    pub open spec fn initial(snake: SnakeModel, food: Cell, bounds: Bounds) -> GameModel {
        GameModel { snake, food, eaten: 0, pending: snake.heading, bounds }
    }

    /// Whether the head lies on the food.
    pub open spec fn consuming(self) -> bool {
        self.snake.head().position == self.food
    }

    /// Whether the cell that the head enters on the next tick can be
    /// addressed.
    pub open spec fn can_step(self) -> bool {
        self.snake.head().position.step(self.pending).addressable()
    }

    /// The state after a directional input: the request is validated against
    /// the heading last applied, and the result becomes the pending heading.
    pub open spec fn press(self, requested: Direction) -> GameModel {
        GameModel { pending: propose_heading(self.snake.heading, requested), ..self }
    }

    /// The collision phase. When the head lies on the food, a marked segment
    /// is inserted behind the head, the food moves to `respawn` and the
    /// score goes up by one; otherwise nothing changes.
    pub open spec fn collide(self, respawn: Cell) -> GameModel {
        if self.consuming() {
            GameModel {
                snake: self.snake.grow_at(1, ColorTag::JustGrew),
                food: respawn,
                eaten: self.eaten + 1,
                ..self
            }
        } else {
            self
        }
    }

    /// The movement phase: the pending heading is applied and the snake
    /// advances by one cell.
    pub open spec fn travel(self) -> GameModel {
        GameModel { snake: self.snake.steer(self.pending).advance(), ..self }
    }

    /// One tick, with `respawn` as the cell to which eaten food moves.
    pub open spec fn step(self, respawn: Cell) -> GameModel {
        self.collide(respawn).travel()
    }

    /// The state after one tick for each cell of `respawns`, in order; the
    /// cell is where food moves if that tick eats it.
    pub open spec fn run(self, respawns: Seq<Cell>) -> GameModel
        decreases respawns.len(),
    {
        if respawns.len() == 0 {
            self
        } else {
            self.run(respawns.drop_last()).step(respawns.last())
        }
    }

    /// The state after the inputs of `presses`, in order, with no tick
    /// between them.
    pub open spec fn pressed(self, presses: Seq<Direction>) -> GameModel
        decreases presses.len(),
    {
        if presses.len() == 0 {
            self
        } else {
            self.pressed(presses.drop_last()).press(presses.last())
        }
    }
}

/// A tick keeps a well-formed state well formed. In particular the body is
/// never empty, whatever the food and the input do.
pub proof fn lemma_step_preserves_wf(game: GameModel, respawn: Cell)
    requires
        game.wf(),
    ensures
        game.step(respawn).wf(),
        game.step(respawn).bounds == game.bounds,
        game.step(respawn).pending == game.pending,
{
}

/// A tick that eats nothing conserves the length of the body, the score and
/// the food.
pub proof fn lemma_step_without_consumption(game: GameModel, respawn: Cell)
    requires
        game.wf(),
        !game.consuming(),
    ensures
        game.step(respawn).snake.body.len() == game.snake.body.len(),
        game.step(respawn).eaten == game.eaten,
        game.step(respawn).food == game.food,
{
}

/// A tick that eats lengthens the body by exactly one segment, raises the
/// score by exactly one and moves the food to the respawn cell.
pub proof fn lemma_step_with_consumption(game: GameModel, respawn: Cell)
    requires
        game.wf(),
        game.consuming(),
    ensures
        game.step(respawn).snake.body.len() == game.snake.body.len() + 1,
        game.step(respawn).eaten == game.eaten + 1,
        game.step(respawn).food == respawn,
{
}

/// Whether or not a tick eats, it moves the head by the unit vector of the
/// pending heading, which thereby becomes the snake's heading.
pub proof fn lemma_step_moves_head(game: GameModel, respawn: Cell)
    requires
        game.wf(),
    ensures
        game.step(respawn).snake.heading == game.pending,
        game.step(respawn).snake.head().position.x == game.snake.head().position.x
            + game.pending.dx(),
        game.step(respawn).snake.head().position.y == game.snake.head().position.y
            + game.pending.dy(),
        game.step(respawn).snake.head().color == ColorTag::Normal,
{
}

/// Input changes the pending heading and nothing else, and keeps a
/// well-formed state well formed.
pub proof fn lemma_presses_touch_only_pending(game: GameModel, presses: Seq<Direction>)
    requires
        game.wf(),
    ensures
        game.pressed(presses).wf(),
        game.pressed(presses) == (GameModel {
            pending: game.pressed(presses).pending,
            ..game
        }),
    decreases presses.len(),
{
    if presses.len() > 0 {
        lemma_presses_touch_only_pending(game, presses.drop_last());
    }
}

/// The heading that a tick applies is never the reversal of the heading that
/// the tick before applied, whatever was pressed in between.
pub proof fn lemma_heading_never_reverses(
    game: GameModel,
    presses: Seq<Direction>,
    respawn: Cell,
)
    requires
        game.wf(),
    ensures
        game.pressed(presses).step(respawn).snake.heading != game.snake.heading.opposite(),
{
    lemma_presses_touch_only_pending(game, presses);
}

/// Where growth shows after a tick that eats: the segment behind the new head
/// is the old head, and the inserted segment follows it on the same cell,
/// carrying the marker, unless the body had a single segment.
pub proof fn lemma_step_marks_growth(game: GameModel, respawn: Cell)
    requires
        game.wf(),
        game.consuming(),
    ensures
        game.step(respawn).snake.body[1] == (SegmentModel {
            position: game.snake.head().position,
            color: ColorTag::Normal,
        }),
        game.snake.body.len() >= 2 ==> game.step(respawn).snake.body[2] == (
        SegmentModel {
            position: game.snake.head().position,
            color: ColorTag::JustGrew,
        }),
{
}

/// Where each segment is after a tick that eats nothing. Every segment but
/// the last moves one place towards the tail and stays on its cell. The
/// segment that was the head takes the normal colour; every other segment,
/// a marked one too, keeps its colour.
pub proof fn lemma_step_shifts_body(game: GameModel, respawn: Cell, index: int)
    requires
        game.wf(),
        !game.consuming(),
        0 <= index < game.snake.body.len() - 1,
    ensures
        game.step(respawn).snake.body[index + 1].position == game.snake.body[index].position,
        game.step(respawn).snake.body[index + 1].color == if index == 0 {
            ColorTag::Normal
        } else {
            game.snake.body[index].color
        },
{
}

/// Over any number of ticks the state stays well formed, and the body
/// gains exactly as many segments as the score gains points.
pub proof fn lemma_run_length_follows_score(game: GameModel, respawns: Seq<Cell>)
    requires
        game.wf(),
    ensures
        game.run(respawns).wf(),
        game.run(respawns).snake.body.len() - game.snake.body.len() == game.run(respawns).eaten
            - game.eaten,
        game.run(respawns).eaten >= game.eaten,
    decreases respawns.len(),
{
    if respawns.len() > 0 {
        let before = game.run(respawns.drop_last());
        lemma_run_length_follows_score(game, respawns.drop_last());
        lemma_step_preserves_wf(before, respawns.last());
        if before.consuming() {
            lemma_step_with_consumption(before, respawns.last());
        } else {
            lemma_step_without_consumption(before, respawns.last());
        }
    }
}

/// What a renderer needs of a state: the segments from head to tail, the
/// cell of the food and the score.
#[derive(Debug)]
pub struct Snapshot {
    pub body: Vec<BodySegment>,
    pub food: GridCoordinate,
    pub score: u64,
}

/// The game state: the snake, the food, the score, the pending heading and
/// the playfield bounds. It alone changes them.
#[derive(Debug)]
pub struct GameState {
    snake: Snake,
    food: Food,
    score: Score,
    pending: Direction,
    bounds: Bounds,
}

impl View for GameState {
    type V = GameModel;

    closed spec fn view(&self) -> GameModel {
        GameModel {
            snake: self.snake@,
            food: self.food@,
            eaten: self.score@,
            pending: self.pending,
            bounds: self.bounds,
        }
    }
}

impl GameState {
    /// Well-formedness of the held state: that of its model.
    pub open spec fn wf(&self) -> bool {
        self@.wf()
    }

    /// A game at its start: the score is zero and the pending heading is the
    /// snake's own.
    pub fn new(snake: Snake, food: Food, bounds: Bounds) -> (game: GameState)
        requires
            snake.wf(),
            bounds.wf(),
        ensures
            game.wf(),
            game@ == GameModel::initial(snake@, food@, bounds),
    {
        let pending = snake.heading();
        GameState { snake, food, score: Score::new(), pending, bounds }
    }

    /// A game at its start inside `bounds`: the starting snake, and food on
    /// a random cell of the playfield, column 0 and row 0 excluded.
    pub fn start(bounds: Bounds) -> (game: GameState)
        requires
            bounds.wf(),
        ensures
            game.wf(),
            game@ == GameModel::initial(SnakeModel::starting(), game@.food, bounds),
            bounds.spawnable(game@.food),
    {
        GameState::new(Snake::starting(), Food::spawn(bounds), bounds)
    }

    /// The snake.
    pub fn snake(&self) -> (snake: &Snake)
        ensures
            snake@ == self@.snake,
    {
        &self.snake
    }

    /// The cell on which the food lies.
    pub fn food(&self) -> (cell: GridCoordinate)
        ensures
            cell@ == self@.food,
    {
        self.food.position()
    }

    /// The number of times the snake has eaten.
    pub fn score(&self) -> (eaten: u64)
        ensures
            eaten == self@.eaten,
    {
        self.score.eaten()
    }

    /// The heading that the next tick applies.
    pub fn pending_heading(&self) -> (heading: Direction)
        ensures
            heading == self@.pending,
    {
        self.pending
    }

    /// The playfield bounds.
    pub fn bounds(&self) -> (bounds: Bounds)
        ensures
            bounds == self@.bounds,
    {
        self.bounds
    }

    /// The state as a renderer sees it.
    pub fn snapshot(&self) -> (shot: Snapshot)
        ensures
            body_model(shot.body@) == self@.snake.body,
            shot.food@ == self@.food,
            shot.score == self@.eaten,
    {
        Snapshot {
            body: self.snake.segments(),
            food: self.food.position(),
            score: self.score.eaten(),
        }
    }

    /// Handles a directional input. The request is validated against the
    /// heading last applied; the result is what the next tick applies.
    /// Nothing but the pending heading changes.
    pub fn press(&mut self, requested: Direction)
        ensures
            final(self)@ == old(self)@.press(requested),
            final(self)@.pending != old(self)@.snake.heading.opposite(),
            old(self).wf() ==> final(self).wf(),
    {
        self.pending = propose_heading(self.snake.heading(), requested);
    }

    /// Whether a tick may run: the state is well formed and the cell in
    /// front of the head can be addressed.
    pub fn can_tick(&self) -> (ok: bool)
        ensures
            ok == (self.wf() && self@.can_step()),
    {
        let length: usize = self.snake.len();
        if length == 0 || !self.bounds.admits_food() {
            return false;
        }
        if self.pending == self.snake.heading().opposite() {
            return false;
        }
        if self.score.eaten() >= length as u64 {
            return false;
        }
        self.snake.head().position.checked_step(self.pending).is_some()
    }

    /// The collision phase with a given respawn cell.
    fn collide_with(&mut self, respawn: GridCoordinate)
        requires
            old(self).wf(),
        ensures
            final(self).wf(),
            final(self)@ == old(self)@.collide(respawn@),
    {
        if self.food.check_consumption(self.snake.head().position) {
            proof {
                self.snake.lemma_len_fits();
            }
            self.snake.grow_at(1, ColorTag::JustGrew);
            self.food.relocate(respawn);
            self.score.record_consumption();
        }
    }

    /// The collision phase with a random respawn cell.
    fn collide(&mut self)
        requires
            old(self).wf(),
        ensures
            final(self).wf(),
            final(self)@ == old(self)@.collide(final(self)@.food),
            old(self)@.consuming() ==> old(self)@.bounds.spawnable(final(self)@.food),
    {
        if self.food.check_consumption(self.snake.head().position) {
            proof {
                self.snake.lemma_len_fits();
            }
            self.snake.grow_at(1, ColorTag::JustGrew);
            self.food.respawn(self.bounds);
            self.score.record_consumption();
        }
    }

    /// The movement phase.
    fn travel(&mut self)
        requires
            old(self).wf(),
            old(self)@.can_step(),
        ensures
            final(self).wf(),
            final(self)@ == old(self)@.travel(),
    {
        self.snake.steer(self.pending);
        self.snake.advance();
    }

    /// Runs one tick in which eaten food moves to `respawn`.
    pub fn tick_with(&mut self, respawn: GridCoordinate)
        requires
            old(self).wf(),
            old(self)@.can_step(),
        ensures
            final(self).wf(),
            final(self)@ == old(self)@.step(respawn@),
            old(self)@.consuming() ==> (final(self)@.snake.body.len()
                == old(self)@.snake.body.len() + 1
                && final(self)@.eaten == old(self)@.eaten + 1),
            !old(self)@.consuming() ==> (final(self)@.snake.body.len()
                == old(self)@.snake.body.len()
                && final(self)@.eaten == old(self)@.eaten
                && final(self)@.food == old(self)@.food),
            final(self)@.snake.head().position == old(self)@.snake.head().position.step(
                old(self)@.pending,
            ),
            final(self)@.snake.heading == old(self)@.pending,
            final(self)@.snake.heading != old(self)@.snake.heading.opposite(),
    {
        self.collide_with(respawn);
        self.travel();
    }

    /// Runs one tick. Eaten food respawns on a random cell of the playfield,
    /// column 0 and row 0 excluded.
    pub fn tick(&mut self)
        requires
            old(self).wf(),
            old(self)@.can_step(),
        ensures
            final(self).wf(),
            final(self)@ == old(self)@.step(final(self)@.food),
            old(self)@.consuming() ==> old(self)@.bounds.spawnable(final(self)@.food),
            old(self)@.consuming() ==> (final(self)@.snake.body.len()
                == old(self)@.snake.body.len() + 1
                && final(self)@.eaten == old(self)@.eaten + 1),
            !old(self)@.consuming() ==> (final(self)@.snake.body.len()
                == old(self)@.snake.body.len()
                && final(self)@.eaten == old(self)@.eaten
                && final(self)@.food == old(self)@.food),
            final(self)@.snake.head().position == old(self)@.snake.head().position.step(
                old(self)@.pending,
            ),
            final(self)@.snake.heading == old(self)@.pending,
            final(self)@.snake.heading != old(self)@.snake.heading.opposite(),
    {
        self.collide();
        self.travel();
    }
}

} // verus!
