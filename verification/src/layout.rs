//! Where a state goes on the screen, in whole pixels: one square per body
//! segment, one for the food, and the score label.

use crate::food::{Bounds, CELL_SIZE};
use crate::game::Snapshot;
use crate::grid::GridCoordinate;
use crate::snake::{BodySegment, ColorTag};
use vstd::prelude::*;

verus! {

/// The side of the square drawn for a body segment.
pub const SNAKE_SIZE: u32 = 20;

/// The side of the square drawn for the food.
pub const FOOD_SIZE: u32 = 10;

/// The height of the score label's type, which is also the width allowed
/// for each of its characters.
pub const FONT_SIZE: u32 = 20;

/// A square on the screen: its top left corner and its side.
#[derive(Clone, Copy, Debug, PartialEq, Eq, Structural)]
pub struct Square {
    pub x: i64,
    pub y: i64,
    pub side: u32,
}

/// A square and the colour class in which to fill it.
#[derive(Clone, Copy, Debug, PartialEq, Eq, Structural)]
pub struct Sprite {
    pub square: Square,
    pub color: ColorTag,
}

/// Everything that one frame shows.
#[derive(Debug)]
pub struct Frame {
    /// The body, head first.
    pub snake: Vec<Sprite>,
    pub food: Square,
    pub label: String,
    /// The corner at which the label starts.
    pub label_x: i64,
    pub label_y: i64,
}

/// The square of side `side` whose corner is that of `cell`.
pub open spec fn spec_square_at(cell: GridCoordinate, side: u32) -> Square {
    Square { x: (cell.x * CELL_SIZE) as i64, y: (cell.y * CELL_SIZE) as i64, side }
}

/// The sprite of a body segment.
pub open spec fn spec_sprite_of(segment: BodySegment) -> Sprite {
    Sprite { square: spec_square_at(segment.position, SNAKE_SIZE), color: segment.color }
}

/// The character of one decimal digit.
pub open spec fn digit(value: nat) -> char {
    if value == 0 {
        '0'
    } else if value == 1 {
        '1'
    } else if value == 2 {
        '2'
    } else if value == 3 {
        '3'
    } else if value == 4 {
        '4'
    } else if value == 5 {
        '5'
    } else if value == 6 {
        '6'
    } else if value == 7 {
        '7'
    } else if value == 8 {
        '8'
    } else {
        '9'
    }
}

/// The decimal numeral of `n`: most significant digit first, no leading
/// zero.
pub open spec fn decimal(n: nat) -> Seq<char>
    decreases n,
{
    if n < 10 {
        seq![digit(n)]
    } else {
        decimal(n / 10).push(digit(n % 10))
    }
}

/// The text of the score label.
pub open spec fn label_text(eaten: nat) -> Seq<char> {
    "Points: "@ + decimal(eaten)
}

/// Ten to the power `exponent`.
pub open spec fn power_of_ten(exponent: nat) -> nat
    decreases exponent,
{
    if exponent == 0 {
        1
    } else {
        10 * power_of_ten((exponent - 1) as nat)
    }
}

/// A number below ten to the `digits` has at most `digits` digits.
pub proof fn lemma_decimal_len_bound(n: nat, digits: nat)
    requires
        digits >= 1,
        n < power_of_ten(digits),
    ensures
        1 <= decimal(n).len() <= digits,
    decreases digits,
{
    if n >= 10 {
        assert(power_of_ten(1) == 10) by {
            reveal_with_fuel(power_of_ten, 2);
        }
        lemma_decimal_len_bound(n / 10, (digits - 1) as nat);
    }
}

/// No `u64` has more than twenty digits.
pub proof fn lemma_decimal_len_u64(n: u64)
    ensures
        1 <= decimal(n as nat).len() <= 20,
{
    assert(power_of_ten(20) == 100_000_000_000_000_000_000nat) by {
        reveal_with_fuel(power_of_ten, 21);
    }
    lemma_decimal_len_bound(n as nat, 20);
}

/// The square of side `side` whose corner is that of `cell`: each cell is
/// `CELL_SIZE` pixels wide and high.
#[verifier::when_used_as_spec(spec_square_at)]
pub fn square_at(cell: GridCoordinate, side: u32) -> (square: Square)
    ensures
        square == spec_square_at(cell, side),
        square.x == cell.x * CELL_SIZE,
        square.y == cell.y * CELL_SIZE,
        square.side == side,
{
    Square { x: cell.x as i64 * CELL_SIZE as i64, y: cell.y as i64 * CELL_SIZE as i64, side }
}

/// The sprites of a body, in the order of its segments.
pub fn snake_sprites(body: &Vec<BodySegment>) -> (sprites: Vec<Sprite>)
    ensures
        sprites@ == body@.map_values(|segment: BodySegment| spec_sprite_of(segment)),
{
    let mut sprites: Vec<Sprite> = Vec::new();
    let mut index: usize = 0;
    while index < body.len()
        invariant
            index <= body.len(),
            sprites@ == body@.subrange(0, index as int).map_values(
                |segment: BodySegment| spec_sprite_of(segment),
            ),
        decreases body.len() - index,
    {
        let segment: BodySegment = body[index];
        sprites.push(Sprite { square: square_at(segment.position, SNAKE_SIZE), color: segment.color });
        index = index + 1;
        proof {
            assert(sprites@ =~= body@.subrange(0, index as int).map_values(
                |segment: BodySegment| spec_sprite_of(segment),
            ));
        }
    }
    proof {
        assert(body@.subrange(0, index as int) =~= body@);
    }
    sprites
}

/// The text of one decimal digit.
fn digit_text(value: u64) -> (text: &'static str)
    requires
        value < 10,
    ensures
        text@ == seq![digit(value as nat)],
{
    proof {
        reveal_strlit("0");
        reveal_strlit("1");
        reveal_strlit("2");
        reveal_strlit("3");
        reveal_strlit("4");
        reveal_strlit("5");
        reveal_strlit("6");
        reveal_strlit("7");
        reveal_strlit("8");
        reveal_strlit("9");
    }
    let text = match value {
        0 => "0",
        1 => "1",
        2 => "2",
        3 => "3",
        4 => "4",
        5 => "5",
        6 => "6",
        7 => "7",
        8 => "8",
        _ => "9",
    };
    proof {
        assert(text@ =~= seq![digit(value as nat)]);
    }
    text
}

/// The decimal numeral of `n`.
pub fn decimal_string(n: u64) -> (numeral: String)
    ensures
        numeral@ == decimal(n as nat),
    decreases n,
{
    if n < 10 {
        digit_text(n).to_owned()
    } else {
        let mut numeral = decimal_string(n / 10);
        numeral.append(digit_text(n % 10));
        numeral
    }
}

/// The number of digits of the decimal numeral of `n`.
pub fn decimal_len(n: u64) -> (count: u32)
    ensures
        count == decimal(n as nat).len(),
        1 <= count <= 20,
{
    let mut rest: u64 = n;
    let mut count: u32 = 1;
    proof {
        lemma_decimal_len_u64(n);
    }
    while rest >= 10
        invariant
            count >= 1,
            decimal(n as nat).len() == decimal(rest as nat).len() + count - 1,
            decimal(n as nat).len() <= 20,
        decreases rest,
    {
        rest = rest / 10;
        count = count + 1;
    }
    count
}

/// The score label: the word `Points`, a colon, a space and the score
/// in decimal.
pub fn score_label(eaten: u64) -> (label: String)
    ensures
        label@ == label_text(eaten as nat),
{
    let mut label = "Points: ".to_owned();
    let numeral = decimal_string(eaten);
    label.append(numeral.as_str());
    label
}

/// The number of characters of the score label.
pub fn score_label_len(eaten: u64) -> (length: u32)
    ensures
        length == label_text(eaten as nat).len(),
{
    proof {
        reveal_strlit("Points: ");
    }
    8 + decimal_len(eaten)
}

/// The corner at which a label of `length` characters starts so that it
/// ends at the right edge of a playfield `width` wide: each character is
/// allowed `FONT_SIZE` pixels, and the label sits `FONT_SIZE` below the top.
pub fn label_origin(width: u32, length: u32) -> (corner: (i64, i64))
    ensures
        corner.0 == width - FONT_SIZE * length,
        corner.1 == FONT_SIZE,
{
    (width as i64 - FONT_SIZE as i64 * length as i64, FONT_SIZE as i64)
}

/// Lays out one frame of a state inside `bounds`.
pub fn compose(shot: &Snapshot, bounds: Bounds) -> (frame: Frame)
    ensures
        frame.snake@ == shot.body@.map_values(|segment: BodySegment| spec_sprite_of(segment)),
        frame.food == spec_square_at(shot.food, FOOD_SIZE),
        frame.label@ == label_text(shot.score as nat),
        frame.label_x == bounds.width - FONT_SIZE * label_text(shot.score as nat).len(),
        frame.label_y == FONT_SIZE,
{
    let corner = label_origin(bounds.width, score_label_len(shot.score));
    Frame {
        snake: snake_sprites(&shot.body),
        food: square_at(shot.food, FOOD_SIZE),
        label: score_label(shot.score),
        label_x: corner.0,
        label_y: corner.1,
    }
}

} // verus!
