use snake_game::food::Bounds;
use snake_game::game::Snapshot;
use snake_game::grid::GridCoordinate;
use snake_game::layout::{
    compose, decimal_len, decimal_string, label_origin, score_label, score_label_len, snake_sprites,
    square_at, Sprite, Square,
    FONT_SIZE, FOOD_SIZE, SNAKE_SIZE,
};
use snake_game::snake::{BodySegment, ColorTag};

#[test]
fn sizes_are_twenty_ten_and_twenty() {
    assert_eq!(SNAKE_SIZE, 20);
    assert_eq!(FOOD_SIZE, 10);
    assert_eq!(FONT_SIZE, 20);
}

#[test]
fn square_at_scales_the_cell_by_twenty() {
    assert_eq!(square_at(GridCoordinate { x: 3, y: 7 }, 20), Square { x: 60, y: 140, side: 20 });
    assert_eq!(square_at(GridCoordinate { x: 0, y: 0 }, 10), Square { x: 0, y: 0, side: 10 });
    assert_eq!(square_at(GridCoordinate { x: -2, y: 1 }, 5), Square { x: -40, y: 20, side: 5 });
}

#[test]
fn square_at_does_not_overflow_at_the_end_of_the_range() {
    assert_eq!(
        square_at(GridCoordinate { x: i32::MAX, y: i32::MIN }, 20),
        Square { x: 42_949_672_940, y: -42_949_672_960, side: 20 }
    );
}

#[test]
fn snake_sprites_keep_order_and_colour() {
    let body = vec![
        BodySegment { position: GridCoordinate { x: 3, y: 0 }, color: ColorTag::Normal },
        BodySegment { position: GridCoordinate { x: 2, y: 0 }, color: ColorTag::JustGrew },
    ];
    assert_eq!(
        snake_sprites(&body),
        vec![
            Sprite { square: Square { x: 60, y: 0, side: 20 }, color: ColorTag::Normal },
            Sprite { square: Square { x: 40, y: 0, side: 20 }, color: ColorTag::JustGrew },
        ]
    );
    assert_eq!(snake_sprites(&vec![]), vec![]);
}

#[test]
fn score_label_is_the_word_and_the_decimal_score() {
    assert_eq!(score_label(0), "Points: 0");
    assert_eq!(score_label(7), "Points: 7");
    assert_eq!(score_label(12), "Points: 12");
    assert_eq!(score_label(1000), "Points: 1000");
    assert_eq!(score_label(u64::MAX), "Points: 18446744073709551615");
}

#[test]
fn decimal_len_counts_digits() {
    assert_eq!(decimal_len(0), 1);
    assert_eq!(decimal_len(9), 1);
    assert_eq!(decimal_len(10), 2);
    assert_eq!(decimal_len(99), 2);
    assert_eq!(decimal_len(100), 3);
    assert_eq!(decimal_len(u64::MAX), 20);
}

#[test]
fn decimal_string_is_the_decimal_numeral() {
    assert_eq!(decimal_string(0), "0");
    assert_eq!(decimal_string(9), "9");
    assert_eq!(decimal_string(10), "10");
    assert_eq!(decimal_string(1234567890), "1234567890");
    assert_eq!(decimal_string(909), "909");
    assert_eq!(decimal_string(u64::MAX), "18446744073709551615");
    for n in [0u64, 7, 10, 99, 100, 4096, 65_535, 999_999_999_999] {
        assert_eq!(decimal_string(n), n.to_string());
    }
}

#[test]
fn score_label_len_is_the_length_of_the_label() {
    assert_eq!(score_label_len(0), 9);
    assert_eq!(score_label_len(12), 10);
    for n in [0u64, 5, 10, 42, 999, 1000, 123_456_789, u64::MAX] {
        assert_eq!(score_label(n).len(), score_label_len(n) as usize);
        assert_eq!(score_label_len(n), 8 + decimal_len(n));
    }
}

#[test]
fn label_origin_ends_the_label_at_the_right_edge() {
    assert_eq!(label_origin(800, 9), (620, 20));
    assert_eq!(label_origin(800, 10), (600, 20));
    assert_eq!(label_origin(100, 9), (-80, 20));
    assert_eq!(label_origin(u32::MAX, u32::MAX), (-81_604_378_605, 20));
}

#[test]
fn compose_lays_out_the_whole_frame() {
    let shot = Snapshot {
        body: vec![
            BodySegment { position: GridCoordinate { x: 3, y: 0 }, color: ColorTag::Normal },
            BodySegment { position: GridCoordinate { x: 2, y: 0 }, color: ColorTag::Normal },
            BodySegment { position: GridCoordinate { x: 2, y: 0 }, color: ColorTag::JustGrew },
        ],
        food: GridCoordinate { x: 6, y: 3 },
        score: 12,
    };
    let frame = compose(&shot, Bounds { width: 800, height: 800 });
    assert_eq!(
        frame.snake,
        vec![
            Sprite { square: Square { x: 60, y: 0, side: 20 }, color: ColorTag::Normal },
            Sprite { square: Square { x: 40, y: 0, side: 20 }, color: ColorTag::Normal },
            Sprite { square: Square { x: 40, y: 0, side: 20 }, color: ColorTag::JustGrew },
        ]
    );
    assert_eq!(frame.food, Square { x: 120, y: 60, side: 10 });
    assert_eq!(frame.label, "Points: 12");
    assert_eq!(frame.label_x, 600);
    assert_eq!(frame.label_y, 20);
}
