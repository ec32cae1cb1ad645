use snake_game::food::{Bounds, Food, CELL_SIZE};
use snake_game::grid::GridCoordinate;
use snake_game::score::Score;

#[test]
fn cell_size_is_twenty() {
    assert_eq!(CELL_SIZE, 20);
}

#[test]
fn bounds_need_a_second_column_and_row() {
    assert_eq!(Bounds::new(800, 800), Some(Bounds { width: 800, height: 800 }));
    assert_eq!(Bounds::new(40, 40), Some(Bounds { width: 40, height: 40 }));
    assert_eq!(Bounds::new(39, 800), None);
    assert_eq!(Bounds::new(800, 39), None);
    assert_eq!(Bounds::new(0, 0), None);
}

#[test]
fn admits_food_agrees_with_new() {
    assert!(Bounds { width: 600, height: 600 }.admits_food());
    assert!(!Bounds { width: 20, height: 600 }.admits_food());
    assert!(!Bounds { width: 600, height: 21 }.admits_food());
}

#[test]
fn consumption_needs_the_same_cell() {
    let food = Food::new(GridCoordinate { x: 3, y: 4 });
    assert!(food.check_consumption(GridCoordinate { x: 3, y: 4 }));
    assert!(!food.check_consumption(GridCoordinate { x: 4, y: 3 }));
    assert!(!food.check_consumption(GridCoordinate { x: 3, y: 5 }));
    assert!(!food.check_consumption(GridCoordinate { x: 2, y: 4 }));
}

#[test]
fn relocate_moves_the_food() {
    let mut food = Food::new(GridCoordinate { x: 3, y: 4 });
    food.relocate(GridCoordinate { x: -1, y: 9 });
    assert_eq!(food.position(), GridCoordinate { x: -1, y: 9 });
}

#[test]
fn respawn_stays_inside_the_playfield_and_off_column_and_row_zero() {
    let bounds = Bounds::new(800, 600).unwrap();
    let mut food = Food::new(GridCoordinate { x: 0, y: 0 });
    for _ in 0..2000 {
        food.respawn(bounds);
        let cell = food.position();
        assert!(1 <= cell.x && cell.x < 40);
        assert!(1 <= cell.y && cell.y < 30);
    }
}

#[test]
fn respawn_on_the_smallest_playfield_has_one_choice() {
    let bounds = Bounds::new(40, 59).unwrap();
    let mut food = Food::new(GridCoordinate { x: 7, y: 7 });
    food.respawn(bounds);
    assert_eq!(food.position(), GridCoordinate { x: 1, y: 1 });
    assert_eq!(bounds.random_cell(), GridCoordinate { x: 1, y: 1 });
}

#[test]
fn respawn_reaches_more_than_one_cell() {
    let bounds = Bounds::new(800, 800).unwrap();
    let first = bounds.random_cell();
    let mut moved = false;
    for _ in 0..200 {
        if bounds.random_cell() != first {
            moved = true;
        }
    }
    assert!(moved);
}

#[test]
fn spawn_is_inside_the_playfield() {
    let bounds = Bounds::new(100, 60).unwrap();
    for _ in 0..200 {
        let cell = Food::spawn(bounds).position();
        assert!(1 <= cell.x && cell.x < 5);
        assert!(1 <= cell.y && cell.y < 3);
    }
}

#[test]
fn score_starts_at_zero_and_counts_by_one() {
    let mut score = Score::new();
    assert_eq!(score.eaten(), 0);
    score.record_consumption();
    assert_eq!(score.eaten(), 1);
    score.record_consumption();
    score.record_consumption();
    assert_eq!(score.eaten(), 3);
}
