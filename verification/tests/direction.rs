use snake_game::direction::{propose_heading, Direction};
use snake_game::grid::GridCoordinate;

const ALL: [Direction; 4] = [Direction::Right, Direction::Left, Direction::Up, Direction::Down];

#[test]
fn opposite_pairs_up_the_headings() {
    assert_eq!(Direction::Up.opposite(), Direction::Down);
    assert_eq!(Direction::Down.opposite(), Direction::Up);
    assert_eq!(Direction::Left.opposite(), Direction::Right);
    assert_eq!(Direction::Right.opposite(), Direction::Left);
}

#[test]
fn opposite_is_an_involution_without_fixed_point() {
    for heading in ALL {
        assert_eq!(heading.opposite().opposite(), heading);
        assert_ne!(heading.opposite(), heading);
    }
}

#[test]
fn reversal_is_always_rejected() {
    for heading in ALL {
        assert_eq!(propose_heading(heading, heading.opposite()), heading);
    }
}

#[test]
fn every_other_request_is_accepted() {
    for current in ALL {
        for requested in ALL {
            if requested != current.opposite() {
                assert_eq!(propose_heading(current, requested), requested);
            }
        }
    }
}

#[test]
fn up_requested_while_heading_down_keeps_down() {
    assert_eq!(propose_heading(Direction::Down, Direction::Up), Direction::Down);
}

#[test]
fn repeated_request_for_the_current_heading_changes_nothing() {
    for heading in ALL {
        assert_eq!(propose_heading(heading, heading), heading);
    }
}

#[test]
fn accepted_heading_never_reverses_the_current_one() {
    for current in ALL {
        for requested in ALL {
            assert_ne!(propose_heading(current, requested), current.opposite());
        }
    }
}

#[test]
fn step_moves_one_cell_along_the_heading() {
    let cell = GridCoordinate::new(4, 7);
    assert_eq!(cell.step(Direction::Right), GridCoordinate { x: 5, y: 7 });
    assert_eq!(cell.step(Direction::Left), GridCoordinate { x: 3, y: 7 });
    assert_eq!(cell.step(Direction::Up), GridCoordinate { x: 4, y: 6 });
    assert_eq!(cell.step(Direction::Down), GridCoordinate { x: 4, y: 8 });
}

#[test]
fn checked_step_agrees_with_step_inside_the_range() {
    let cell = GridCoordinate::new(-3, 0);
    for heading in ALL {
        assert_eq!(cell.checked_step(heading), Some(cell.step(heading)));
    }
}

#[test]
fn checked_step_stops_at_the_end_of_the_range() {
    let far = GridCoordinate::new(i32::MAX, i32::MIN);
    assert_eq!(far.checked_step(Direction::Right), None);
    assert_eq!(far.checked_step(Direction::Up), None);
    assert_eq!(far.checked_step(Direction::Left), Some(GridCoordinate { x: i32::MAX - 1, y: i32::MIN }));
    assert_eq!(far.checked_step(Direction::Down), Some(GridCoordinate { x: i32::MAX, y: i32::MIN + 1 }));
    let near = GridCoordinate::new(i32::MIN, i32::MAX);
    assert_eq!(near.checked_step(Direction::Left), None);
    assert_eq!(near.checked_step(Direction::Down), None);
}

#[test]
fn a_step_and_its_reversal_cancel() {
    let cell = GridCoordinate::new(10, -10);
    for heading in ALL {
        assert_eq!(cell.step(heading).step(heading.opposite()), cell);
    }
}
