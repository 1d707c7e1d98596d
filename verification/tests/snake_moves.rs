use snake::snake::Snake;
use snake::{BodyPart, Direction, BODY_SIZE, GRID_COLUMNS, GRID_ROWS, UPDATE_SPEED};
use std::collections::VecDeque;

fn cell(x: i32, y: i32) -> BodyPart {
    BodyPart { x, y }
}

fn snake_of(cells: &[(i32, i32)], dir: Direction) -> Snake {
    let body: VecDeque<BodyPart> = cells.iter().map(|&(x, y)| cell(x, y)).collect();
    Snake { body, dir }
}

fn cells_of(snake: &Snake) -> Vec<(i32, i32)> {
    snake.body.iter().map(|p| (p.x, p.y)).collect()
}

#[test]
fn constants_have_the_design_values() {
    assert_eq!(GRID_ROWS, 20);
    assert_eq!(GRID_COLUMNS, 20);
    assert_eq!(BODY_SIZE, 25);
    assert_eq!(UPDATE_SPEED, 6);
}

#[test]
fn init_is_two_cells_heading_right() {
    let s = Snake::init();
    assert_eq!(cells_of(&s), vec![(0, 0), (0, 1)]);
    assert_eq!(s.dir, Direction::Right);
}

#[test]
fn advance_right_shifts_head_and_drops_tail() {
    let mut s = snake_of(&[(5, 5), (5, 6)], Direction::Right);
    s.update_direction();
    assert_eq!(cells_of(&s), vec![(6, 5), (5, 5)]);
    assert_eq!(s.dir, Direction::Right);
}

#[test]
fn advance_moves_one_unit_in_each_direction() {
    let mut s = snake_of(&[(5, 5), (5, 6), (5, 7)], Direction::Left);
    s.update_direction();
    assert_eq!(cells_of(&s), vec![(4, 5), (5, 5), (5, 6)]);

    let mut s = snake_of(&[(5, 5), (4, 5)], Direction::Up);
    s.update_direction();
    assert_eq!(cells_of(&s), vec![(5, 4), (5, 5)]);

    let mut s = snake_of(&[(5, 5), (4, 5)], Direction::Down);
    s.update_direction();
    assert_eq!(cells_of(&s), vec![(5, 6), (5, 5)]);
}

#[test]
fn advance_may_leave_the_grid() {
    let mut s = snake_of(&[(0, 0), (0, 1)], Direction::Up);
    s.update_direction();
    assert_eq!(cells_of(&s), vec![(0, -1), (0, 0)]);
    assert!(s.out_of_bounds());
}

#[test]
fn advance_of_a_single_cell_moves_it() {
    let mut s = snake_of(&[(3, 3)], Direction::Down);
    s.update_direction();
    assert_eq!(cells_of(&s), vec![(3, 4)]);
}

#[test]
fn grow_appends_one_cell_right_of_the_tail() {
    let mut s = snake_of(&[(5, 5), (5, 6)], Direction::Right);
    s.grow();
    assert_eq!(s.body.len(), 3);
    assert_eq!(cells_of(&s), vec![(5, 5), (5, 6), (6, 6)]);
    assert_eq!(s.dir, Direction::Right);
}

#[test]
fn grow_then_advance_keeps_the_whole_old_body() {
    let mut s = snake_of(&[(5, 5), (5, 6)], Direction::Up);
    s.grow();
    s.update_direction();
    assert_eq!(cells_of(&s), vec![(5, 4), (5, 5), (5, 6)]);
}

#[test]
fn length_stays_at_least_two_over_moves_and_growth() {
    let mut s = Snake::init();
    let dirs = [Direction::Right, Direction::Down, Direction::Left, Direction::Up];
    let mut expected = 2;
    for round in 0..40 {
        s.dir = dirs[round % 4];
        if round % 3 == 0 {
            s.grow();
            expected += 1;
        }
        s.update_direction();
        assert_eq!(s.body.len(), expected);
        assert!(s.body.len() >= 2);
    }
}

#[test]
fn check_eat_is_true_on_the_food_and_false_one_step_off() {
    let mut s = snake_of(&[(7, 7), (6, 7)], Direction::Right);
    let food = cell(7, 7);
    assert!(s.check_eat(&food));
    s.update_direction();
    assert!(!s.check_eat(&food));
    assert!(!snake_of(&[(7, 8), (7, 7)], Direction::Down).check_eat(&food));
}

#[test]
fn collision_when_the_head_revisits_a_cell() {
    let s = snake_of(&[(3, 3), (4, 3), (4, 4), (3, 4), (3, 3)], Direction::Up);
    assert!(s.collision());
}

#[test]
fn no_collision_when_all_cells_differ() {
    let s = snake_of(&[(3, 3), (4, 3), (4, 4), (3, 4)], Direction::Up);
    assert!(!s.collision());
    assert!(!Snake::init().collision());
}

#[test]
fn collision_ignores_repeats_behind_the_head() {
    let s = snake_of(&[(1, 1), (2, 2), (2, 2)], Direction::Up);
    assert!(!s.collision());
    let s = snake_of(&[(1, 1)], Direction::Up);
    assert!(!s.collision());
}

#[test]
fn out_of_bounds_at_the_edges() {
    assert!(snake_of(&[(20, 5), (19, 5)], Direction::Right).out_of_bounds());
    assert!(!snake_of(&[(19, 19), (18, 19)], Direction::Right).out_of_bounds());
    assert!(snake_of(&[(-1, 0), (0, 0)], Direction::Left).out_of_bounds());
    assert!(!snake_of(&[(0, 0), (0, 1)], Direction::Right).out_of_bounds());
    assert!(snake_of(&[(5, 20), (5, 19)], Direction::Down).out_of_bounds());
    assert!(snake_of(&[(5, -1), (5, 0)], Direction::Up).out_of_bounds());
}

#[test]
fn occupies_finds_every_segment_and_nothing_else() {
    let s = snake_of(&[(3, 3), (4, 3), (4, 4)], Direction::Up);
    assert!(s.occupies(cell(3, 3)));
    assert!(s.occupies(cell(4, 3)));
    assert!(s.occupies(cell(4, 4)));
    assert!(!s.occupies(cell(3, 4)));
    assert!(!s.occupies(cell(0, 0)));
}

#[test]
fn free_space_of_the_initial_snake() {
    let free = Snake::init().free_space();
    assert_eq!(free.len(), 398);
    assert_eq!(free[0], cell(0, 2));
    assert_eq!(free[1], cell(0, 3));
    assert_eq!(free[17], cell(0, 19));
    assert_eq!(free[18], cell(1, 0));
    assert_eq!(free[397], cell(19, 19));
    assert!(!free.contains(&cell(0, 0)));
    assert!(!free.contains(&cell(0, 1)));
}

#[test]
fn free_space_lists_each_free_cell_once_in_column_order() {
    let s = snake_of(&[(2, 2), (2, 3), (25, 3), (-1, 0)], Direction::Right);
    let free = s.free_space();
    let mut expected = Vec::new();
    for x in 0..20 {
        for y in 0..20 {
            if (x, y) != (2, 2) && (x, y) != (2, 3) {
                expected.push(cell(x, y));
            }
        }
    }
    assert_eq!(free, expected);
}

#[test]
fn free_space_lists_no_cell_twice_even_if_the_body_repeats_cells() {
    let s = snake_of(&[(2, 2), (2, 3), (2, 2), (2, 3), (7, 7)], Direction::Right);
    let free = s.free_space();
    assert_eq!(free.len(), 397);
    for (i, a) in free.iter().enumerate() {
        assert!(a.is_in_grid());
        assert!(!s.occupies(*a));
        for b in free.iter().skip(i + 1) {
            assert_ne!(a, b);
        }
    }
}

#[test]
fn free_space_is_empty_when_the_snake_fills_the_grid() {
    let mut cells = Vec::new();
    for x in 0..20 {
        for y in 0..20 {
            cells.push((x, y));
        }
    }
    let s = snake_of(&cells, Direction::Right);
    assert!(s.free_space().is_empty());
}

#[test]
fn step_and_in_grid_on_cells() {
    assert_eq!(cell(5, 5).step(Direction::Right), cell(6, 5));
    assert_eq!(cell(5, 5).step(Direction::Left), cell(4, 5));
    assert_eq!(cell(5, 5).step(Direction::Up), cell(5, 4));
    assert_eq!(cell(5, 5).step(Direction::Down), cell(5, 6));
    assert!(cell(0, 0).is_in_grid());
    assert!(cell(19, 19).is_in_grid());
    assert!(!cell(20, 0).is_in_grid());
    assert!(!cell(0, 20).is_in_grid());
    assert!(!cell(-1, 0).is_in_grid());
    assert!(!cell(0, -1).is_in_grid());
}

#[test]
fn opposite_of_each_direction() {
    assert_eq!(Direction::Right.opposite(), Direction::Left);
    assert_eq!(Direction::Left.opposite(), Direction::Right);
    assert_eq!(Direction::Up.opposite(), Direction::Down);
    assert_eq!(Direction::Down.opposite(), Direction::Up);
}

#[test]
fn clone_copies_body_and_heading() {
    let s = snake_of(&[(3, 3), (4, 3), (4, 4)], Direction::Down);
    let mut copy = s.clone();
    assert_eq!(cells_of(&copy), cells_of(&s));
    assert_eq!(copy.dir, Direction::Down);
    copy.update_direction();
    assert_eq!(cells_of(&s), vec![(3, 3), (4, 3), (4, 4)]);
}
