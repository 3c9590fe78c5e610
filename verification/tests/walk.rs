use border_marquee::perimeter::{Direction, PositionGenerator};

fn on_border(cell: (u16, u16), width: u16, height: u16) -> bool {
    cell.0 == 0 || cell.0 + 1 == width || cell.1 == 0 || cell.1 + 1 == height
}

fn walk(width: u16, height: u16, steps: usize) -> Vec<(u16, u16)> {
    let mut generator = PositionGenerator::new(width, height);
    let mut cells = Vec::new();
    for _ in 0..steps {
        cells.push(generator.next().unwrap());
    }
    cells
}

#[test]
fn starts_at_origin_facing_right() {
    let generator = PositionGenerator::new(80, 24);
    assert_eq!(generator.position(), (0, 0));
    assert_eq!(generator.direction(), Direction::Right);
    assert_eq!(generator.width(), 80);
    assert_eq!(generator.height(), 24);
}

#[test]
fn emits_cell_before_moving() {
    let mut generator = PositionGenerator::new(5, 4);
    assert_eq!(generator.next(), Some((0, 0)));
    assert_eq!(generator.position(), (1, 0));
    assert_eq!(generator.next(), Some((1, 0)));
}

#[test]
fn three_by_two_lap_is_clockwise() {
    let expected: Vec<(u16, u16)> =
        vec![(0, 0), (1, 0), (2, 0), (2, 1), (1, 1), (0, 1), (0, 0), (1, 0), (2, 0)];
    assert_eq!(walk(3, 2, 9), expected);
}

#[test]
fn two_by_two_lap_takes_four_steps() {
    let expected: Vec<(u16, u16)> = vec![(0, 0), (1, 0), (1, 1), (0, 1), (0, 0), (1, 0)];
    assert_eq!(walk(2, 2, 6), expected);
}

#[test]
fn three_by_three_lap_takes_eight_steps() {
    let expected: Vec<(u16, u16)> = vec![
        (0, 0),
        (1, 0),
        (2, 0),
        (2, 1),
        (2, 2),
        (1, 2),
        (0, 2),
        (0, 1),
        (0, 0),
        (1, 0),
    ];
    assert_eq!(walk(3, 3, 10), expected);
}

#[test]
fn lap_takes_as_many_steps_as_there_are_border_cells() {
    for &(width, height) in [(3u16, 2u16), (2, 2), (80, 24), (2, 7), (7, 2), (5, 5)].iter() {
        let period = 2 * (width as usize + height as usize - 2);
        let cells = walk(width, height, 3 * period);
        assert_eq!(cells[0], (0, 0));
        for i in 0..2 * period {
            assert_eq!(cells[i], cells[i + period]);
        }
        let mut generator = PositionGenerator::new(width, height);
        for _ in 0..period {
            generator.next();
        }
        assert_eq!(generator.position(), (0, 0));
        assert_eq!(generator.direction(), Direction::Up);
        assert_eq!(generator.next(), Some((0, 0)));
        assert_eq!(generator.position(), (1, 0));
        assert_eq!(generator.direction(), Direction::Right);
    }
}

#[test]
fn every_step_moves_by_one_cell() {
    for &(width, height) in [(2u16, 2u16), (3, 2), (6, 4), (80, 24)].iter() {
        let cells = walk(width, height, 500);
        for i in 1..cells.len() {
            let dx = (cells[i].0 as i32 - cells[i - 1].0 as i32).abs();
            let dy = (cells[i].1 as i32 - cells[i - 1].1 as i32).abs();
            assert_eq!(dx + dy, 1);
        }
    }
}

#[test]
fn never_leaves_the_border() {
    for &(width, height) in [(5u16, 4u16), (2, 2), (80, 24), (1, 9), (9, 1), (1, 1), (3, 3)].iter() {
        let period = 2 * (width as usize + height as usize);
        for cell in walk(width, height, 2 * period + 3) {
            assert!(cell.0 < width && cell.1 < height);
            assert!(on_border(cell, width, height));
        }
    }
}

#[test]
fn interior_cell_is_never_emitted() {
    for cell in walk(3, 3, 40) {
        assert_ne!(cell, (1, 1));
    }
}

#[test]
fn every_border_cell_is_visited_once_in_a_lap() {
    let (width, height) = (6u16, 4u16);
    let cells = walk(width, height, 2 * (6 + 4 - 2));
    let mut distinct = cells.clone();
    distinct.sort();
    distinct.dedup();
    assert_eq!(distinct.len(), 16);
    assert_eq!(cells.len(), 16);
    for x in 0..width {
        for y in 0..height {
            assert_eq!(cells.contains(&(x, y)), on_border((x, y), width, height));
        }
    }
}

#[test]
fn single_cell_stays_at_origin() {
    let mut generator = PositionGenerator::new(1, 1);
    let mut facing = Vec::new();
    for _ in 0..9 {
        facing.push(generator.direction());
        assert_eq!(generator.next(), Some((0, 0)));
    }
    assert_eq!(
        facing[..5].to_vec(),
        vec![Direction::Right, Direction::Down, Direction::Left, Direction::Up, Direction::Right]
    );
}

#[test]
fn single_column_oscillates_on_a_line() {
    let expected: Vec<(u16, u16)> =
        vec![(0, 0), (0, 1), (0, 2), (0, 2), (0, 1), (0, 0), (0, 0), (0, 1), (0, 2)];
    assert_eq!(walk(1, 3, 9), expected);
}

#[test]
fn single_row_oscillates_on_a_line() {
    let expected: Vec<(u16, u16)> =
        vec![(0, 0), (1, 0), (2, 0), (2, 0), (1, 0), (0, 0), (0, 0), (1, 0), (2, 0)];
    assert_eq!(walk(3, 1, 9), expected);
}

#[test]
fn widest_rectangle_does_not_overflow() {
    let mut generator = PositionGenerator::new(u16::MAX, u16::MAX);
    for _ in 0..70000 {
        generator.next();
    }
    assert_eq!(generator.position(), (65534, 4466));
    assert_eq!(generator.direction(), Direction::Down);
}

#[test]
fn line_walk_repeats_after_twice_its_length() {
    for &(width, height) in [(1u16, 2u16), (1, 7), (2, 1), (9, 1)].iter() {
        let period = 2 * (width.max(height) as usize);
        let cells = walk(width, height, 3 * period);
        for i in 0..2 * period {
            assert_eq!(cells[i], cells[i + period]);
        }
        assert_eq!(cells[period], (0, 0));
    }
}
