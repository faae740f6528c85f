use game_of_life::{LifeCell, Universe, ALIVE_GLYPH, DEAD_GLYPH, DEFAULT_HEIGHT, DEFAULT_WIDTH};

fn grid_with(width: u32, height: u32, alive: &[(u32, u32)]) -> Universe {
    let mut cells = vec![LifeCell::Dead; (width * height) as usize];
    for &(row, col) in alive {
        cells[(row * width + col) as usize] = LifeCell::Alive;
    }
    Universe::from_cells(width, height, cells).expect("valid grid")
}

fn alive_count(u: &Universe) -> usize {
    u.cells().iter().filter(|&&c| c == LifeCell::Alive).count()
}

#[test]
fn new_builds_initial_pattern() {
    let u = Universe::new();
    assert_eq!(u.width(), 64);
    assert_eq!(u.height(), 64);
    assert_eq!(DEFAULT_WIDTH, 64);
    assert_eq!(DEFAULT_HEIGHT, 64);
    assert_eq!(u.cells().len(), 4096);
    for (i, &c) in u.cells().iter().enumerate() {
        let expected = if i % 2 == 0 || i % 7 == 0 { LifeCell::Alive } else { LifeCell::Dead };
        assert_eq!(c, expected, "cell {}", i);
    }
    assert_eq!(alive_count(&u), 2341);
}

#[test]
fn new_is_deterministic() {
    let a = Universe::new();
    let b = Universe::new();
    assert_eq!(a.cells(), b.cells());
    assert_eq!(a.render(), b.render());
}

#[test]
fn buffer_size_is_kept_across_generations() {
    let mut u = Universe::new();
    for _ in 0..10 {
        u.next_iteration();
        assert_eq!(u.width(), 64);
        assert_eq!(u.height(), 64);
        assert_eq!(u.cells().len(), 64 * 64);
    }
}

#[test]
fn next_iteration_of_initial_pattern() {
    let mut u = Universe::new();
    u.next_iteration();
    assert_eq!(alive_count(&u), 1736);
    let first: Vec<LifeCell> = u.cells()[..16].to_vec();
    let expected: Vec<LifeCell> = "0010100000101010"
        .chars()
        .map(|c| if c == '1' { LifeCell::Alive } else { LifeCell::Dead })
        .collect();
    assert_eq!(first, expected);
    u.next_iteration();
    assert_eq!(alive_count(&u), 1205);
}

#[test]
fn neighbour_counts_of_initial_pattern() {
    let u = Universe::new();
    assert_eq!(u.neighbour_alive_count(0, 0), 4);
    assert_eq!(u.neighbour_alive_count(0, 1), 6);
    assert_eq!(u.neighbour_alive_count(1, 1), 6);
    assert_eq!(u.neighbour_alive_count(63, 63), 7);
}

#[test]
fn wraparound_corner_sees_origin() {
    let u = grid_with(5, 4, &[(0, 0)]);
    assert_eq!(u.neighbour_alive_count(3, 4), 1);
    let big = grid_with(64, 64, &[(0, 0)]);
    assert_eq!(big.neighbour_alive_count(63, 63), 1);
    assert_eq!(big.neighbour_alive_count(0, 63), 1);
    assert_eq!(big.neighbour_alive_count(63, 0), 1);
    assert_eq!(big.neighbour_alive_count(1, 1), 1);
    assert_eq!(big.neighbour_alive_count(2, 2), 0);
}

#[test]
fn small_grid_counts_repeated_positions() {
    let u = grid_with(1, 1, &[(0, 0)]);
    assert_eq!(u.neighbour_alive_count(0, 0), 5);
}

#[test]
fn block_is_stable() {
    let mut u = grid_with(6, 6, &[(2, 2), (2, 3), (3, 2), (3, 3)]);
    let before = u.cells().to_vec();
    for row in 2..4 {
        for col in 2..4 {
            assert_eq!(u.neighbour_alive_count(row, col), 3);
        }
    }
    u.next_iteration();
    assert_eq!(u.cells(), &before[..]);
    u.next_iteration();
    assert_eq!(u.cells(), &before[..]);
}

#[test]
fn block_near_edges_of_smallest_grid_is_stable() {
    let mut u = grid_with(4, 4, &[(1, 1), (1, 2), (2, 1), (2, 2)]);
    let before = u.cells().to_vec();
    u.next_iteration();
    assert_eq!(u.cells(), &before[..]);
}

#[test]
fn isolated_cell_dies() {
    let mut u = grid_with(8, 8, &[(4, 4)]);
    assert_eq!(u.neighbour_alive_count(4, 4), 0);
    u.next_iteration();
    assert_eq!(u.get_cell(4, 4), LifeCell::Dead);
    assert_eq!(alive_count(&u), 0);
}

#[test]
fn dead_cell_with_three_neighbours_is_born() {
    let mut u = grid_with(8, 8, &[(1, 1), (1, 3), (3, 2)]);
    assert_eq!(u.get_cell(2, 2), LifeCell::Dead);
    assert_eq!(u.neighbour_alive_count(2, 2), 3);
    u.next_iteration();
    assert_eq!(u.get_cell(2, 2), LifeCell::Alive);
}

#[test]
fn dead_cell_with_two_or_four_neighbours_stays_dead() {
    let mut two = grid_with(8, 8, &[(1, 1), (1, 3)]);
    assert_eq!(two.neighbour_alive_count(2, 2), 2);
    two.next_iteration();
    assert_eq!(two.get_cell(2, 2), LifeCell::Dead);

    let mut four = grid_with(8, 8, &[(1, 1), (1, 3), (3, 1), (3, 3)]);
    assert_eq!(four.neighbour_alive_count(2, 2), 4);
    four.next_iteration();
    assert_eq!(four.get_cell(2, 2), LifeCell::Dead);
}

#[test]
fn blinker_oscillates() {
    let mut u = grid_with(5, 5, &[(2, 1), (2, 2), (2, 3)]);
    u.next_iteration();
    let vertical = grid_with(5, 5, &[(1, 2), (2, 2), (3, 2)]);
    assert_eq!(u.cells(), vertical.cells());
    u.next_iteration();
    let horizontal = grid_with(5, 5, &[(2, 1), (2, 2), (2, 3)]);
    assert_eq!(u.cells(), horizontal.cells());
}

#[test]
fn overcrowded_cell_dies() {
    let mut u = grid_with(8, 8, &[(2, 2), (1, 1), (1, 2), (1, 3), (2, 1)]);
    assert_eq!(u.neighbour_alive_count(2, 2), 4);
    u.next_iteration();
    assert_eq!(u.get_cell(2, 2), LifeCell::Dead);
}

#[test]
fn render_shape_of_initial_grid() {
    let text = Universe::new().render();
    assert_eq!(text.matches('\n').count(), 64);
    assert!(text.ends_with('\n'));
    let lines: Vec<&str> = text.split_terminator('\n').collect();
    assert_eq!(lines.len(), 64);
    for line in lines {
        assert_eq!(line.chars().count(), 64);
        assert!(line.chars().all(|c| c == DEAD_GLYPH || c == ALIVE_GLYPH));
    }
}

#[test]
fn render_small_grid_exactly() {
    let u = grid_with(3, 2, &[(0, 0), (1, 2)]);
    assert_eq!(u.render(), "◼◻◻\n◻◻◼\n");
    assert_eq!(DEAD_GLYPH, '◻');
    assert_eq!(ALIVE_GLYPH, '◼');
}

#[test]
fn from_cells_rejects_bad_shapes() {
    assert!(Universe::from_cells(0, 3, vec![]).is_none());
    assert!(Universe::from_cells(3, 0, vec![]).is_none());
    assert!(Universe::from_cells(2, 2, vec![LifeCell::Dead; 3]).is_none());
    assert!(Universe::from_cells(2, 2, vec![LifeCell::Dead; 5]).is_none());
    assert!(Universe::from_cells(65536, 65536, vec![]).is_none());
    let u = Universe::from_cells(2, 3, vec![LifeCell::Alive; 6]).expect("valid grid");
    assert_eq!(u.width(), 2);
    assert_eq!(u.height(), 3);
    assert_eq!(u.get_cell(2, 1), LifeCell::Alive);
}

#[test]
fn cell_weights_and_rules() {
    assert_eq!(LifeCell::Dead.weight(), 0);
    assert_eq!(LifeCell::Alive.weight(), 1);
    assert_eq!(LifeCell::Dead.glyph(), "◻");
    assert_eq!(LifeCell::Alive.glyph(), "◼");
    for n in 0..=8u8 {
        let alive_next = if n == 2 || n == 3 { LifeCell::Alive } else { LifeCell::Dead };
        let dead_next = if n == 3 { LifeCell::Alive } else { LifeCell::Dead };
        assert_eq!(LifeCell::Alive.next(n), alive_next, "alive with {}", n);
        assert_eq!(LifeCell::Dead.next(n), dead_next, "dead with {}", n);
    }
}
