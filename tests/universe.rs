use wasm_game_of_life::{Cell, Universe, HEIGHT, WIDTH};

const A: Cell = Cell::Alive;
const D: Cell = Cell::Dead;

fn grid(width: u32, height: u32, cells: Vec<Cell>) -> Universe {
    Universe::with_cells(width, height, cells).unwrap()
}

fn dead(width: u32, height: u32) -> Universe {
    grid(width, height, vec![D; (width * height) as usize])
}

fn alive_count(u: &Universe) -> usize {
    u.cells().iter().filter(|c| **c == A).count()
}

#[test]
fn new_follows_draws() {
    let draws: Vec<bool> = (0..WIDTH * HEIGHT).map(|i| i % 3 == 0).collect();
    let u = Universe::new(&draws);
    assert_eq!(u.width(), 128);
    assert_eq!(u.height(), 128);
    assert_eq!(u.cells().len(), 128 * 128);
    for (i, c) in u.cells().iter().enumerate() {
        assert_eq!(*c, if i % 3 == 0 { A } else { D });
    }
}

#[test]
fn restart_redraws_and_keeps_dimensions() {
    let mut u = grid(3, 2, vec![A, A, A, A, A, A]);
    u.restart(&[true, false, false, true, false, true]);
    assert_eq!(u.width(), 3);
    assert_eq!(u.height(), 2);
    assert_eq!(u.cells(), &[A, D, D, A, D, A]);
}

#[test]
fn with_cells_rejects_bad_shapes() {
    assert!(Universe::with_cells(0, 3, vec![]).is_none());
    assert!(Universe::with_cells(3, 0, vec![]).is_none());
    assert!(Universe::with_cells(2, 2, vec![D; 3]).is_none());
    assert!(Universe::with_cells(2, 2, vec![D; 5]).is_none());
    assert!(Universe::with_cells(2, 2, vec![D; 4]).is_some());
}

#[test]
fn get_index_is_row_major_and_wraps() {
    let u = dead(4, 3);
    assert_eq!(u.get_index(0, 0), 0);
    assert_eq!(u.get_index(1, 2), 6);
    assert_eq!(u.get_index(2, 3), 11);
    assert_eq!(u.get_index(3, 0), 0);
    assert_eq!(u.get_index(4, 5), 5);
    assert_eq!(u.get_index(u32::MAX, u32::MAX), (u32::MAX % 3 * 4 + u32::MAX % 4) as usize);
}

#[test]
fn get_index_stays_in_buffer() {
    let u = dead(5, 7);
    for row in [0u32, 1, 6, 7, 8, 100, u32::MAX - 1, u32::MAX] {
        for col in [0u32, 4, 5, 9, 1000, u32::MAX] {
            assert!(u.get_index(row, col) < 35);
        }
    }
}

#[test]
fn edge_wrap_counts_opposite_corner() {
    let u = grid(3, 3, vec![A, D, D, D, D, D, D, D, D]);
    assert_eq!(u.live_neighbor_count(2, 2), 1);
}

#[test]
fn neighbor_count_in_middle() {
    let u = grid(4, 4, vec![A, A, A, D, A, D, A, D, A, A, A, D, D, D, D, D]);
    assert_eq!(u.live_neighbor_count(1, 1), 8);
    assert_eq!(u.live_neighbor_count(0, 0), 2);
    assert_eq!(u.live_neighbor_count(3, 3), 4);
}

#[test]
fn neighbor_counts_sum_to_eight_per_live_cell() {
    let cells = vec![A, D, A, A, D, D, A, D, D, D, A, A, D, A, D, A, A, D, D, D];
    let u = grid(5, 4, cells);
    let mut total = 0usize;
    for row in 0..4 {
        for col in 0..5 {
            let n = u.live_neighbor_count(row, col);
            assert!(n <= 8);
            total += n as usize;
        }
    }
    assert_eq!(total, 8 * alive_count(&u));
}

#[test]
fn neighbor_total_on_narrow_grid() {
    let u = grid(1, 3, vec![A, D, A]);
    let total: usize = (0..3).map(|r| u.live_neighbor_count(r, 0) as usize).sum();
    assert_eq!(total, 16);
}

#[test]
fn tick_blinker_oscillates() {
    let mut u = dead(5, 5);
    u.toggle_cell(2, 1);
    u.toggle_cell(2, 2);
    u.toggle_cell(2, 3);
    u.tick();
    let mut expected = vec![D; 25];
    expected[7] = A;
    expected[12] = A;
    expected[17] = A;
    assert_eq!(u.cells(), expected.as_slice());
    u.tick();
    let mut back = vec![D; 25];
    back[11] = A;
    back[12] = A;
    back[13] = A;
    assert_eq!(u.cells(), back.as_slice());
}

#[test]
fn tick_block_is_still() {
    let cells = vec![D, D, D, D, D, A, A, D, D, A, A, D, D, D, D, D];
    let mut u = grid(4, 4, cells.clone());
    u.tick();
    assert_eq!(u.cells(), cells.as_slice());
}

#[test]
fn tick_rules_each_case() {
    // Alive with one neighbour dies; dead with three becomes alive;
    // alive with four dies.
    let mut u = grid(6, 6, vec![
        A, D, D, D, D, D, //
        D, D, D, D, D, D, //
        D, D, D, D, D, D, //
        D, D, A, A, A, D, //
        D, D, A, A, D, D, //
        D, D, D, D, D, D, //
    ]);
    u.tick();
    let c = u.cells();
    assert_eq!(c[0], D);
    assert_eq!(c[2 * 6 + 3], A);
    assert_eq!(c[3 * 6 + 3], D);
    assert_eq!(c[4 * 6 + 2], A);
}

#[test]
fn tick_is_deterministic() {
    let cells = vec![A, D, A, A, D, D, A, D, D, D, A, A, D, A, D, A, A, D, D, D];
    let mut a = grid(5, 4, cells.clone());
    let mut b = grid(5, 4, cells);
    a.tick();
    b.tick();
    assert_eq!(a.cells(), b.cells());
}

#[test]
fn all_dead_is_fixed_point() {
    let mut u = dead(6, 5);
    u.tick();
    assert_eq!(alive_count(&u), 0);
    u.tick();
    assert_eq!(u.cells(), vec![D; 30].as_slice());
}

#[test]
fn glider_sets_three_cells() {
    let mut u = dead(4, 4);
    u.create_glider(0, 0);
    let c = u.cells();
    assert_eq!(&c[0..3], &[A, A, A]);
    assert!(c[3..].iter().all(|x| *x == D));
}

#[test]
fn glider_wraps_at_right_edge() {
    let mut u = dead(4, 2);
    u.create_glider(1, 3);
    assert_eq!(u.cells(), &[D, D, D, D, A, A, D, A]);
}

#[test]
fn pulsar_seed_in_middle() {
    let mut u = dead(5, 5);
    u.toggle_cell(2, 2);
    u.create_pulsar_gerator(2, 2);
    let expected = vec![
        D, D, A, D, D, //
        D, A, A, A, D, //
        D, A, D, A, D, //
        D, A, A, A, D, //
        D, D, A, D, D, //
    ];
    assert_eq!(u.cells(), expected.as_slice());
}

#[test]
fn pulsar_seed_wraps_at_corner() {
    let mut u = dead(5, 5);
    u.create_pulsar_gerator(0, 0);
    let expected = vec![
        D, A, D, D, A, //
        A, A, D, D, A, //
        A, D, D, D, D, //
        A, D, D, D, D, //
        A, A, D, D, A, //
    ];
    assert_eq!(u.cells(), expected.as_slice());
}

#[test]
fn toggle_cell_flips_one_cell() {
    let mut u = dead(3, 3);
    u.toggle_cell(1, 2);
    assert_eq!(u.cells(), &[D, D, D, D, D, A, D, D, D]);
    u.toggle_cell(4, 5);
    assert_eq!(u.cells(), &[D, D, D, D, D, D, D, D, D]);
}

#[test]
fn toggle_cell_twice_restores() {
    let cells = vec![A, D, A, A, D, D];
    let mut u = grid(3, 2, cells.clone());
    u.toggle_cell(0, 0);
    assert_eq!(u.cells()[0], D);
    u.toggle_cell(0, 0);
    assert_eq!(u.cells(), cells.as_slice());
}

#[test]
fn invert_all_flips_every_cell() {
    let mut u = grid(3, 2, vec![A, D, A, A, D, D]);
    u.toggle_live_cell();
    assert_eq!(u.cells(), &[D, A, D, D, A, A]);
}

#[test]
fn invert_all_twice_restores() {
    let cells = vec![A, D, A, A, D, D];
    let mut u = grid(3, 2, cells.clone());
    u.toggle_live_cell();
    u.toggle_live_cell();
    assert_eq!(u.cells(), cells.as_slice());
}

#[test]
fn render_two_by_two() {
    let u = grid(2, 2, vec![A, D, D, A]);
    assert_eq!(u.render(), "\u{25FC}\u{25FB}\n\u{25FB}\u{25FC}\n");
}

#[test]
fn render_one_line_per_row() {
    let u = grid(3, 1, vec![D, D, A]);
    assert_eq!(u.render(), "\u{25FB}\u{25FB}\u{25FC}\n");
}

#[test]
fn cell_toggle() {
    let mut c = D;
    c.toggle();
    assert_eq!(c, A);
    c.toggle();
    assert_eq!(c, D);
}
