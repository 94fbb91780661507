use game_of_life::evolution::{count_alive_neighbors, decide, step, update_grid};

fn cells_of(rows: &[&str]) -> Vec<bool> {
    let mut cells = Vec::new();
    for row in rows {
        for c in row.chars() {
            cells.push(c == '#');
        }
    }
    cells
}

#[test]
fn step_keeps_the_length() {
    for (w, h) in [(1u32, 1u32), (3, 2), (2, 5), (7, 7), (0, 0), (0, 4), (4, 0)] {
        let cells = vec![true; (w * h) as usize];
        assert_eq!(step(&cells, w, h).len(), (w * h) as usize);
    }
}

#[test]
fn dead_grid_stays_dead() {
    let cells = vec![false; 20];
    assert_eq!(step(&cells, 5, 4), vec![false; 20]);
}

#[test]
fn isolated_cell_dies() {
    let cells = cells_of(&[".....", ".....", "..#..", ".....", "....."]);
    assert_eq!(step(&cells, 5, 5), vec![false; 25]);
    assert_eq!(step(&vec![true], 1, 1), vec![false]);
}

#[test]
fn block_is_stable() {
    let block = cells_of(&["....", ".##.", ".##.", "...."]);
    assert_eq!(step(&block, 4, 4), block);
    let corner = cells_of(&["##", "##"]);
    assert_eq!(step(&corner, 2, 2), corner);
}

#[test]
fn blinker_oscillates_away_from_the_border() {
    let flat = cells_of(&[".....", ".....", ".###.", ".....", "....."]);
    let upright = cells_of(&[".....", "..#..", "..#..", "..#..", "....."]);
    assert_eq!(step(&flat, 5, 5), upright);
    assert_eq!(step(&upright, 5, 5), flat);
    assert_eq!(step(&step(&flat, 5, 5), 5, 5), flat);
}

#[test]
fn blinker_oscillates_in_three_by_three() {
    let flat = cells_of(&["...", "###", "..."]);
    let upright = cells_of(&[".#.", ".#.", ".#."]);
    assert_eq!(step(&flat, 3, 3), upright);
    assert_eq!(step(&upright, 3, 3), flat);
}

#[test]
fn blinker_is_cut_short_by_the_border() {
    let line = cells_of(&["###"]);
    let middle = cells_of(&[".#."]);
    assert_eq!(step(&line, 3, 1), middle);
    assert_eq!(step(&middle, 3, 1), cells_of(&["..."]));
}

#[test]
fn nothing_wraps_round_an_edge() {
    let column = cells_of(&["..#", "..#", "..#"]);
    let expected = cells_of(&["...", ".##", "..."]);
    assert_eq!(step(&column, 3, 3), expected);
    let row = cells_of(&["...", "...", "###"]);
    assert_eq!(step(&row, 3, 3), cells_of(&["...", ".#.", ".#."]));
}

#[test]
fn row_ends_are_not_neighbors() {
    // The last cell of a row and the first of the next are three columns apart.
    let cells = cells_of(&["...#", "#...", "...#", "...."]);
    assert_eq!(count_alive_neighbors(&cells, 4, 4, 0, 1), 0);
    assert_eq!(count_alive_neighbors(&cells, 4, 4, 3, 1), 2);
    assert_eq!(step(&cells, 4, 4), vec![false; 16]);
}

#[test]
fn neighbor_counts() {
    let full = vec![true; 9];
    assert_eq!(count_alive_neighbors(&full, 3, 3, 1, 1), 8);
    assert_eq!(count_alive_neighbors(&full, 3, 3, 0, 0), 3);
    assert_eq!(count_alive_neighbors(&full, 3, 3, 1, 0), 5);
    assert_eq!(count_alive_neighbors(&full, 3, 3, 2, 2), 3);
    assert_eq!(count_alive_neighbors(&vec![true], 1, 1, 0, 0), 0);
}

#[test]
fn rule_table() {
    for n in 0u8..=8 {
        assert_eq!(decide(true, n), n == 2 || n == 3);
        assert_eq!(decide(false, n), n == 3);
    }
}

#[test]
fn crowded_cells_die() {
    let full = vec![true; 9];
    assert_eq!(step(&full, 3, 3), cells_of(&["#.#", "...", "#.#"]));
}

#[test]
fn update_grid_replaces_the_grid() {
    let mut grid = cells_of(&[".....", ".....", ".###.", ".....", "....."]);
    update_grid(&mut grid, &5, &5);
    assert_eq!(grid, cells_of(&[".....", "..#..", "..#..", "..#..", "....."]));
    update_grid(&mut grid, &5, &5);
    assert_eq!(grid, cells_of(&[".....", ".....", ".###.", ".....", "....."]));
}

#[test]
fn glider_moves() {
    let start = cells_of(&[".#...", "..#..", "###..", ".....", "....."]);
    let mut grid = start.clone();
    for _ in 0..4 {
        update_grid(&mut grid, &5, &5);
    }
    assert_eq!(grid, cells_of(&[".....", "..#..", "...#.", ".###.", "....."]));
}
