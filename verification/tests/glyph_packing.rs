use fractal_explorer::glyph::{braille_from_8dot_grid, grid_to_string, GLYPHS_PER_LINE, LINES};
use fractal_explorer::grid::{HEIGHT, WIDTH};

fn block_with(row: usize, col: usize) -> [[bool; 2]; 4] {
    let mut block = [[false; 2]; 4];
    block[row][col] = true;
    block
}

fn checkerboard() -> [[bool; WIDTH]; HEIGHT] {
    let mut grid = [[false; WIDTH]; HEIGHT];
    for (r, row) in grid.iter_mut().enumerate() {
        for (c, cell) in row.iter_mut().enumerate() {
            *cell = (r + c) % 2 == 0;
        }
    }
    grid
}

#[test]
fn empty_block_is_the_blank_glyph() {
    assert_eq!(braille_from_8dot_grid([[false; 2]; 4]), '\u{2800}');
}

#[test]
fn full_block_sets_all_eight_bits() {
    assert_eq!(braille_from_8dot_grid([[true; 2]; 4]), '\u{28FF}');
}

#[test]
fn each_dot_has_its_own_bit() {
    assert_eq!(braille_from_8dot_grid(block_with(0, 0)), '\u{2801}');
    assert_eq!(braille_from_8dot_grid(block_with(1, 0)), '\u{2802}');
    assert_eq!(braille_from_8dot_grid(block_with(2, 0)), '\u{2804}');
    assert_eq!(braille_from_8dot_grid(block_with(0, 1)), '\u{2808}');
    assert_eq!(braille_from_8dot_grid(block_with(1, 1)), '\u{2810}');
    assert_eq!(braille_from_8dot_grid(block_with(2, 1)), '\u{2820}');
    assert_eq!(braille_from_8dot_grid(block_with(3, 0)), '\u{2840}');
    assert_eq!(braille_from_8dot_grid(block_with(3, 1)), '\u{2880}');
}

#[test]
fn mixed_block_adds_the_bits_up() {
    let block = [[true, false], [false, true], [false, false], [true, true]];
    assert_eq!(braille_from_8dot_grid(block), '\u{28D1}');
}

#[test]
fn left_column_and_right_column() {
    let left = [[true, false], [true, false], [true, false], [true, false]];
    let right = [[false, true], [false, true], [false, true], [false, true]];
    assert_eq!(braille_from_8dot_grid(left), '\u{2847}');
    assert_eq!(braille_from_8dot_grid(right), '\u{28B8}');
}

#[test]
fn clear_grid_packs_into_blank_lines() {
    let text = grid_to_string([[false; WIDTH]; HEIGHT]);
    let mut line = "\u{2800}".repeat(64);
    line.push_str("\n\r");
    assert_eq!(text, line.repeat(32));
    assert_eq!(text.chars().count(), 32 * 66);
    assert_eq!(text.split("\n\r").count(), 33);
    assert!(text.ends_with("\n\r"));
}

#[test]
fn full_grid_packs_into_full_glyphs() {
    let text = grid_to_string([[true; WIDTH]; HEIGHT]);
    let mut line = "\u{28FF}".repeat(GLYPHS_PER_LINE);
    line.push_str("\n\r");
    assert_eq!(text, line.repeat(LINES));
}

#[test]
fn packing_twice_gives_the_same_text() {
    let grid = checkerboard();
    let first = grid_to_string(grid);
    let second = grid_to_string(grid);
    assert_eq!(first.as_bytes(), second.as_bytes());
}

#[test]
fn checkerboard_alternates_in_every_block() {
    let text = grid_to_string(checkerboard());
    let chars: Vec<char> = text.chars().collect();
    // Set cells: (0,0), (1,1), (2,0), (3,1): bits 0, 4, 2 and 7.
    assert_eq!(chars[0], '\u{2895}');
    assert!(chars.iter().all(|&c| c == '\u{2895}' || c == '\n' || c == '\r'));
}

#[test]
fn one_cell_shows_in_one_glyph() {
    let mut grid = [[false; WIDTH]; HEIGHT];
    // Row 6 is row 2 of block row 1; column 9 is column 1 of block 4.
    grid[6][9] = true;
    let chars: Vec<char> = grid_to_string(grid).chars().collect();
    for (k, &c) in chars.iter().enumerate() {
        let line = k / 66;
        let pos = k % 66;
        let expected = if pos == 64 {
            '\n'
        } else if pos == 65 {
            '\r'
        } else if line == 1 && pos == 4 {
            '\u{2820}'
        } else {
            '\u{2800}'
        };
        assert_eq!(c, expected, "line {} position {}", line, pos);
    }
}

#[test]
fn corner_cells_land_in_corner_glyphs() {
    let mut grid = [[false; WIDTH]; HEIGHT];
    grid[0][0] = true;
    grid[127][127] = true;
    let chars: Vec<char> = grid_to_string(grid).chars().collect();
    assert_eq!(chars[0], '\u{2801}');
    assert_eq!(chars[31 * 66 + 63], '\u{2880}');
    assert_eq!(chars[31 * 66 + 64], '\n');
    assert_eq!(chars[31 * 66 + 65], '\r');
}

#[test]
fn different_grids_pack_differently() {
    let clear = [[false; WIDTH]; HEIGHT];
    for &(r, c) in &[(0usize, 0usize), (3, 1), (64, 64), (127, 0), (5, 126)] {
        let mut grid = clear;
        grid[r][c] = true;
        assert_ne!(grid_to_string(grid), grid_to_string(clear));
    }
}
