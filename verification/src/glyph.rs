//! Packing of a membership grid into eight-dot glyphs, one glyph for each
//! block of two columns by four rows.

use crate::grid::{rows_of, HEIGHT, WIDTH};
use vstd::prelude::*;
use vstd::string::StringExecFns;

verus! {

/// Code point of the glyph that shows no dot.
pub const BRAILLE_BASE: u32 = 0x2800;

/// Columns of the grid that one glyph shows.
pub const BLOCK_COLUMNS: usize = 2;

/// Rows of the grid that one glyph shows.
pub const BLOCK_ROWS: usize = 4;

/// Glyphs in one line of packed text.
pub const GLYPHS_PER_LINE: usize = 64;

/// Lines of packed text.
pub const LINES: usize = 32;

/// `weight` where the dot is set, nothing where it is not.
pub open spec fn dot(set: bool, weight: int) -> int {
    if set {
        weight
    } else {
        0
    }
}

/// The bit pattern of a block of four rows of two dots: the upper three
/// dots of the left column are bits 0 to 2, those of the right column bits
/// 3 to 5, and the bottom row holds bits 6 and 7.
pub open spec fn block_pattern(block: Seq<Seq<bool>>) -> int {
    dot(block[0][0], 1) + dot(block[1][0], 2) + dot(block[2][0], 4)
        + dot(block[0][1], 8) + dot(block[1][1], 16) + dot(block[2][1], 32)
        + dot(block[3][0], 64) + dot(block[3][1], 128)
}

/// The glyph that shows the given bit pattern.
pub open spec fn glyph_of(pattern: int) -> char {
    (BRAILLE_BASE + pattern) as char
}

/// Place value of the dot at (`row`, `col`) of a block.
spec fn dot_weight(row: int, col: int) -> int {
    if row == 0 && col == 0 {
        1
    } else if row == 1 && col == 0 {
        2
    } else if row == 2 && col == 0 {
        4
    } else if row == 0 && col == 1 {
        8
    } else if row == 1 && col == 1 {
        16
    } else if row == 2 && col == 1 {
        32
    } else if row == 3 && col == 0 {
        64
    } else {
        128
    }
}

/// The pattern gathered from the first `n` dots of a block, read row by row.
spec fn scanned_pattern(block: Seq<Seq<bool>>, n: int) -> int
    decreases n,
{
    if n <= 0 {
        0
    } else {
        let row = (n - 1) / 2;
        let col = (n - 1) % 2;
        scanned_pattern(block, n - 1) + dot(block[row][col], dot_weight(row, col))
    }
}

/// Reading all eight dots row by row gathers the block's pattern.
proof fn lemma_scan_is_pattern(block: Seq<Seq<bool>>)
    ensures
        scanned_pattern(block, 8) == block_pattern(block),
{
    reveal_with_fuel(scanned_pattern, 9);
}

/// Every pattern fits in eight bits, so every glyph lies in the block of 256
/// code points that starts at `BRAILLE_BASE`, at the place of its pattern.
pub proof fn lemma_glyph_is_in_block(block: Seq<Seq<bool>>)
    ensures
        0 <= block_pattern(block) < 256,
        glyph_of(block_pattern(block)) as int == BRAILLE_BASE + block_pattern(block),
{
}

fn weight_at(row: usize, col: usize) -> (weight: u32)
    requires
        row < 4,
        col < 2,
    ensures
        weight == dot_weight(row as int, col as int),
{
    if row == 3 {
        if col == 0 { 64 } else { 128 }
    } else if col == 0 {
        if row == 0 { 1 } else if row == 1 { 2 } else { 4 }
    } else {
        if row == 0 { 8 } else if row == 1 { 16 } else { 32 }
    }
}

/// The glyph for one block of four rows of two dots.
pub fn braille_from_8dot_grid(grid: [[bool; 2]; 4]) -> (glyph: char)
    ensures
        glyph == glyph_of(block_pattern(rows_of(grid))),
{
    let ghost block = rows_of(grid);
    let mut value: u32 = 0;
    let mut row: usize = 0;
    while row < 4
        invariant
            row <= 4,
            block == rows_of(grid),
            value == scanned_pattern(block, 2 * row),
            value < 256,
        decreases 4 - row,
    {
        let mut col: usize = 0;
        while col < 2
            invariant
                row < 4,
                col <= 2,
                block == rows_of(grid),
                value == scanned_pattern(block, 2 * row + col),
                value < 256,
            decreases 2 - col,
        {
            proof {
                lemma_scan_bounded(block, 2 * row + col + 1);
            }
            if grid[row][col] {
                value = value + weight_at(row, col);
            }
            col = col + 1;
        }
        row = row + 1;
    }
    proof {
        lemma_scan_is_pattern(block);
    }
    match char::from_u32(BRAILLE_BASE + value) {
        Some(c) => c,
        None => '?',
    }
}

/// The first `n` dots weigh no more than all eight together.
proof fn lemma_scan_bounded(block: Seq<Seq<bool>>, n: int)
    requires
        0 <= n <= 8,
    ensures
        0 <= scanned_pattern(block, n) < 256,
        n < 8 ==> scanned_pattern(block, n) + dot_weight(n / 2, n % 2) < 256,
{
    reveal_with_fuel(scanned_pattern, 9);
}

/// The block of the grid that glyph `pos` of line `line` shows: four rows
/// from row `4 * line` on, two columns from column `2 * pos` on.
pub open spec fn grid_block(rows: Seq<Seq<bool>>, line: int, pos: int) -> Seq<Seq<bool>> {
    Seq::new(
        BLOCK_ROWS as nat,
        |r: int|
            Seq::new(
                BLOCK_COLUMNS as nat,
                |c: int| rows[BLOCK_ROWS * line + r][BLOCK_COLUMNS * pos + c],
            ),
    )
}

/// Glyph `pos` of line `line` of the packed grid.
pub open spec fn grid_glyph(rows: Seq<Seq<bool>>, line: int, pos: int) -> char {
    glyph_of(block_pattern(grid_block(rows, line, pos)))
}

/// The first `n` glyphs of line `line`.
pub open spec fn glyph_run(rows: Seq<Seq<bool>>, line: int, n: int) -> Seq<char> {
    Seq::new(n as nat, |pos: int| grid_glyph(rows, line, pos))
}

/// What ends each line of packed text: a line feed, then a carriage return.
pub open spec fn line_break() -> Seq<char> {
    seq!['\n', '\r']
}

/// Line `line` of the packed grid, with its line break.
pub open spec fn packed_line(rows: Seq<Seq<bool>>, line: int) -> Seq<char> {
    glyph_run(rows, line, GLYPHS_PER_LINE as int) + line_break()
}

/// The first `n` lines of the packed grid, one after the other.
pub open spec fn packed_lines(rows: Seq<Seq<bool>>, n: int) -> Seq<char>
    decreases n,
{
    if n <= 0 {
        Seq::empty()
    } else {
        packed_lines(rows, n - 1) + packed_line(rows, n - 1)
    }
}

/// The packed text of a grid: its block rows from top to bottom, each as
/// one line of glyphs from left to right.
pub open spec fn packed_text(rows: Seq<Seq<bool>>) -> Seq<char> {
    packed_lines(rows, LINES as int)
}

/// Packs the grid into text, one glyph for each block of two columns by
/// four rows and a line break after each row of blocks.
pub fn grid_to_string(grid: [[bool; WIDTH]; HEIGHT]) -> (text: String)
    ensures
        text@ == packed_text(rows_of(grid)),
{
    let ghost rows = rows_of(grid);
    let mut chunks = String::new();
    let mut row_start: usize = 0;
    while row_start < HEIGHT
        invariant
            row_start <= HEIGHT,
            row_start % BLOCK_ROWS == 0,
            rows == rows_of(grid),
            chunks@ == packed_lines(rows, row_start as int / BLOCK_ROWS as int),
        decreases HEIGHT - row_start,
    {
        let ghost line = row_start as int / BLOCK_ROWS as int;
        let ghost done = chunks@;
        let mut col_start: usize = 0;
        while col_start < WIDTH
            invariant
                row_start < HEIGHT,
                row_start % BLOCK_ROWS == 0,
                line == row_start as int / BLOCK_ROWS as int,
                col_start <= WIDTH,
                col_start % BLOCK_COLUMNS == 0,
                rows == rows_of(grid),
                chunks@ == done + glyph_run(rows, line, col_start as int / BLOCK_COLUMNS as int),
            decreases WIDTH - col_start,
        {
            let block: [[bool; 2]; 4] = [
                [grid[row_start][col_start], grid[row_start][col_start + 1]],
                [grid[row_start + 1][col_start], grid[row_start + 1][col_start + 1]],
                [grid[row_start + 2][col_start], grid[row_start + 2][col_start + 1]],
                [grid[row_start + 3][col_start], grid[row_start + 3][col_start + 1]],
            ];
            let glyph = braille_from_8dot_grid(block);
            chunks.push(glyph);
            proof {
                let pos = col_start as int / BLOCK_COLUMNS as int;
                assert(rows_of(block) =~~= grid_block(rows, line, pos));
                assert(glyph_run(rows, line, pos + 1) =~= glyph_run(rows, line, pos).push(glyph));
                assert(chunks@ =~= done + glyph_run(rows, line, pos + 1));
            }
            col_start = col_start + BLOCK_COLUMNS;
        }
        chunks.append("\n\r");
        proof {
            reveal_strlit("\n\r");
            assert("\n\r"@ =~= line_break());
            assert(chunks@ =~= done + packed_line(rows, line));
        }
        row_start = row_start + BLOCK_ROWS;
    }
    chunks
}

/// Characters in one line of packed text, line break included.
pub open spec fn line_len() -> int {
    GLYPHS_PER_LINE as int + 2
}

/// Character `pos` of line `line` of the packed grid.
pub open spec fn packed_char(rows: Seq<Seq<bool>>, line: int, pos: int) -> char {
    if pos < GLYPHS_PER_LINE as int {
        grid_glyph(rows, line, pos)
    } else if pos == GLYPHS_PER_LINE as int {
        '\n'
    } else {
        '\r'
    }
}

/// Whether no cell of the grid is set.
pub open spec fn all_clear(rows: Seq<Seq<bool>>) -> bool {
    forall|r: int, c: int|
        0 <= r < HEIGHT as int && 0 <= c < WIDTH as int ==> !(#[trigger] rows[r][c])
}

/// Whether two grids agree in every cell.
pub open spec fn same_cells(a: Seq<Seq<bool>>, b: Seq<Seq<bool>>) -> bool {
    forall|r: int, c: int|
        0 <= r < HEIGHT as int && 0 <= c < WIDTH as int ==> #[trigger] a[r][c] == #[trigger] b[r][c]
}

proof fn lemma_packed_lines_layout(rows: Seq<Seq<bool>>, n: int)
    requires
        0 <= n,
    ensures
        packed_lines(rows, n).len() == line_len() * n,
        forall|line: int, pos: int|
            0 <= line < n && 0 <= pos < line_len() ==> packed_lines(rows, n)[line_len() * line
                + pos] == #[trigger] packed_char(rows, line, pos),
    decreases n,
{
    if n > 0 {
        lemma_packed_lines_layout(rows, n - 1);
        let before = packed_lines(rows, n - 1);
        let last = packed_line(rows, n - 1);
        assert(last.len() == line_len());
        assert forall|line: int, pos: int| 0 <= line < n && 0 <= pos < line_len() implies packed_lines(
            rows,
            n,
        )[line_len() * line + pos] == #[trigger] packed_char(rows, line, pos) by {
            if line < n - 1 {
                assert(before[line_len() * line + pos] == packed_char(rows, line, pos));
            } else {
                assert((before + last)[line_len() * line + pos] == last[pos]);
            }
        }
    }
}

/// The packed text holds one line of glyphs for each row of blocks, each
/// followed by its line break, and nothing else.
pub proof fn lemma_packed_text_layout(rows: Seq<Seq<bool>>)
    ensures
        packed_text(rows).len() == LINES as int * line_len(),
        forall|line: int, pos: int|
            0 <= line < LINES as int && 0 <= pos < line_len() ==> packed_text(rows)[line_len() * line
                + pos] == #[trigger] packed_char(rows, line, pos),
{
    lemma_packed_lines_layout(rows, LINES as int);
}

/// The text of as many lines as a packed grid has, every glyph blank.
pub open spec fn blank_text() -> Seq<char> {
    Seq::new(
        (LINES as int * line_len()) as nat,
        |k: int|
            if k % line_len() < GLYPHS_PER_LINE as int {
                '\u{2800}'
            } else if k % line_len() == GLYPHS_PER_LINE as int {
                '\n'
            } else {
                '\r'
            },
    )
}

/// A grid with no cell set packs into lines of blank glyphs.
pub proof fn lemma_clear_grid_packs_blank(rows: Seq<Seq<bool>>)
    requires
        all_clear(rows),
    ensures
        packed_text(rows) == blank_text(),
{
    lemma_packed_text_layout(rows);
    assert forall|k: int| 0 <= k < packed_text(rows).len() implies packed_text(rows)[k]
        == blank_text()[k] by {
        let line = k / line_len();
        let pos = k % line_len();
        assert(k == line_len() * line + pos);
        if pos < GLYPHS_PER_LINE as int {
            lemma_block_cells(rows, line, pos);
            assert(block_pattern(grid_block(rows, line, pos)) == 0);
        }
        assert(packed_text(rows)[k] == packed_char(rows, line, pos));
    }
    assert(packed_text(rows) =~= blank_text());
}

/// Packing reads nothing but the cells: grids that agree in every cell pack
/// into the same text, so packing a grid again gives the same text again.
pub proof fn lemma_same_cells_pack_alike(a: Seq<Seq<bool>>, b: Seq<Seq<bool>>)
    requires
        same_cells(a, b),
    ensures
        packed_text(a) == packed_text(b),
{
    lemma_packed_text_layout(a);
    lemma_packed_text_layout(b);
    assert forall|k: int| 0 <= k < packed_text(a).len() implies packed_text(a)[k] == packed_text(b)[k] by {
        let line = k / line_len();
        let pos = k % line_len();
        assert(k == line_len() * line + pos);
        if pos < GLYPHS_PER_LINE as int {
            lemma_block_cells(a, line, pos);
            lemma_block_cells(b, line, pos);
            assert(grid_block(a, line, pos) =~~= grid_block(b, line, pos));
        }
        assert(packed_char(a, line, pos) == packed_char(b, line, pos));
    }
    assert(packed_text(a) =~= packed_text(b));
}

/// Nothing is lost in packing: grids with the same packed text agree in
/// every cell.
pub proof fn lemma_packed_text_determines_cells(a: Seq<Seq<bool>>, b: Seq<Seq<bool>>)
    requires
        packed_text(a) == packed_text(b),
    ensures
        same_cells(a, b),
{
    lemma_packed_text_layout(a);
    lemma_packed_text_layout(b);
    assert forall|r: int, c: int| 0 <= r < HEIGHT as int && 0 <= c < WIDTH as int implies #[trigger] a[r][c]
        == #[trigger] b[r][c] by {
        let line = r / BLOCK_ROWS as int;
        let pos = c / BLOCK_COLUMNS as int;
        lemma_block_cells(a, line, pos);
        lemma_block_cells(b, line, pos);
        lemma_glyph_is_in_block(grid_block(a, line, pos));
        lemma_glyph_is_in_block(grid_block(b, line, pos));
        assert(packed_char(a, line, pos) == packed_char(b, line, pos));
        let pa = block_pattern(grid_block(a, line, pos));
        let pb = block_pattern(grid_block(b, line, pos));
        assert(pa == pb);
        assert(a[4 * line + r % 4][2 * pos + c % 2] == b[4 * line + r % 4][2 * pos + c % 2]);
    }
}

/// The cells of a block are the cells of the grid that it covers.
proof fn lemma_block_cells(rows: Seq<Seq<bool>>, line: int, pos: int)
    ensures
        forall|r: int, c: int|
            0 <= r < 4 && 0 <= c < 2 ==> #[trigger] grid_block(rows, line, pos)[r][c] == rows[4 * line
                + r][2 * pos + c],
{
}

} // verus!
