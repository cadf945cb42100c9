//! What the compute pipeline is handed and what comes back from it: the
//! parameter block as bytes, the dispatch and copy geometry, and the decoding
//! of the staged bytes into a membership grid.

use crate::glyph::{BLOCK_COLUMNS, BLOCK_ROWS, GLYPHS_PER_LINE, LINES};
use crate::grid::{rows_of, EvalError, HEIGHT, WIDTH};
use vstd::prelude::*;
use vstd::slice::slice_to_vec;

verus! {

/// Cells along each side of one workgroup of the compute kernel.
pub const WORKGROUP_SIZE: u32 = 8;

/// Bytes of the parameter block: four bounds and the iteration count, 32
/// bits each.
pub const UNIFORM_SIZE: u64 = 20;

/// Whether `bits` is the IEEE-754 single-precision pattern of a finite
/// number: its exponent field is not all ones.
pub open spec fn is_finite(bits: u32) -> bool {
    bits % 0x8000_0000 < 0x7f80_0000
}

/// A number that orders finite single-precision patterns as the numbers they
/// stand for: the magnitude field, negated where the sign bit is set. Both
/// zeros come out as 0.
pub open spec fn ordinal(bits: u32) -> int {
    if bits >= 0x8000_0000 {
        0x8000_0000 - bits
    } else {
        bits as int
    }
}

/// Whether `lo` and `hi` are finite and `lo` stands for a smaller number
/// than `hi`.
pub open spec fn spans(lo: u32, hi: u32) -> bool {
    is_finite(lo) && is_finite(hi) && ordinal(lo) < ordinal(hi)
}

/// Whether the four bounds (least and greatest real part, least and
/// greatest imaginary part) enclose a rectangle of positive width and height.
pub open spec fn valid_viewport(bounds: Seq<u32>) -> bool {
    spans(bounds[0], bounds[1]) && spans(bounds[2], bounds[3])
}

/// Byte `place` of a word, counted from the least significant.
pub open spec fn byte_of(word: u32, place: int) -> u8 {
    if place == 0 {
        (word % 0x100) as u8
    } else if place == 1 {
        (word / 0x100 % 0x100) as u8
    } else if place == 2 {
        (word / 0x1_0000 % 0x100) as u8
    } else {
        (word / 0x100_0000 % 0x100) as u8
    }
}

/// The words one after the other, each with its least significant byte
/// first.
pub open spec fn le_bytes(words: Seq<u32>) -> Seq<u8> {
    Seq::new(4 * words.len(), |k: int| byte_of(words[k / 4], k % 4))
}

/// The words one after the other, each with its most significant byte
/// first.
pub open spec fn be_bytes(words: Seq<u32>) -> Seq<u8> {
    Seq::new(4 * words.len(), |k: int| byte_of(words[k / 4], 3 - k % 4))
}

/// `bytemuck::bytes_of` on five 32-bit words: believed, not proved. It
/// hands out the memory of its argument as bytes, so the words follow each
/// other in order, each in the byte order of the machine.
#[verifier::external_body]
fn words_as_bytes(words: &[u32; 5]) -> (bytes: &[u8])
    ensures
        bytes@ == le_bytes(words@) || bytes@ == be_bytes(words@),
{
    bytemuck::bytes_of(words)
}

/// The parameter block of one evaluation. Each bound is held as the
/// IEEE-754 single-precision bit pattern of the number, in the order least
/// real, greatest real, least imaginary, greatest imaginary.
#[derive(Clone, Copy, Debug)]
pub struct Uniform {
    pub bounds: [u32; 4],
    pub iterations: u32,
}

impl Uniform {
    /// Whether the bounds enclose a rectangle of positive width and height.
    pub open spec fn is_valid(&self) -> bool {
        valid_viewport(self.bounds@)
    }

    /// The block as the kernel reads it: the four bounds, then the
    /// iteration count.
    pub open spec fn words(&self) -> Seq<u32> {
        self.bounds@.push(self.iterations)
    }

    /// The parameter block for the given bounds and iteration budget, or
    /// `DegenerateViewport` where the bounds enclose no rectangle.
    pub fn new(bounds: [u32; 4], iterations: u32) -> (made: Result<Uniform, EvalError>)
        ensures
            valid_viewport(bounds@) ==> made == Ok::<Uniform, EvalError>(
                Uniform { bounds, iterations },
            ),
            !valid_viewport(bounds@) ==> made == Err::<Uniform, EvalError>(
                EvalError::DegenerateViewport,
            ),
    {
        if bounds_span(bounds[0], bounds[1]) && bounds_span(bounds[2], bounds[3]) {
            Ok(Uniform { bounds, iterations })
        } else {
            Err(EvalError::DegenerateViewport)
        }
    }

    /// The bytes to write into the uniform buffer: the five words in the
    /// byte order of the machine.
    pub fn to_bytes(&self) -> (bytes: Vec<u8>)
        ensures
            bytes@ == le_bytes(self.words()) || bytes@ == be_bytes(self.words()),
            bytes@.len() == UNIFORM_SIZE,
    {
        let words: [u32; 5] = [
            self.bounds[0],
            self.bounds[1],
            self.bounds[2],
            self.bounds[3],
            self.iterations,
        ];
        assert(words@ =~= self.words());
        slice_to_vec(words_as_bytes(&words))
    }
}

/// Whether `lo` and `hi` are finite patterns and `lo` stands for the smaller
/// number.
pub fn bounds_span(lo: u32, hi: u32) -> (fits: bool)
    ensures
        fits == spans(lo, hi),
{
    match (finite_ordinal(lo), finite_ordinal(hi)) {
        (Some(below), Some(above)) => below < above,
        _ => false,
    }
}

/// The ordinal of a finite pattern, and nothing for one that is not finite.
fn finite_ordinal(bits: u32) -> (place: Option<i64>)
    ensures
        is_finite(bits) ==> place == Some(ordinal(bits) as i64),
        !is_finite(bits) ==> place.is_none(),
{
    let negative = bits >= 0x8000_0000;
    let magnitude: u32 = if negative {
        bits - 0x8000_0000
    } else {
        bits
    };
    if magnitude >= 0x7f80_0000 {
        None
    } else if negative {
        Some(-(magnitude as i64))
    } else {
        Some(magnitude as i64)
    }
}

/// Whether both sides of the grid are whole numbers of workgroups.
pub open spec fn whole_workgroups(width: u32, height: u32) -> bool {
    width % WORKGROUP_SIZE == 0 && height % WORKGROUP_SIZE == 0
}

/// Whether the grid is made of whole glyph blocks.
pub open spec fn whole_blocks(width: u32, height: u32) -> bool {
    width as int % BLOCK_COLUMNS as int == 0 && height as int % BLOCK_ROWS as int == 0
}

/// Whether a grid of the given size can be evaluated and packed: it is not
/// empty and is made of whole workgroups and of whole glyph blocks.
pub open spec fn dimensions_fit(width: u32, height: u32) -> bool {
    width > 0 && height > 0 && whole_workgroups(width, height) && whole_blocks(width, height)
}

/// The fixed grid fits, and its glyph blocks fill the lines of the packed
/// text.
pub proof fn lemma_fixed_grid_fits()
    ensures
        dimensions_fit(WIDTH as u32, HEIGHT as u32),
        GLYPHS_PER_LINE * BLOCK_COLUMNS == WIDTH,
        LINES * BLOCK_ROWS == HEIGHT,
{
}

/// The geometry of one evaluation on the device.
#[derive(Clone, Copy, Debug, PartialEq, Eq, Structural)]
pub struct RenderPlan {
    /// Workgroups to dispatch along the columns.
    pub workgroups_x: u32,
    /// Workgroups to dispatch along the rows.
    pub workgroups_y: u32,
    /// Workgroups to dispatch in depth.
    pub workgroups_z: u32,
    /// Bytes of one row of cells in the staging buffer.
    pub bytes_per_row: u32,
    /// Rows of cells in the staging buffer.
    pub rows_per_image: u32,
    /// Bytes of the staging buffer: one for each cell.
    pub staging_size: u64,
}

/// The plan that `render_plan` makes for a grid that fits.
pub open spec fn plan_for(width: u32, height: u32) -> RenderPlan {
    RenderPlan {
        workgroups_x: width / WORKGROUP_SIZE,
        workgroups_y: height / WORKGROUP_SIZE,
        workgroups_z: 1,
        bytes_per_row: width,
        rows_per_image: height,
        staging_size: (width * height) as u64,
    }
}

/// The dispatch and copy geometry for a grid of `width` by `height` cells,
/// or `BadDimensions` where such a grid does not fit.
pub fn render_plan(width: u32, height: u32) -> (plan: Result<RenderPlan, EvalError>)
    ensures
        dimensions_fit(width, height) ==> plan == Ok::<RenderPlan, EvalError>(
            plan_for(width, height),
        ),
        !dimensions_fit(width, height) ==> plan == Err::<RenderPlan, EvalError>(
            EvalError::BadDimensions,
        ),
{
    if width == 0 || height == 0 {
        return Err(EvalError::BadDimensions);
    }
    if width % WORKGROUP_SIZE != 0 || height % WORKGROUP_SIZE != 0 {
        return Err(EvalError::BadDimensions);
    }
    if width as usize % BLOCK_COLUMNS != 0 || height as usize % BLOCK_ROWS != 0 {
        return Err(EvalError::BadDimensions);
    }
    assert(width * height <= u64::MAX) by (nonlinear_arith)
        requires
            width <= u32::MAX,
            height <= u32::MAX,
    ;
    Ok(
        RenderPlan {
            workgroups_x: width / WORKGROUP_SIZE,
            workgroups_y: height / WORKGROUP_SIZE,
            workgroups_z: 1,
            bytes_per_row: width,
            rows_per_image: height,
            staging_size: width as u64 * height as u64,
        },
    )
}

/// The grid that staged bytes stand for: one byte for each cell, row after
/// row, and a cell is a member where its byte is not zero.
pub open spec fn decoded_rows(bytes: Seq<u8>) -> Seq<Seq<bool>> {
    Seq::new(HEIGHT as nat, |r: int| Seq::new(WIDTH as nat, |c: int| bytes[r * WIDTH + c] != 0))
}

/// Decodes the bytes read back from the staging buffer, or reports
/// `ReadbackFailed` where they are not one byte for each cell.
pub fn grid_from_bytes(bytes: &[u8]) -> (decoded: Result<[[bool; WIDTH]; HEIGHT], EvalError>)
    ensures
        bytes@.len() == WIDTH * HEIGHT ==> decoded.is_ok() && rows_of(decoded.unwrap())
            == decoded_rows(bytes@),
        bytes@.len() != WIDTH * HEIGHT ==> decoded == Err::<[[bool; WIDTH]; HEIGHT], EvalError>(
            EvalError::ReadbackFailed,
        ),
{
    if bytes.len() != WIDTH * HEIGHT {
        return Err(EvalError::ReadbackFailed);
    }
    let mut grid = [[false; WIDTH]; HEIGHT];
    let mut row: usize = 0;
    while row < HEIGHT
        invariant
            row <= HEIGHT,
            bytes@.len() == WIDTH * HEIGHT,
            forall|r: int| 0 <= r < row ==> (#[trigger] grid[r])@ == decoded_rows(bytes@)[r],
        decreases HEIGHT - row,
    {
        let mut line = [false; WIDTH];
        let mut col: usize = 0;
        while col < WIDTH
            invariant
                row < HEIGHT,
                col <= WIDTH,
                bytes@.len() == WIDTH * HEIGHT,
                forall|c: int| 0 <= c < col ==> #[trigger] line[c] == (bytes@[row * WIDTH + c] != 0),
            decreases WIDTH - col,
        {
            line[col] = bytes[row * WIDTH + col] != 0;
            col = col + 1;
        }
        assert(line@ =~= decoded_rows(bytes@)[row as int]);
        grid[row] = line;
        row = row + 1;
    }
    assert(rows_of(grid) =~= decoded_rows(bytes@));
    Ok(grid)
}

} // verus!
