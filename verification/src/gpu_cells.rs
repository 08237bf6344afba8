//! Per-cell data uploaded to the GPU, and read-back of a rendered frame.
use crate::cell::TerminalCell;
use crate::text::{first_index_of, lemma_first_index_of, lemma_first_index_prefix};
use vstd::prelude::*;

verus! {

/// One cell as the cell shader reads it.
#[derive(Clone, Copy, Debug, PartialEq, Eq)]
pub struct GpuCell {
    pub bg_color: u32,
    pub fg_color: u32,
    pub char_idx: u32,
    pub bold: u32,
}

/// Glyph index meaning "draw no glyph".
pub const NO_GLYPH: u32 = 0xFFFFFFFF;

/// `0xRRGGBB` packing of a colour.
pub open spec fn pack_rgb(c: (u8, u8, u8)) -> u32 {
    (c.0 as int * 65536 + c.1 as int * 256 + c.2 as int) as u32
}

/// Glyph index of `ch` in the atlas: none for a space or a character the atlas lacks.
pub open spec fn glyph_index(atlas: Seq<char>, ch: char) -> u32 {
    if ch == ' ' {
        NO_GLYPH
    } else {
        match first_index_of(atlas, ch) {
            Some(i) => i as u32,
            None => NO_GLYPH,
        }
    }
}

/// Shader data for a grid cell.
pub open spec fn gpu_cell_of(cell: TerminalCell, atlas: Seq<char>) -> GpuCell {
    GpuCell {
        bg_color: pack_rgb(cell.bg),
        fg_color: pack_rgb(cell.fg),
        char_idx: glyph_index(atlas, cell.ch),
        bold: if cell.bold {
            1
        } else {
            0
        },
    }
}

/// Shader data for a position outside the grid: black, white foreground, no glyph.
pub open spec fn blank_gpu_cell() -> GpuCell {
    GpuCell { bg_color: 0, fg_color: 0xFFFFFF, char_idx: NO_GLYPH, bold: 0 }
}

/// Index in the grid of viewport cell (`row`, `col`).
pub open spec fn grid_index(grid_cols: int, col_start: int, row_start: int, row: int, col: int) -> int {
    (row_start + row) * grid_cols + (col_start + col)
}

/// Shader data for viewport cell (`row`, `col`).
pub open spec fn viewport_cell(
    grid: Seq<TerminalCell>,
    grid_cols: int,
    col_start: int,
    row_start: int,
    atlas: Seq<char>,
    row: int,
    col: int,
) -> GpuCell {
    let index = grid_index(grid_cols, col_start, row_start, row, col);
    if index < grid.len() {
        gpu_cell_of(grid[index], atlas)
    } else {
        blank_gpu_cell()
    }
}

/// The grid indices a `cols` x `rows` viewport reads all fit in a `usize`.
pub open spec fn viewport_indices_fit(
    grid_cols: int,
    col_start: int,
    row_start: int,
    cols: int,
    rows: int,
) -> bool {
    rows == 0 || cols == 0 || {
        &&& row_start + rows - 1 <= usize::MAX
        &&& col_start + cols - 1 <= usize::MAX
        &&& grid_index(grid_cols, col_start, row_start, rows - 1, cols - 1) <= usize::MAX
    }
}

fn pack_color(c: (u8, u8, u8)) -> (r: u32)
    ensures
        r == pack_rgb(c),
{
    let r = ((c.0 as u32) << 16) | ((c.1 as u32) << 8) | (c.2 as u32);
    let (a, b, d) = c;
    assert(((a as u32) << 16) | ((b as u32) << 8) | (d as u32) == (a as u32) * 65536 + (b as u32)
        * 256 + (d as u32)) by (bit_vector);
    r
}

fn find_glyph(atlas_chars: &[char], ch: char) -> (r: u32)
    ensures
        ch != ' ' ==> r == glyph_index(atlas_chars@, ch),
{
    let mut i: usize = 0;
    while i < atlas_chars.len()
        invariant
            i <= atlas_chars@.len(),
            first_index_of(atlas_chars@.take(i as int), ch) is None,
        decreases atlas_chars.len() - i,
    {
        assert(atlas_chars@.take(i + 1).drop_last() =~= atlas_chars@.take(i as int));
        if atlas_chars[i] == ch {
            proof { lemma_first_index_prefix(atlas_chars@, (i + 1) as int, ch); }
            return i as u32;
        }
        i += 1;
    }
    assert(atlas_chars@.take(i as int) =~= atlas_chars@);
    NO_GLYPH
}

/// Builds the shader data for a `cols` x `rows` viewport starting at
/// (`row_start`, `col_start`) of a grid `grid_cols` wide, row by row.
pub fn build_gpu_cells(
    grid: &[TerminalCell],
    grid_cols: usize,
    col_start: usize,
    row_start: usize,
    cols: usize,
    rows: usize,
    atlas_chars: &[char],
) -> (cells: Vec<GpuCell>)
    requires
        cols * rows <= usize::MAX,
        viewport_indices_fit(grid_cols as int, col_start as int, row_start as int, cols as int, rows as int),
    ensures
        cells@.len() == cols * rows,
        forall|row: int, col: int|
            0 <= row < rows && 0 <= col < cols ==> #[trigger] cells@[row * cols + col]
                == viewport_cell(grid@, grid_cols as int, col_start as int, row_start as int, atlas_chars@, row, col),
{
    let mut gpu_cells: Vec<GpuCell> = Vec::with_capacity(cols * rows);
    let mut row: usize = 0;
    while row < rows
        invariant
            row <= rows,
            cols * rows <= usize::MAX,
            viewport_indices_fit(grid_cols as int, col_start as int, row_start as int, cols as int, rows as int),
            gpu_cells@.len() == row * cols,
            forall|r: int, c: int|
                0 <= r < row && 0 <= c < cols ==> #[trigger] gpu_cells@[r * cols + c]
                    == viewport_cell(grid@, grid_cols as int, col_start as int, row_start as int, atlas_chars@, r, c),
        decreases rows - row,
    {
        let mut col: usize = 0;
        while col < cols
            invariant
                row < rows,
                col <= cols,
                viewport_indices_fit(grid_cols as int, col_start as int, row_start as int, cols as int, rows as int),
                gpu_cells@.len() == row * cols + col,
                forall|r: int, c: int|
                    0 <= r < row && 0 <= c < cols ==> #[trigger] gpu_cells@[r * cols + c]
                        == viewport_cell(grid@, grid_cols as int, col_start as int, row_start as int, atlas_chars@, r, c),
                forall|c: int|
                    0 <= c < col ==> #[trigger] gpu_cells@[row * cols + c]
                        == viewport_cell(grid@, grid_cols as int, col_start as int, row_start as int, atlas_chars@, row as int, c),
            decreases cols - col,
        {
            proof {
                lemma_grid_index_bounded(grid_cols as int, col_start as int, row_start as int, cols as int, rows as int, row as int, col as int);
            }
            let index = (row_start + row) * grid_cols + (col_start + col);
            let ghost before = gpu_cells@;
            if index < grid.len() {
                let cell = grid[index];
                let bg_color = pack_color(cell.bg);
                let fg_color = pack_color(cell.fg);
                let char_idx = if cell.ch == ' ' {
                    NO_GLYPH
                } else {
                    find_glyph(atlas_chars, cell.ch)
                };
                gpu_cells.push(GpuCell { bg_color, fg_color, char_idx, bold: if cell.bold { 1 } else { 0 } });
            } else {
                gpu_cells.push(GpuCell { bg_color: 0, fg_color: 0xFFFFFF, char_idx: NO_GLYPH, bold: 0 });
            }
            proof {
                assert forall|r: int, c: int|
                    0 <= r < row && 0 <= c < cols implies #[trigger] gpu_cells@[r * cols + c]
                        == viewport_cell(grid@, grid_cols as int, col_start as int, row_start as int, atlas_chars@, r, c) by {
                    lemma_row_major_lt(r, c, row as int, cols as int);
                    assert(gpu_cells@[r * cols + c] == before[r * cols + c]);
                }
                assert forall|c: int|
                    0 <= c < col + 1 implies #[trigger] gpu_cells@[row * cols + c]
                        == viewport_cell(grid@, grid_cols as int, col_start as int, row_start as int, atlas_chars@, row as int, c) by {
                    if c < col {
                        assert(gpu_cells@[row * cols + c] == before[row * cols + c]);
                    }
                }
            }
            col += 1;
        }
        proof {
            vstd::arithmetic::mul::lemma_mul_is_distributive_add_other_way(cols as int, row as int, 1);
        }
        row += 1;
    }
    proof {
        vstd::arithmetic::mul::lemma_mul_is_commutative(rows as int, cols as int);
    }
    gpu_cells
}

/// Row-major positions of earlier rows come before the start of row `row`.
proof fn lemma_row_major_lt(r: int, c: int, row: int, cols: int)
    requires
        0 <= r < row,
        0 <= c < cols,
    ensures
        r * cols + c < row * cols,
{
    assert(r * cols + c < row * cols) by (nonlinear_arith)
        requires
            0 <= r < row,
            0 <= c < cols,
    ;
}

/// Every index the viewport reads is at most the last one, which fits in a `usize`.
proof fn lemma_grid_index_bounded(
    grid_cols: int,
    col_start: int,
    row_start: int,
    cols: int,
    rows: int,
    row: int,
    col: int,
)
    requires
        grid_cols >= 0,
        col_start >= 0,
        row_start >= 0,
        0 <= row < rows,
        0 <= col < cols,
        viewport_indices_fit(grid_cols, col_start, row_start, cols, rows),
    ensures
        0 <= (row_start + row) * grid_cols <= usize::MAX,
        grid_index(grid_cols, col_start, row_start, row, col) <= usize::MAX,
{
    assert((row_start + row) * grid_cols <= (row_start + rows - 1) * grid_cols) by (nonlinear_arith)
        requires
            0 <= row <= rows - 1,
            grid_cols >= 0,
            row_start >= 0,
    ;
    assert(0 <= (row_start + row) * grid_cols) by (nonlinear_arith)
        requires
            0 <= row,
            grid_cols >= 0,
            row_start >= 0,
    ;
}

/// Whether read-back row `row` is copied: its source lies inside `data`
/// and its destination inside the output of `out_len` bytes.
pub open spec fn row_copied(row: int, data_len: int, out_len: int, unpadded: int, padded: int) -> bool {
    row * padded + unpadded <= data_len && row * unpadded + unpadded <= out_len
}

/// Byte position of offset `k` in row `row` of an image with rows `width` bytes apart.
pub open spec fn at(row: int, width: int, k: int) -> int {
    row * width + k
}

/// `v` after `Vec::resize(len, 0)`.
pub open spec fn resized(v: Seq<u8>, len: int) -> Seq<u8> {
    if len <= v.len() {
        v.take(len)
    } else {
        v + Seq::new((len - v.len()) as nat, |i: int| 0u8)
    }
}

/// Copies a read-back image whose rows are `padded` bytes apart in `data`
/// into `out` with rows `unpadded` bytes apart. `out` is first resized to
/// `content_w * content_h * 4` bytes; a row whose source or destination
/// would not fit is skipped.
pub fn copy_padded_rows(
    data: &[u8],
    content_w: u32,
    content_h: u32,
    unpadded: u32,
    padded: u32,
    out: &mut Vec<u8>,
)
    requires
        content_w * content_h * 4 <= u32::MAX,
        content_h == 0 || (content_h - 1) * padded <= u32::MAX,
        content_h == 0 || (content_h - 1) * unpadded <= u32::MAX,
        content_h == 0 || (content_h - 1) * padded + unpadded <= usize::MAX,
        content_h == 0 || (content_h - 1) * unpadded + unpadded <= usize::MAX,
    ensures
        final(out)@.len() == content_w * content_h * 4,
        forall|row: int, k: int|
            #![trigger at(row, unpadded as int, k)]
            0 <= row < content_h && 0 <= k < unpadded && row_copied(row, data@.len() as int, final(out)@.len() as int, unpadded as int, padded as int)
                ==> final(out)@[at(row, unpadded as int, k)] == data@[at(row, padded as int, k)],
        forall|p: int|
            #![trigger final(out)@[p]]
            0 <= p < final(out)@.len() && (forall|row: int|
                #![trigger row_copied(row, data@.len() as int, final(out)@.len() as int, unpadded as int, padded as int)]
                0 <= row < content_h && row_copied(row, data@.len() as int, final(out)@.len() as int, unpadded as int, padded as int)
                    ==> !(row * unpadded <= p < row * unpadded + unpadded))
                ==> final(out)@[p] == resized(old(out)@, content_w * content_h * 4)[p],
{
    let byte_len = (content_w * content_h * 4) as usize;
    out.resize(byte_len, 0);
    let ghost base = out@;
    assert(base =~= resized(old(out)@, byte_len as int));
    let mut row: u32 = 0;
    while row < content_h
        invariant
            row <= content_h,
            out@.len() == byte_len,
            byte_len == content_w * content_h * 4,
            base.len() == byte_len,
            content_h == 0 || (content_h - 1) * padded <= u32::MAX,
            content_h == 0 || (content_h - 1) * unpadded <= u32::MAX,
            content_h == 0 || (content_h - 1) * padded + unpadded <= usize::MAX,
            content_h == 0 || (content_h - 1) * unpadded + unpadded <= usize::MAX,
            forall|r: int, k: int|
                #![trigger at(r, unpadded as int, k)]
                0 <= r < row && 0 <= k < unpadded && row_copied(r, data@.len() as int, byte_len as int, unpadded as int, padded as int)
                    ==> out@[at(r, unpadded as int, k)] == data@[at(r, padded as int, k)],
            forall|p: int|
                #![trigger out@[p]]
                0 <= p < byte_len && (forall|r: int|
                    #![trigger row_copied(r, data@.len() as int, byte_len as int, unpadded as int, padded as int)]
                    0 <= r < row && row_copied(r, data@.len() as int, byte_len as int, unpadded as int, padded as int)
                        ==> !(r * unpadded <= p < r * unpadded + unpadded))
                    ==> out@[p] == base[p],
        decreases content_h - row,
    {
        proof {
            lemma_row_offsets_fit(row as int, content_h as int, padded as int, unpadded as int);
        }
        let src_start = (row * padded) as usize;
        let src_end = src_start + unpadded as usize;
        let dst_start = (row * unpadded) as usize;
        let dst_end = dst_start + unpadded as usize;
        let ghost before = out@;
        if src_end <= data.len() && dst_end <= out.len() {
            let mut k: usize = 0;
            while k < unpadded as usize
                invariant
                    k <= unpadded,
                    src_end == src_start + unpadded,
                    dst_end == dst_start + unpadded,
                    src_end <= data@.len(),
                    dst_end <= out@.len(),
                    out@.len() == before.len(),
                    dst_start == row * unpadded,
                    src_start == row * padded,
                    forall|j: int|
                        #![trigger at(row as int, unpadded as int, j)]
                        0 <= j < k ==> out@[at(row as int, unpadded as int, j)] == data@[at(row as int, padded as int, j)],
                    forall|p: int| 0 <= p < out@.len() && !(dst_start <= p < dst_start + k) ==> out@[p] == before[p],
                decreases unpadded - k,
            {
                out.set(dst_start + k, data[src_start + k]);
                k += 1;
            }
        }
        proof {
            let dl = data@.len() as int;
            let bl = byte_len as int;
            let u = unpadded as int;
            let pd = padded as int;
            assert(dst_start == row * u);
            assert(src_start == row * pd);
            assert forall|r: int, k: int|
                #![trigger at(r, u, k)]
                0 <= r < row + 1 && 0 <= k < u && row_copied(r, dl, bl, u, pd)
                    implies out@[at(r, u, k)] == data@[at(r, pd, k)] by {
                if r < row {
                    lemma_rows_disjoint(r, row as int, k, u);
                }
            }
            assert forall|p: int|
                #![trigger out@[p]]
                0 <= p < bl && (forall|r: int|
                    #![trigger row_copied(r, dl, bl, u, pd)]
                    0 <= r < row + 1 && row_copied(r, dl, bl, u, pd) ==> !(r * u <= p < r * u + u))
                    implies out@[p] == base[p] by {
                assert(before[p] == base[p]);
                if row_copied(row as int, dl, bl, u, pd) {
                    assert(!(row * u <= p < row * u + u));
                }
            }
        }
        row += 1;
    }
}

/// When the read-back buffer holds `content_h` padded rows and the rows are
/// `content_w * 4` bytes wide, every row of the image is copied.
pub proof fn lemma_full_readback_copies_every_row(
    content_w: int,
    content_h: int,
    padded: int,
    data_len: int,
    row: int,
)
    requires
        content_w >= 0,
        0 <= row < content_h,
        padded >= content_w * 4,
        data_len >= content_h * padded,
    ensures
        row_copied(row, data_len, content_w * content_h * 4, content_w * 4, padded),
{
    assert(row * padded + content_w * 4 <= content_h * padded) by (nonlinear_arith)
        requires
            0 <= row < content_h,
            padded >= content_w * 4,
            content_w >= 0,
    ;
    assert(row * (content_w * 4) + content_w * 4 <= content_w * content_h * 4) by (nonlinear_arith)
        requires
            0 <= row < content_h,
            content_w >= 0,
    ;
}

/// The offsets of row `row` fit their types.
proof fn lemma_row_offsets_fit(row: int, content_h: int, padded: int, unpadded: int)
    requires
        0 <= row < content_h,
        padded >= 0,
        unpadded >= 0,
        (content_h - 1) * padded <= u32::MAX,
        (content_h - 1) * unpadded <= u32::MAX,
        (content_h - 1) * padded + unpadded <= usize::MAX,
        (content_h - 1) * unpadded + unpadded <= usize::MAX,
    ensures
        0 <= row * padded <= (content_h - 1) * padded,
        0 <= row * unpadded <= (content_h - 1) * unpadded,
{
    assert(0 <= row * padded <= (content_h - 1) * padded) by (nonlinear_arith)
        requires
            0 <= row <= content_h - 1,
            padded >= 0,
    ;
    assert(0 <= row * unpadded <= (content_h - 1) * unpadded) by (nonlinear_arith)
        requires
            0 <= row <= content_h - 1,
            unpadded >= 0,
    ;
}

/// Destination ranges of distinct rows do not overlap.
proof fn lemma_rows_disjoint(r: int, row: int, k: int, u: int)
    requires
        0 <= r < row,
        0 <= k < u,
    ensures
        r * u + k < row * u,
{
    assert(r * u + k < row * u) by (nonlinear_arith)
        requires
            0 <= r < row,
            0 <= k < u,
    ;
}

/// A viewport cell that lies in the grid carries the grid cell's colours as
/// `0xRRGGBB`, its bold flag as 0 or 1, and the glyph of its character: none
/// for a space or a character the atlas lacks, otherwise the position of the
/// character's first occurrence in the atlas. A viewport cell outside the
/// grid is black with a white foreground, not bold, and has no glyph.
pub proof fn lemma_viewport_cell_fields(
    grid: Seq<TerminalCell>,
    grid_cols: int,
    col_start: int,
    row_start: int,
    atlas: Seq<char>,
    row: int,
    col: int,
)
    requires
        0 <= grid_index(grid_cols, col_start, row_start, row, col),
    ensures
        ({
            let index = (row_start + row) * grid_cols + (col_start + col);
            let g = viewport_cell(grid, grid_cols, col_start, row_start, atlas, row, col);
            &&& index < grid.len() ==> {
                let cell = grid[index];
                &&& g.bg_color as int == cell.bg.0 as int * 65536 + cell.bg.1 as int * 256 + cell.bg.2 as int
                &&& g.fg_color as int == cell.fg.0 as int * 65536 + cell.fg.1 as int * 256 + cell.fg.2 as int
                &&& g.bold == (if cell.bold { 1u32 } else { 0u32 })
                &&& cell.ch == ' ' ==> g.char_idx == NO_GLYPH
                &&& (cell.ch != ' ' && forall|j: int| 0 <= j < atlas.len() ==> atlas[j] != cell.ch)
                    ==> g.char_idx == NO_GLYPH
                &&& forall|i: int|
                    #![trigger atlas[i]]
                    cell.ch != ' ' && 0 <= i < atlas.len() && atlas[i] == cell.ch && (forall|j: int|
                        0 <= j < i ==> atlas[j] != cell.ch) ==> g.char_idx == i as u32
            }
            &&& index >= grid.len() ==> g == (GpuCell { bg_color: 0, fg_color: 0xFFFFFF, char_idx: NO_GLYPH, bold: 0 })
        }),
{
    let index = (row_start + row) * grid_cols + (col_start + col);
    if index < grid.len() {
        let cell = grid[index];
        lemma_first_index_of(atlas, cell.ch);
        assert((cell.bg.0 as int) * 65536 + (cell.bg.1 as int) * 256 + (cell.bg.2 as int) < 0x1000000);
        assert((cell.fg.0 as int) * 65536 + (cell.fg.1 as int) * 256 + (cell.fg.2 as int) < 0x1000000);
    }
}

} // verus!
