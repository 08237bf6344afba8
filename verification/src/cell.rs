//! Terminal cells and the shared-memory layout used by out-of-process savers.
use vstd::prelude::*;
use vstd::std_specs::convert::FromSpecImpl;

verus! {

/// One character cell of a saver's grid.
#[derive(Clone, Copy, Debug, PartialEq, Eq)]
pub struct TerminalCell {
    pub ch: char,
    pub fg: (u8, u8, u8),
    pub bg: (u8, u8, u8),
    pub bold: bool,
}

/// FFI-safe representation of `TerminalCell` for shared memory communication.
#[derive(Clone, Copy, Debug, PartialEq, Eq)]
pub struct FfiTerminalCell {
    pub ch: u32,
    pub fg_r: u8,
    pub fg_g: u8,
    pub fg_b: u8,
    pub bg_r: u8,
    pub bg_g: u8,
    pub bg_b: u8,
    pub bold: u8,
}

/// Header at the start of the shared-memory region, followed by `cols * rows` cells.
#[derive(Clone, Copy, Debug, PartialEq, Eq)]
pub struct SharedMemoryHeader {
    pub magic: u32,
    pub cols: u32,
    pub rows: u32,
    pub frame_counter: u64,
}

pub const SHM_MAGIC: u32 = 0x54524e43;

/// Bytes of the header at the start of the shared-memory region: three `u32`
/// fields, four bytes of padding, and a `u64`, in C layout.
pub const SHM_HEADER_SIZE: usize = 24;

/// Bytes of one cell in the shared-memory region: a `u32` and seven `u8`
/// fields, padded to the `u32` alignment, in C layout.
pub const SHM_CELL_SIZE: usize = 12;

/// Bytes of shared memory for a `cols` x `rows` grid.
pub open spec fn shm_size(cols: int, rows: int) -> int {
    SHM_HEADER_SIZE + cols * rows * SHM_CELL_SIZE
}

/// A Unicode scalar value: any code point but the surrogates.
pub open spec fn is_scalar_value(x: u32) -> bool {
    x <= 0xD7FF || (0xE000 <= x && x <= 0x10FFFF)
}

/// Wraps `char::from_u32`, which returns the `char` with code point `x`
/// when `x` is a Unicode scalar value and `None` otherwise.
#[verifier::external_body]
fn char_from_u32(x: u32) -> (r: Option<char>)
    ensures
        is_scalar_value(x) ==> r == Some(x as char),
        !is_scalar_value(x) ==> r is None,
{
    char::from_u32(x)
}

/// The FFI form of a cell.
pub open spec fn ffi_from_cell(cell: TerminalCell) -> FfiTerminalCell {
    FfiTerminalCell {
        ch: cell.ch as u32,
        fg_r: cell.fg.0,
        fg_g: cell.fg.1,
        fg_b: cell.fg.2,
        bg_r: cell.bg.0,
        bg_g: cell.bg.1,
        bg_b: cell.bg.2,
        bold: if cell.bold {
            1
        } else {
            0
        },
    }
}

/// The cell an FFI cell stands for; an invalid code point reads as a space.
pub open spec fn cell_from_ffi(ffi: FfiTerminalCell) -> TerminalCell {
    TerminalCell {
        ch: if is_scalar_value(ffi.ch) {
            ffi.ch as char
        } else {
            ' '
        },
        fg: (ffi.fg_r, ffi.fg_g, ffi.fg_b),
        bg: (ffi.bg_r, ffi.bg_g, ffi.bg_b),
        bold: ffi.bold != 0,
    }
}

impl From<TerminalCell> for FfiTerminalCell {
    fn from(cell: TerminalCell) -> (r: Self) {
        FfiTerminalCell {
            ch: cell.ch as u32,
            fg_r: cell.fg.0,
            fg_g: cell.fg.1,
            fg_b: cell.fg.2,
            bg_r: cell.bg.0,
            bg_g: cell.bg.1,
            bg_b: cell.bg.2,
            bold: if cell.bold {
                1
            } else {
                0
            },
        }
    }
}

impl FromSpecImpl<TerminalCell> for FfiTerminalCell {
    open spec fn obeys_from_spec() -> bool {
        true
    }

    open spec fn from_spec(cell: TerminalCell) -> Self {
        ffi_from_cell(cell)
    }
}

impl From<FfiTerminalCell> for TerminalCell {
    fn from(ffi: FfiTerminalCell) -> (r: Self) {
        let ch = match char_from_u32(ffi.ch) {
            Some(c) => c,
            None => ' ',
        };
        TerminalCell {
            ch,
            fg: (ffi.fg_r, ffi.fg_g, ffi.fg_b),
            bg: (ffi.bg_r, ffi.bg_g, ffi.bg_b),
            bold: ffi.bold != 0,
        }
    }
}

impl FromSpecImpl<FfiTerminalCell> for TerminalCell {
    open spec fn obeys_from_spec() -> bool {
        true
    }

    open spec fn from_spec(ffi: FfiTerminalCell) -> Self {
        cell_from_ffi(ffi)
    }
}

/// Converting a cell to its FFI form and back gives the same cell.
pub proof fn lemma_cell_ffi_roundtrip(cell: TerminalCell)
    ensures
        cell_from_ffi(ffi_from_cell(cell)) == cell,
{
    let x = cell.ch as u32;
    assert(is_scalar_value(x));
    assert(x as char == cell.ch);
}

/// An FFI cell with a valid code point and a 0/1 bold flag survives the trip
/// through `TerminalCell` unchanged.
pub proof fn lemma_ffi_cell_roundtrip(ffi: FfiTerminalCell)
    requires
        is_scalar_value(ffi.ch),
        ffi.bold <= 1,
    ensures
        ffi_from_cell(cell_from_ffi(ffi)) == ffi,
{
    assert((ffi.ch as char) as u32 == ffi.ch);
}

/// Bytes of shared memory needed for a `cols` x `rows` grid: the header, then the cells.
pub fn compute_shm_size(cols: usize, rows: usize) -> (size: usize)
    requires
        shm_size(cols as int, rows as int) <= usize::MAX,
    ensures
        size == shm_size(cols as int, rows as int),
{
    assert(0 <= cols * rows <= cols * rows * 12) by (nonlinear_arith);
    let count = cols * rows;
    SHM_HEADER_SIZE + count * SHM_CELL_SIZE
}

/// The shared-memory size is symmetric in the grid's dimensions, is the bare
/// header for an empty grid, and grows with either dimension.
pub proof fn lemma_shm_size_shape(cols: nat, rows: nat, more_cols: nat, more_rows: nat)
    requires
        cols <= more_cols,
        rows <= more_rows,
    ensures
        shm_size(cols as int, rows as int) == shm_size(rows as int, cols as int),
        shm_size(0, rows as int) == SHM_HEADER_SIZE,
        shm_size(cols as int, rows as int) <= shm_size(more_cols as int, more_rows as int),
{
    assert(cols * rows == rows * cols) by (nonlinear_arith);
    assert(0 * rows == 0) by (nonlinear_arith);
    assert(cols * rows <= more_cols * more_rows) by (nonlinear_arith)
        requires
            cols <= more_cols,
            rows <= more_rows,
    ;
    assert(cols * rows * 12 <= more_cols * more_rows * 12) by (nonlinear_arith)
        requires
            cols * rows <= more_cols * more_rows,
    ;
}

impl SharedMemoryHeader {
    /// Number of cells that follow the header.
    pub fn cell_count(&self) -> (n: usize)
        requires
            self.cols * self.rows <= u32::MAX,
        ensures
            n == self.cols * self.rows,
    {
        (self.cols * self.rows) as usize
    }
}

} // verus!
