use idlescreen::cell::SHM_MAGIC;
use idlescreen::gpu_cells::{build_gpu_cells, copy_padded_rows, GpuCell, NO_GLYPH};
use idlescreen::{FfiTerminalCell, SharedMemoryHeader, TerminalCell};

fn cell(ch: char, fg: (u8, u8, u8), bg: (u8, u8, u8), bold: bool) -> TerminalCell {
    TerminalCell { ch, fg, bg, bold }
}

#[test]
fn ffi_cell_conversion_keeps_fields() {
    let c = cell('é', (1, 2, 3), (4, 5, 6), true);
    let f = FfiTerminalCell::from(c);
    assert_eq!(
        f,
        FfiTerminalCell { ch: 'é' as u32, fg_r: 1, fg_g: 2, fg_b: 3, bg_r: 4, bg_g: 5, bg_b: 6, bold: 1 }
    );
    assert_eq!(TerminalCell::from(f), c);
}

#[test]
fn invalid_code_point_reads_as_space() {
    let f = FfiTerminalCell { ch: 0xD800, fg_r: 0, fg_g: 0, fg_b: 0, bg_r: 0, bg_g: 0, bg_b: 0, bold: 7 };
    let c = TerminalCell::from(f);
    assert_eq!(c.ch, ' ');
    assert!(c.bold);
    let f = FfiTerminalCell { ch: 0x110000, ..f };
    assert_eq!(TerminalCell::from(f).ch, ' ');
}

#[test]
fn header_cell_count() {
    let h = SharedMemoryHeader { magic: SHM_MAGIC, cols: 80, rows: 24, frame_counter: 0 };
    assert_eq!(h.cell_count(), 1920);
    assert_eq!(SHM_MAGIC, 0x54524e43);
}

#[test]
fn gpu_cells_pack_colours_and_find_glyphs() {
    let grid = vec![
        cell('a', (0x12, 0x34, 0x56), (0xab, 0xcd, 0xef), true),
        cell(' ', (1, 1, 1), (2, 2, 2), false),
        cell('z', (0, 0, 0), (0, 0, 0), false),
        cell('b', (0, 0, 0), (0, 0, 0), false),
    ];
    let atlas = ['x', 'b', 'a', 'b'];
    let cells = build_gpu_cells(&grid, 2, 0, 0, 2, 2, &atlas);
    assert_eq!(cells.len(), 4);
    assert_eq!(cells[0], GpuCell { bg_color: 0xabcdef, fg_color: 0x123456, char_idx: 2, bold: 1 });
    assert_eq!(cells[1].char_idx, NO_GLYPH);
    assert_eq!(cells[1].bg_color, 0x020202);
    assert_eq!(cells[2].char_idx, NO_GLYPH);
    assert_eq!(cells[3].char_idx, 1);
}

#[test]
fn gpu_cells_outside_grid_are_blank() {
    let grid = vec![cell('a', (9, 9, 9), (9, 9, 9), false); 4];
    let cells = build_gpu_cells(&grid, 2, 1, 1, 2, 2, &['a']);
    assert_eq!(cells.len(), 4);
    assert_eq!(cells[0].char_idx, 0);
    let blank = GpuCell { bg_color: 0, fg_color: 0xFFFFFF, char_idx: NO_GLYPH, bold: 0 };
    assert_eq!(cells[1], blank);
    assert_eq!(cells[2], blank);
    assert_eq!(cells[3], blank);
}

#[test]
fn copy_padded_rows_drops_row_padding() {
    // 1x2 image: 4 bytes per row, rows 8 bytes apart in the source.
    let data = vec![1, 2, 3, 4, 0, 0, 0, 0, 5, 6, 7, 8, 0, 0, 0, 0];
    let mut out = vec![99u8; 3];
    copy_padded_rows(&data, 1, 2, 4, 8, &mut out);
    assert_eq!(out, vec![1, 2, 3, 4, 5, 6, 7, 8]);
}

#[test]
fn copy_padded_rows_skips_rows_past_the_source() {
    let data = vec![1, 2, 3, 4, 0, 0, 0, 0, 5, 6];
    let mut out = vec![9u8; 10];
    copy_padded_rows(&data, 1, 2, 4, 8, &mut out);
    assert_eq!(out, vec![1, 2, 3, 4, 9, 9, 9, 9]);
}
