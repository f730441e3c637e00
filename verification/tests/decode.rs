use soksak_sidecar_terminal_shitty::abi::{CellRead, RawCell, RawColor, RawThemeOverrides, Snapshot};
use soksak_sidecar_terminal_shitty::engine::{cell, color, line_cells, theme_overrides, ColorSnap};
use soksak_sidecar_terminal_shitty::terminal::{
    TerminalCursorShape, TerminalCursorStyle, TerminalModes, TerminalRgb,
};

fn snapshot_with_modes(modes: u32) -> Snapshot {
    Snapshot { modes, ..Snapshot::default() }
}

fn rgb_color(r: u8, g: u8, b: u8) -> RawColor {
    RawColor { tag: 2, red_or_index: r, green: g, blue: b }
}

fn no_overrides() -> RawThemeOverrides {
    RawThemeOverrides {
        foreground: RawColor::default(),
        background: RawColor::default(),
        cursor: RawColor::default(),
        palette: [RawColor::default(); 256],
        palette_override_mask: [0; 4],
        foreground_overridden: 0,
        background_overridden: 0,
        cursor_overridden: 0,
    }
}

#[test]
fn snapshot_geometry_and_counters_are_read_as_reported() {
    let snapshot = Snapshot {
        history_rows: 321,
        suppressed_replies: 7,
        modes: 0,
        cursor_blink_interval_ms: 530,
        columns: 80,
        rows: 24,
        cursor_x: 5,
        cursor_y: 9,
        cursor_style: 1,
        cursor_blinking: 0,
    };
    assert_eq!(snapshot.cols(), 80);
    assert_eq!(snapshot.rows(), 24);
    assert_eq!(snapshot.cursor(), (9, 5));
    assert_eq!(snapshot.history_size(), 321);
    assert_eq!(snapshot.suppressed_replies(), 7);
    assert_eq!(snapshot.cursor_animation().interval_ms, 530);
}

#[test]
fn each_mode_bit_decodes_to_its_own_flag() {
    assert_eq!(snapshot_with_modes(0).modes(), TerminalModes::default());
    let names: [fn(&TerminalModes) -> bool; 13] = [
        |m| m.bracketed_paste,
        |m| m.app_cursor,
        |m| m.app_keypad,
        |m| m.mouse_click,
        |m| m.mouse_drag,
        |m| m.mouse_motion,
        |m| m.sgr_mouse,
        |m| m.utf8_mouse,
        |m| m.focus_in_out,
        |m| m.alternate_scroll,
        |m| m.show_cursor,
        |m| m.line_wrap,
        |m| m.insert,
    ];
    for bit in 0..13 {
        let modes = snapshot_with_modes(1 << bit).modes();
        for (other, flag) in names.iter().enumerate() {
            assert_eq!(flag(&modes), other == bit, "bit {bit}, flag {other}");
        }
    }
    let all = snapshot_with_modes(0x3fff).modes();
    assert!(names.iter().all(|flag| flag(&all)));
}

#[test]
fn alternate_screen_is_bit_thirteen_and_not_a_mode_flag() {
    assert!(!snapshot_with_modes(0x1fff).alt_active());
    let alt = snapshot_with_modes(1 << 13);
    assert!(alt.alt_active());
    assert_eq!(alt.modes(), TerminalModes::default());
}

#[test]
fn cursor_styles_map_to_shapes_and_keep_blink_state() {
    let style = |code: u8, blinking: u8| {
        Snapshot { cursor_style: code, cursor_blinking: blinking, ..Snapshot::default() }
            .cursor_style()
    };
    for code in 0..3 {
        assert_eq!(
            style(code, 0),
            TerminalCursorStyle { shape: TerminalCursorShape::Block, blinking: false }
        );
    }
    assert_eq!(
        style(3, 1),
        TerminalCursorStyle { shape: TerminalCursorShape::Underline, blinking: true }
    );
    assert_eq!(
        style(4, 2),
        TerminalCursorStyle { shape: TerminalCursorShape::Bar, blinking: true }
    );
}

#[test]
fn hidden_cursor_style_leaves_dectcem_visibility_to_the_mode_word() {
    let snapshot = Snapshot { cursor_style: 0, modes: 1 << 10, ..Snapshot::default() };
    assert_eq!(snapshot.cursor_style().shape, TerminalCursorShape::Block);
    assert!(snapshot.modes().show_cursor);
}

#[test]
fn colors_decode_by_tag() {
    assert_eq!(color(RawColor { tag: 0, red_or_index: 9, green: 9, blue: 9 }), ColorSnap::Default);
    assert_eq!(
        color(RawColor { tag: 1, red_or_index: 208, green: 1, blue: 2 }),
        ColorSnap::Indexed(208)
    );
    assert_eq!(color(rgb_color(1, 2, 3)), ColorSnap::Rgb(1, 2, 3));
}

#[test]
fn osc_color_overrides_decode_and_reset_to_the_host_theme() {
    let mut raw = no_overrides();
    raw.palette[1] = rgb_color(0x12, 0x34, 0x56);
    raw.palette_override_mask[0] = 1 << 1;
    raw.foreground = rgb_color(0xab, 0xcd, 0xef);
    raw.foreground_overridden = 1;
    raw.background = rgb_color(0x22, 0x33, 0x44);
    raw.background_overridden = 1;
    raw.cursor = rgb_color(0x65, 0x43, 0x21);
    raw.cursor_overridden = 1;
    let colors = theme_overrides(&raw);
    assert_eq!(colors.ansi.len(), 256);
    assert_eq!(colors.ansi[1], Some(TerminalRgb { r: 0x12, g: 0x34, b: 0x56 }));
    assert_eq!(colors.foreground, Some(TerminalRgb { r: 0xab, g: 0xcd, b: 0xef }));
    assert_eq!(colors.background, Some(TerminalRgb { r: 0x22, g: 0x33, b: 0x44 }));
    assert_eq!(colors.cursor, Some(TerminalRgb { r: 0x65, g: 0x43, b: 0x21 }));
    assert!(colors.ansi.iter().enumerate().all(|(i, slot)| i == 1 || slot.is_none()));

    raw.palette_override_mask[0] = 0;
    raw.foreground_overridden = 0;
    raw.background_overridden = 0;
    raw.cursor_overridden = 0;
    let reset = theme_overrides(&raw);
    assert_eq!(reset.ansi[1], None);
    assert_eq!((reset.foreground, reset.background, reset.cursor), (None, None, None));
}

#[test]
fn palette_mask_words_cover_all_256_entries() {
    let mut raw = no_overrides();
    for index in [0usize, 63, 64, 130, 255] {
        raw.palette[index] = rgb_color(index as u8, 1, 2);
        raw.palette_override_mask[index / 64] |= 1 << (index % 64);
    }
    let colors = theme_overrides(&raw);
    for index in 0..256 {
        let expected = [0usize, 63, 64, 130, 255]
            .contains(&index)
            .then(|| TerminalRgb { r: index as u8, g: 1, b: 2 });
        assert_eq!(colors.ansi[index], expected, "entry {index}");
    }
}

#[test]
fn palette_reset_keeps_other_entries() {
    let mut raw = no_overrides();
    raw.palette[3] = rgb_color(3, 3, 3);
    raw.palette[4] = rgb_color(4, 4, 4);
    raw.palette_override_mask[0] = (1 << 3) | (1 << 4);
    let before = theme_overrides(&raw);
    raw.palette_override_mask[0] &= !(1 << 3);
    let after = theme_overrides(&raw);
    assert_eq!(before.ansi[3], Some(TerminalRgb { r: 3, g: 3, b: 3 }));
    assert_eq!(after.ansi[3], None);
    assert_eq!(after.ansi[4], before.ansi[4]);
}

#[test]
fn cells_split_base_and_combining_code_points() {
    let raw = RawCell {
        foreground: rgb_color(1, 2, 3),
        background: RawColor { tag: 1, red_or_index: 4, green: 0, blue: 0 },
        attributes: 0b101_0101,
        wide: 1,
        wide_continuation: 0,
        wrapline: 1,
        line_attribute: 0,
    };
    let decoded = cell(&CellRead { cell: raw, codepoints: vec![0x65, 0x301, 0xD800] });
    assert_eq!(decoded.ch, 'e');
    assert_eq!(decoded.zerowidth, vec!['\u{301}', '\u{FFFD}']);
    assert_eq!(decoded.fg, ColorSnap::Rgb(1, 2, 3));
    assert_eq!(decoded.bg, ColorSnap::Indexed(4));
    assert_eq!(
        (decoded.bold, decoded.dim, decoded.italic, decoded.underline),
        (true, false, true, false)
    );
    assert_eq!((decoded.inverse, decoded.strikeout, decoded.hidden), (true, false, true));
    assert!(decoded.wide && !decoded.spacer && decoded.wrapline);
    assert_eq!(decoded.link, None);
}

#[test]
fn empty_cell_is_a_space_and_invalid_code_points_are_replaced() {
    let blank = cell(&CellRead { cell: RawCell::default(), codepoints: vec![] });
    assert_eq!(blank.ch, ' ');
    assert!(blank.zerowidth.is_empty());
    assert_eq!(blank.fg, ColorSnap::Default);
    let invalid = cell(&CellRead { cell: RawCell::default(), codepoints: vec![0x110000] });
    assert_eq!(invalid.ch, '\u{FFFD}');
    let spacer = cell(&CellRead {
        cell: RawCell { wide_continuation: 1, ..RawCell::default() },
        codepoints: vec![],
    });
    assert!(spacer.spacer);
}

#[test]
fn line_cells_decode_every_column_in_order() {
    let reads: Vec<CellRead> = "한a"
        .chars()
        .map(|ch| CellRead { cell: RawCell::default(), codepoints: vec![ch as u32] })
        .collect();
    let cells = line_cells(&reads);
    assert_eq!(cells.iter().map(|c| c.ch).collect::<String>(), "한a");
    assert!(line_cells(&Vec::new()).is_empty());
}
