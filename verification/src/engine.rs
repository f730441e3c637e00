//! Decoding of engine snapshots into terminal state.

use vstd::prelude::*;
use crate::abi::{
    CellRead, RawCell, flag16, flag64, ATTR_BIT_BOLD, ATTR_BIT_DIM, ATTR_BIT_ITALIC, ATTR_BIT_UNDERLINE,
    ATTR_BIT_INVERSE, ATTR_BIT_STRIKE, ATTR_BIT_HIDDEN, RawColor, RawThemeOverrides, Snapshot, known_color_tag, known_cursor_style, flag32,
    palette_overridden, COLOR_DEFAULT, COLOR_PALETTE, CURSOR_HIDDEN, CURSOR_BLOCK,
    CURSOR_HOLLOW_BLOCK, CURSOR_UNDERLINE, MODE_BIT_BRACKETED_PASTE,
    MODE_BIT_APPLICATION_CURSOR, MODE_BIT_APPLICATION_KEYPAD, MODE_BIT_MOUSE_CLICK,
    MODE_BIT_MOUSE_DRAG, MODE_BIT_MOUSE_MOTION, MODE_BIT_SGR_MOUSE, MODE_BIT_UTF8_MOUSE,
    MODE_BIT_FOCUS_EVENTS, MODE_BIT_ALTERNATE_SCROLL, MODE_BIT_SHOW_CURSOR, MODE_BIT_LINE_WRAP,
    MODE_BIT_INSERT, MODE_BIT_ALTERNATE_SCREEN,
};
use crate::terminal::{
    TerminalColor, TerminalCursorAnimation, TerminalCursorShape, TerminalCursorStyle,
    TerminalModes, TerminalRgb, TerminalThemeOverrides, TerminalCell,
};

verus! {

/// The name under which the grid cell type is known to mirrors.
pub type GridCell = TerminalCell;

/// The name under which the cell color type is known to mirrors.
pub type ColorSnap = TerminalColor;

/// The name under which the mode set is known to mirrors.
pub type ModeSnap = TerminalModes;

/// The color that a raw engine color stands for.
pub open spec fn spec_color(value: RawColor) -> TerminalColor {
    if value.tag == COLOR_DEFAULT {
        TerminalColor::Default
    } else if value.tag == COLOR_PALETTE {
        TerminalColor::Indexed(value.red_or_index)
    } else {
        TerminalColor::Rgb(value.red_or_index, value.green, value.blue)
    }
}

/// Decodes a raw engine color. The engine produces only the three known tags.
pub fn color(value: RawColor) -> (result: TerminalColor)
    requires
        known_color_tag(value.tag),
    ensures
        result == spec_color(value),
        value.tag == 0 ==> result == TerminalColor::Default,
        value.tag == 1 ==> result == TerminalColor::Indexed(value.red_or_index),
        value.tag == 2 ==> result == TerminalColor::Rgb(value.red_or_index, value.green, value.blue),
{
    if value.tag == COLOR_DEFAULT {
        TerminalColor::Default
    } else if value.tag == COLOR_PALETTE {
        TerminalColor::Indexed(value.red_or_index)
    } else {
        TerminalColor::Rgb(value.red_or_index, value.green, value.blue)
    }
}

/// The cursor shape that a snapshot cursor style code stands for: a hidden
/// cursor keeps the block shape, since visibility is the separate DECTCEM mode.
pub open spec fn spec_cursor_shape(style: u8) -> TerminalCursorShape {
    if style <= CURSOR_HOLLOW_BLOCK {
        TerminalCursorShape::Block
    } else if style == CURSOR_UNDERLINE {
        TerminalCursorShape::Underline
    } else {
        TerminalCursorShape::Bar
    }
}

/// The mode set that a snapshot mode word stands for.
pub open spec fn spec_modes(word: u32) -> TerminalModes {
    TerminalModes {
        bracketed_paste: flag32(word, MODE_BIT_BRACKETED_PASTE),
        app_cursor: flag32(word, MODE_BIT_APPLICATION_CURSOR),
        app_keypad: flag32(word, MODE_BIT_APPLICATION_KEYPAD),
        mouse_click: flag32(word, MODE_BIT_MOUSE_CLICK),
        mouse_drag: flag32(word, MODE_BIT_MOUSE_DRAG),
        mouse_motion: flag32(word, MODE_BIT_MOUSE_MOTION),
        sgr_mouse: flag32(word, MODE_BIT_SGR_MOUSE),
        utf8_mouse: flag32(word, MODE_BIT_UTF8_MOUSE),
        focus_in_out: flag32(word, MODE_BIT_FOCUS_EVENTS),
        alternate_scroll: flag32(word, MODE_BIT_ALTERNATE_SCROLL),
        show_cursor: flag32(word, MODE_BIT_SHOW_CURSOR),
        line_wrap: flag32(word, MODE_BIT_LINE_WRAP),
        insert: flag32(word, MODE_BIT_INSERT),
    }
}

fn flag(word: u32, index: u32) -> (set: bool)
    requires
        index < 32,
    ensures
        set == flag32(word, index),
{
    (word >> index) & 1 == 1
}

impl Snapshot {
    /// Columns of the visible grid.
    pub fn cols(&self) -> (cols: u16)
        ensures
            cols == self.columns,
    {
        self.columns
    }

    /// Rows of the visible grid.
    pub fn rows(&self) -> (rows: u16)
        ensures
            rows == self.rows,
    {
        self.rows
    }

    /// The cursor position as (row, column).
    pub fn cursor(&self) -> (position: (usize, usize))
        ensures
            position.0 == self.cursor_y,
            position.1 == self.cursor_x,
    {
        (self.cursor_y as usize, self.cursor_x as usize)
    }

    /// Cursor shape and blink state.
    pub fn cursor_style(&self) -> (style: TerminalCursorStyle)
        requires
            known_cursor_style(self.cursor_style),
        ensures
            style.shape == spec_cursor_shape(self.cursor_style),
            style.blinking == (self.cursor_blinking != 0),
    {
        let shape = if self.cursor_style == CURSOR_HIDDEN || self.cursor_style == CURSOR_BLOCK
            || self.cursor_style == CURSOR_HOLLOW_BLOCK {
            TerminalCursorShape::Block
        } else if self.cursor_style == CURSOR_UNDERLINE {
            TerminalCursorShape::Underline
        } else {
            TerminalCursorShape::Bar
        };
        TerminalCursorStyle { shape, blinking: self.cursor_blinking != 0 }
    }

    /// The cursor blink interval.
    pub fn cursor_animation(&self) -> (animation: TerminalCursorAnimation)
        ensures
            animation.interval_ms == self.cursor_blink_interval_ms,
    {
        TerminalCursorAnimation { interval_ms: self.cursor_blink_interval_ms }
    }

    /// The alternate screen is active.
    pub fn alt_active(&self) -> (active: bool)
        ensures
            active == flag32(self.modes, MODE_BIT_ALTERNATE_SCREEN),
            active == ((self.modes >> 13u32) & 1u32 == 1u32),
    {
        flag(self.modes, MODE_BIT_ALTERNATE_SCREEN)
    }

    /// Rows held in scrollback history.
    pub fn history_size(&self) -> (rows: usize)
        ensures
            rows == self.history_rows,
    {
        self.history_rows as usize
    }

    /// Terminal replies that the engine suppressed.
    pub fn suppressed_replies(&self) -> (count: u64)
        ensures
            count == self.suppressed_replies,
    {
        self.suppressed_replies as u64
    }

    /// The terminal modes.
    pub fn modes(&self) -> (modes: TerminalModes)
        ensures
            modes == spec_modes(self.modes),
            modes.bracketed_paste == ((self.modes >> 0u32) & 1u32 == 1u32),
            modes.app_cursor == ((self.modes >> 1u32) & 1u32 == 1u32),
            modes.app_keypad == ((self.modes >> 2u32) & 1u32 == 1u32),
            modes.mouse_click == ((self.modes >> 3u32) & 1u32 == 1u32),
            modes.mouse_drag == ((self.modes >> 4u32) & 1u32 == 1u32),
            modes.mouse_motion == ((self.modes >> 5u32) & 1u32 == 1u32),
            modes.sgr_mouse == ((self.modes >> 6u32) & 1u32 == 1u32),
            modes.utf8_mouse == ((self.modes >> 7u32) & 1u32 == 1u32),
            modes.focus_in_out == ((self.modes >> 8u32) & 1u32 == 1u32),
            modes.alternate_scroll == ((self.modes >> 9u32) & 1u32 == 1u32),
            modes.show_cursor == ((self.modes >> 10u32) & 1u32 == 1u32),
            modes.line_wrap == ((self.modes >> 11u32) & 1u32 == 1u32),
            modes.insert == ((self.modes >> 12u32) & 1u32 == 1u32),
    {
        let word = self.modes;
        TerminalModes {
            bracketed_paste: flag(word, MODE_BIT_BRACKETED_PASTE),
            app_cursor: flag(word, MODE_BIT_APPLICATION_CURSOR),
            app_keypad: flag(word, MODE_BIT_APPLICATION_KEYPAD),
            mouse_click: flag(word, MODE_BIT_MOUSE_CLICK),
            mouse_drag: flag(word, MODE_BIT_MOUSE_DRAG),
            mouse_motion: flag(word, MODE_BIT_MOUSE_MOTION),
            sgr_mouse: flag(word, MODE_BIT_SGR_MOUSE),
            utf8_mouse: flag(word, MODE_BIT_UTF8_MOUSE),
            focus_in_out: flag(word, MODE_BIT_FOCUS_EVENTS),
            alternate_scroll: flag(word, MODE_BIT_ALTERNATE_SCROLL),
            show_cursor: flag(word, MODE_BIT_SHOW_CURSOR),
            line_wrap: flag(word, MODE_BIT_LINE_WRAP),
            insert: flag(word, MODE_BIT_INSERT),
        }
    }
}

/// The RGB value carried by a raw color.
pub open spec fn spec_rgb(value: RawColor) -> TerminalRgb {
    TerminalRgb { r: value.red_or_index, g: value.green, b: value.blue }
}

fn rgb(value: RawColor) -> (result: TerminalRgb)
    ensures
        result == spec_rgb(value),
{
    TerminalRgb { r: value.red_or_index, g: value.green, b: value.blue }
}

/// An override that is present exactly when its flag is set.
pub open spec fn flagged_override(flag: u8, value: RawColor) -> Option<TerminalRgb> {
    if flag != 0 {
        Some(spec_rgb(value))
    } else {
        None
    }
}

/// Palette entry `index` after decoding: present exactly when its mask bit is set.
pub open spec fn ansi_override(raw: RawThemeOverrides, index: int) -> Option<TerminalRgb> {
    if palette_overridden(raw.palette_override_mask, index) {
        Some(spec_rgb(raw.palette[index]))
    } else {
        None
    }
}

/// Decodes the engine's OSC color override report.
pub fn theme_overrides(raw: &RawThemeOverrides) -> (overrides: TerminalThemeOverrides)
    ensures
        overrides.foreground == flagged_override(raw.foreground_overridden, raw.foreground),
        overrides.background == flagged_override(raw.background_overridden, raw.background),
        overrides.cursor == flagged_override(raw.cursor_overridden, raw.cursor),
        overrides.ansi@.len() == 256,
        forall|index: int| 0 <= index < 256 ==> #[trigger] overrides.ansi@[index] == ansi_override(*raw, index),
{
    let foreground = if raw.foreground_overridden != 0 { Some(rgb(raw.foreground)) } else { None };
    let background = if raw.background_overridden != 0 { Some(rgb(raw.background)) } else { None };
    let cursor = if raw.cursor_overridden != 0 { Some(rgb(raw.cursor)) } else { None };
    let mut ansi: Vec<Option<TerminalRgb>> = Vec::new();
    let mut index: usize = 0;
    while index < 256
        invariant
            index <= 256,
            ansi@.len() == index,
            forall|i: int| 0 <= i < index ==> #[trigger] ansi@[i] == ansi_override(*raw, i),
        decreases 256 - index,
    {
        let word: u64 = raw.palette_override_mask[index / 64];
        let bit: u64 = (index % 64) as u64;
        if (word >> bit) & 1 == 1 {
            ansi.push(Some(rgb(raw.palette[index])));
        } else {
            ansi.push(None);
        }
        index = index + 1;
    }
    TerminalThemeOverrides { foreground, background, cursor, ansi }
}

/// `value` is a Unicode scalar value: not a surrogate and at most U+10FFFF.
pub open spec fn is_scalar(value: u32) -> bool {
    value < 0xD800 || (0xE000 <= value && value <= 0x10FFFF)
}

/// The character for a code point, U+FFFD for one that is not a scalar value.
pub open spec fn scalar_char(value: u32) -> char {
    if is_scalar(value) {
        value as char
    } else {
        '\u{FFFD}'
    }
}

/// `char::from_u32` of std: the `char` with code point `value` when `value` is a
/// Unicode scalar value, and `None` for a surrogate or a value past U+10FFFF.
#[verifier::external_body]
fn char_from_u32(value: u32) -> (c: Option<char>)
    ensures
        c == (if is_scalar(value) { Some(value as char) } else { None::<char> }),
{
    char::from_u32(value)
}

fn char_or_replacement(value: u32) -> (c: char)
    ensures
        c == scalar_char(value),
{
    match char_from_u32(value) {
        Some(c) => c,
        None => '\u{FFFD}',
    }
}

/// The base character of a cell: its first code point, a space when it has none.
pub open spec fn base_char(codepoints: Seq<u32>) -> char {
    if codepoints.len() == 0 {
        ' '
    } else {
        scalar_char(codepoints[0])
    }
}

/// The combining characters of a cell: every code point after the first.
pub open spec fn combining_chars(codepoints: Seq<u32>) -> Seq<char> {
    if codepoints.len() == 0 {
        Seq::empty()
    } else {
        codepoints.drop_first().map_values(|value: u32| scalar_char(value))
    }
}

/// `cell` is what the raw cell record and its code points decode to.
pub open spec fn decodes_to(cell: TerminalCell, raw: RawCell, codepoints: Seq<u32>) -> bool {
    &&& cell.ch == base_char(codepoints)
    &&& cell.zerowidth@ == combining_chars(codepoints)
    &&& cell.fg == spec_color(raw.foreground)
    &&& cell.bg == spec_color(raw.background)
    &&& cell.bold == flag16(raw.attributes, ATTR_BIT_BOLD)
    &&& cell.dim == flag16(raw.attributes, ATTR_BIT_DIM)
    &&& cell.italic == flag16(raw.attributes, ATTR_BIT_ITALIC)
    &&& cell.underline == flag16(raw.attributes, ATTR_BIT_UNDERLINE)
    &&& cell.inverse == flag16(raw.attributes, ATTR_BIT_INVERSE)
    &&& cell.strikeout == flag16(raw.attributes, ATTR_BIT_STRIKE)
    &&& cell.hidden == flag16(raw.attributes, ATTR_BIT_HIDDEN)
    &&& cell.wide == (raw.wide != 0)
    &&& cell.spacer == (raw.wide_continuation != 0)
    &&& cell.wrapline == (raw.wrapline != 0)
    &&& cell.link is None
}

/// The cell read carries colors with known tags.
pub open spec fn known_cell_colors(raw: RawCell) -> bool {
    known_color_tag(raw.foreground.tag) && known_color_tag(raw.background.tag)
}

fn attribute(word: u16, index: u16) -> (set: bool)
    requires
        index < 16,
    ensures
        set == flag16(word, index),
{
    (word >> index) & 1 == 1
}

/// Decodes one cell read. This engine does not track OSC 8 hyperlinks, so
/// the link is always absent.
pub fn cell(read: &CellRead) -> (cell: TerminalCell)
    requires
        known_cell_colors(read.cell),
    ensures
        decodes_to(cell, read.cell, read.codepoints@),
        read.codepoints@.len() == 0 ==> cell.ch == ' ' && cell.zerowidth@.len() == 0,
        read.codepoints@.len() > 0 ==> cell.zerowidth@.len() == read.codepoints@.len() - 1,
        forall|i: int|
            0 <= i < read.codepoints@.len() - 1 ==> #[trigger] cell.zerowidth@[i] == scalar_char(
                read.codepoints@[i + 1],
            ),
{
    let codepoints = &read.codepoints;
    let ch = if codepoints.len() == 0 { ' ' } else { char_or_replacement(codepoints[0]) };
    let mut zerowidth: Vec<char> = Vec::new();
    let mut index: usize = 1;
    while index < codepoints.len()
        invariant
            1 <= index,
            codepoints.len() > 0 ==> index <= codepoints.len(),
            codepoints.len() > 0 ==> zerowidth@ =~= codepoints@.subrange(1, index as int).map_values(
                |value: u32| scalar_char(value),
            ),
            codepoints.len() == 0 ==> zerowidth@.len() == 0,
        decreases codepoints.len() - index,
    {
        zerowidth.push(char_or_replacement(codepoints[index]));
        index = index + 1;
    }
    proof {
        if codepoints.len() > 0 {
            assert(codepoints@.subrange(1, codepoints@.len() as int) =~= codepoints@.drop_first());
        }
        assert(zerowidth@ =~= combining_chars(codepoints@));
    }
    let raw = read.cell;
    TerminalCell {
        ch,
        fg: color(raw.foreground),
        bg: color(raw.background),
        bold: attribute(raw.attributes, ATTR_BIT_BOLD),
        dim: attribute(raw.attributes, ATTR_BIT_DIM),
        italic: attribute(raw.attributes, ATTR_BIT_ITALIC),
        underline: attribute(raw.attributes, ATTR_BIT_UNDERLINE),
        inverse: attribute(raw.attributes, ATTR_BIT_INVERSE),
        strikeout: attribute(raw.attributes, ATTR_BIT_STRIKE),
        hidden: attribute(raw.attributes, ATTR_BIT_HIDDEN),
        wide: raw.wide != 0,
        spacer: raw.wide_continuation != 0,
        wrapline: raw.wrapline != 0,
        zerowidth,
        link: None,
    }
}

/// Decodes the cell reads of one line, column by column.
pub fn line_cells(reads: &Vec<CellRead>) -> (cells: Vec<TerminalCell>)
    requires
        forall|column: int| 0 <= column < reads@.len() ==> known_cell_colors(#[trigger] reads@[column].cell),
    ensures
        cells@.len() == reads@.len(),
        forall|column: int| 0 <= column < reads@.len() ==> decodes_to(
            #[trigger] cells@[column],
            reads@[column].cell,
            reads@[column].codepoints@,
        ),
{
    let mut cells: Vec<TerminalCell> = Vec::new();
    let mut column: usize = 0;
    while column < reads.len()
        invariant
            column <= reads@.len(),
            cells@.len() == column,
            forall|c: int| 0 <= c < reads@.len() ==> known_cell_colors(#[trigger] reads@[c].cell),
            forall|c: int| 0 <= c < column ==> decodes_to(
                #[trigger] cells@[c],
                reads@[c].cell,
                reads@[c].codepoints@,
            ),
        decreases reads@.len() - column,
    {
        let decoded = cell(&reads[column]);
        cells.push(decoded);
        column = column + 1;
    }
    cells
}

proof fn lemma_clear_bit(word: u64, cleared: u64, bit: u64, other: u64)
    requires
        bit < 64,
        other < 64,
        cleared == word & !(1u64 << bit),
    ensures
        !flag64(cleared, bit),
        other != bit ==> flag64(cleared, other) == flag64(word, other),
{
    assert(!(((word & !(1u64 << bit)) >> bit) & 1 == 1)) by (bit_vector)
        requires
            bit < 64,
    ;
    assert(other != bit ==> ((((word & !(1u64 << bit)) >> other) & 1 == 1) == ((word >> other) & 1
        == 1))) by (bit_vector)
        requires
            bit < 64,
            other < 64,
    ;
}

/// Resetting one palette color (OSC 104) clears its mask bit, and the decoded
/// overrides then show the host's base color for that entry and leave every
/// other entry as it was.
pub proof fn palette_reset_reveals_base_color(
    raw: RawThemeOverrides,
    reset: RawThemeOverrides,
    index: int,
)
    requires
        0 <= index < 256,
        reset.palette_override_mask[index / 64] == raw.palette_override_mask[index / 64] & !(1u64
            << ((index % 64) as u64)),
        forall|word: int|
            0 <= word < 4 && word != index / 64 ==> #[trigger] reset.palette_override_mask[word]
                == raw.palette_override_mask[word],
        forall|entry: int|
            0 <= entry < 256 && entry != index ==> #[trigger] reset.palette[entry] == raw.palette[entry],
    ensures
        ansi_override(reset, index) is None,
        forall|entry: int|
            0 <= entry < 256 && entry != index ==> #[trigger] ansi_override(reset, entry)
                == ansi_override(raw, entry),
{
    lemma_clear_bit(
        raw.palette_override_mask[index / 64],
        reset.palette_override_mask[index / 64],
        (index % 64) as u64,
        0,
    );
    assert forall|entry: int| 0 <= entry < 256 && entry != index implies #[trigger] ansi_override(
        reset,
        entry,
    ) == ansi_override(raw, entry) by {
        if entry / 64 == index / 64 {
            lemma_clear_bit(
                raw.palette_override_mask[index / 64],
                reset.palette_override_mask[index / 64],
                (index % 64) as u64,
                (entry % 64) as u64,
            );
        }
    }
}

/// Resetting the foreground, background or cursor color (OSC 110/111/112)
/// clears its flag, and the decoded override is then absent whatever color
/// the engine still reports.
pub proof fn color_reset_reveals_base_color(value: RawColor)
    ensures
        flagged_override(0, value) is None,
{
}

/// DECTCEM remains the separate visibility mode: the cursor style code never
/// changes the decoded modes, a hidden style still draws as a block, and the
/// mode word never changes the decoded cursor style.
pub proof fn cursor_visibility_is_separate_from_style(snapshot: Snapshot, style: u8, modes: u32)
    ensures
        spec_modes((Snapshot { cursor_style: style, ..snapshot }).modes) == spec_modes(snapshot.modes),
        spec_cursor_shape(CURSOR_HIDDEN) == TerminalCursorShape::Block,
        spec_cursor_shape((Snapshot { modes, ..snapshot }).cursor_style) == spec_cursor_shape(
            snapshot.cursor_style,
        ),
{
}

/// Every raw color decodes to its own kind, keeping its payload: the default
/// tag gives the default color, the palette tag gives the palette entry it
/// names (entry 0 included), the RGB tag gives those three components; two
/// palette colors decode alike only when they name the same entry.
pub proof fn colors_keep_their_kind_and_payload(value: RawColor, other: RawColor)
    ensures
        value.tag == 0 ==> spec_color(value) == TerminalColor::Default,
        value.tag == 1 ==> spec_color(value) == TerminalColor::Indexed(value.red_or_index),
        value.tag == 2 ==> spec_color(value) == TerminalColor::Rgb(
            value.red_or_index,
            value.green,
            value.blue,
        ),
        value.tag == 1 && other.tag == 1 ==> (spec_color(value) == spec_color(other)
            <==> value.red_or_index == other.red_or_index),
        value.tag == 1 ==> spec_color(value) != TerminalColor::Default,
{
}

/// Each decoded mode flag is its own bit of the mode word and nothing else:
/// bracketed paste bit 0 (DEC 2004), application cursor bit 1, application
/// keypad bit 2, click/drag/motion reporting bits 3/4/5 (DEC 1000/1002/1003),
/// SGR mouse bit 6, UTF-8 mouse bit 7, focus events bit 8, alternate scroll
/// bit 9 (DEC 1007), cursor visibility bit 10 (DECTCEM), line wrap bit 11,
/// insert bit 12.
pub proof fn each_mode_flag_is_its_own_bit(word: u32)
    ensures
        spec_modes(word).bracketed_paste == ((word >> 0u32) & 1u32 == 1u32),
        spec_modes(word).app_cursor == ((word >> 1u32) & 1u32 == 1u32),
        spec_modes(word).app_keypad == ((word >> 2u32) & 1u32 == 1u32),
        spec_modes(word).mouse_click == ((word >> 3u32) & 1u32 == 1u32),
        spec_modes(word).mouse_drag == ((word >> 4u32) & 1u32 == 1u32),
        spec_modes(word).mouse_motion == ((word >> 5u32) & 1u32 == 1u32),
        spec_modes(word).sgr_mouse == ((word >> 6u32) & 1u32 == 1u32),
        spec_modes(word).utf8_mouse == ((word >> 7u32) & 1u32 == 1u32),
        spec_modes(word).focus_in_out == ((word >> 8u32) & 1u32 == 1u32),
        spec_modes(word).alternate_scroll == ((word >> 9u32) & 1u32 == 1u32),
        spec_modes(word).show_cursor == ((word >> 10u32) & 1u32 == 1u32),
        spec_modes(word).line_wrap == ((word >> 11u32) & 1u32 == 1u32),
        spec_modes(word).insert == ((word >> 12u32) & 1u32 == 1u32),
{
}

/// Cursor style codes 0 (hidden), 1 (block) and 2 (hollow block) draw a block,
/// 3 an underline and 4 a bar.
pub proof fn cursor_codes_map_to_shapes(style: u8)
    ensures
        style <= 2 ==> spec_cursor_shape(style) == TerminalCursorShape::Block,
        style == 3 ==> spec_cursor_shape(style) == TerminalCursorShape::Underline,
        style == 4 ==> spec_cursor_shape(style) == TerminalCursorShape::Bar,
{
}

/// A palette entry is overridden exactly when its bit (bit `index % 64` of mask
/// word `index / 64`) is set, and then carries that palette entry's RGB bytes;
/// the other overrides are present exactly when their flag byte is nonzero.
pub proof fn overrides_follow_their_mask_bits_and_flags(
    raw: RawThemeOverrides,
    index: int,
    flag: u8,
    value: RawColor,
)
    requires
        0 <= index < 256,
    ensures
        ((raw.palette_override_mask[index / 64] >> ((index % 64) as u64)) & 1u64 == 1u64)
            ==> ansi_override(raw, index) == Some(
            TerminalRgb {
                r: raw.palette[index].red_or_index,
                g: raw.palette[index].green,
                b: raw.palette[index].blue,
            },
        ),
        !((raw.palette_override_mask[index / 64] >> ((index % 64) as u64)) & 1u64 == 1u64)
            ==> ansi_override(raw, index) is None,
        flag != 0 ==> flagged_override(flag, value) == Some(
            TerminalRgb { r: value.red_or_index, g: value.green, b: value.blue },
        ),
        flag == 0 ==> flagged_override(flag, value) is None,
{
}

/// A decoded cell keeps every code point: the first is the base character (a
/// space when there is none), and each later one is a combining character, in
/// order, so there are exactly `n - 1` of them for `n` code points. A code
/// point is its own character when it is a Unicode scalar value (below U+D800,
/// or from U+E000 through U+10FFFF) and U+FFFD otherwise. Colors decode by tag,
/// each attribute is its own bit (bold 0, dim 1, italic 2, underline 3,
/// inverse 4, strikeout 5, hidden 6), the width and wrap flags are their bytes
/// being nonzero, and there is never a hyperlink.
pub proof fn decoded_cells_keep_every_code_point(cell: TerminalCell, raw: RawCell, codepoints: Seq<u32>)
    requires
        decodes_to(cell, raw, codepoints),
    ensures
        codepoints.len() == 0 ==> cell.ch == ' ' && cell.zerowidth@.len() == 0,
        codepoints.len() > 0 ==> cell.zerowidth@.len() == codepoints.len() - 1,
        codepoints.len() > 0 ==> cell.ch == (if codepoints[0] < 0xD800 || (0xE000 <= codepoints[0]
            && codepoints[0] <= 0x10FFFF) {
            codepoints[0] as char
        } else {
            '\u{FFFD}'
        }),
        forall|i: int|
            0 <= i < codepoints.len() - 1 ==> #[trigger] cell.zerowidth@[i] == (if codepoints[i + 1]
                < 0xD800 || (0xE000 <= codepoints[i + 1] && codepoints[i + 1] <= 0x10FFFF) {
                codepoints[i + 1] as char
            } else {
                '\u{FFFD}'
            }),
        raw.foreground.tag == 0 ==> cell.fg == TerminalColor::Default,
        raw.foreground.tag == 1 ==> cell.fg == TerminalColor::Indexed(raw.foreground.red_or_index),
        raw.foreground.tag == 2 ==> cell.fg == TerminalColor::Rgb(
            raw.foreground.red_or_index,
            raw.foreground.green,
            raw.foreground.blue,
        ),
        raw.background.tag == 0 ==> cell.bg == TerminalColor::Default,
        raw.background.tag == 1 ==> cell.bg == TerminalColor::Indexed(raw.background.red_or_index),
        raw.background.tag == 2 ==> cell.bg == TerminalColor::Rgb(
            raw.background.red_or_index,
            raw.background.green,
            raw.background.blue,
        ),
        cell.bold == ((raw.attributes >> 0u16) & 1u16 == 1u16),
        cell.dim == ((raw.attributes >> 1u16) & 1u16 == 1u16),
        cell.italic == ((raw.attributes >> 2u16) & 1u16 == 1u16),
        cell.underline == ((raw.attributes >> 3u16) & 1u16 == 1u16),
        cell.inverse == ((raw.attributes >> 4u16) & 1u16 == 1u16),
        cell.strikeout == ((raw.attributes >> 5u16) & 1u16 == 1u16),
        cell.hidden == ((raw.attributes >> 6u16) & 1u16 == 1u16),
        cell.wide == (raw.wide != 0),
        cell.spacer == (raw.wide_continuation != 0),
        cell.wrapline == (raw.wrapline != 0),
        cell.link is None,
{
    assert forall|i: int| 0 <= i < codepoints.len() - 1 implies #[trigger] cell.zerowidth@[i] == (
    if codepoints[i + 1] < 0xD800 || (0xE000 <= codepoints[i + 1] && codepoints[i + 1] <= 0x10FFFF) {
        codepoints[i + 1] as char
    } else {
        '\u{FFFD}'
    }) by {
        assert(codepoints.drop_first()[i] == codepoints[i + 1]);
    }
}

} // verus!
