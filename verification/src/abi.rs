//! Plain-value images of the records that the engine's C ABI fills in, and
//! the bit layout of their flag words.

use vstd::prelude::*;

verus! {

/// Status of an ABI call that did its work.
pub const SUCCESS: i32 = 0;
/// Status of an ABI call whose output buffer was too small.
pub const OUT_OF_SPACE: i32 = -2;

/// Pointer event codes of the mouse encoder.
pub const POINTER_PRESS: i32 = 0;
pub const POINTER_RELEASE: i32 = 1;
pub const POINTER_MOTION: i32 = 2;

/// Wheel buttons of the mouse encoder: up, down, left, right.
pub const WHEEL_BUTTON_UP: i32 = 4;
pub const WHEEL_BUTTON_DOWN: i32 = 5;
pub const WHEEL_BUTTON_LEFT: i32 = 6;
pub const WHEEL_BUTTON_RIGHT: i32 = 7;

/// Modifier bits of the mouse encoder.
pub const MOUSE_MODIFIER_SHIFT: u32 = 1;
pub const MOUSE_MODIFIER_ALT: u32 = 2;
pub const MOUSE_MODIFIER_CONTROL: u32 = 4;

/// Color tag: the terminal's default color.
pub const COLOR_DEFAULT: u8 = 0;
/// Color tag: an entry of the 256-color palette.
pub const COLOR_PALETTE: u8 = 1;
/// Color tag: a direct RGB color.
pub const COLOR_RGB: u8 = 2;

/// Cursor style codes of the snapshot.
pub const CURSOR_HIDDEN: u8 = 0;
pub const CURSOR_BLOCK: u8 = 1;
pub const CURSOR_HOLLOW_BLOCK: u8 = 2;
pub const CURSOR_UNDERLINE: u8 = 3;
pub const CURSOR_BAR: u8 = 4;

/// Bit positions in the snapshot's mode word.
pub const MODE_BIT_BRACKETED_PASTE: u32 = 0;
pub const MODE_BIT_APPLICATION_CURSOR: u32 = 1;
pub const MODE_BIT_APPLICATION_KEYPAD: u32 = 2;
pub const MODE_BIT_MOUSE_CLICK: u32 = 3;
pub const MODE_BIT_MOUSE_DRAG: u32 = 4;
pub const MODE_BIT_MOUSE_MOTION: u32 = 5;
pub const MODE_BIT_SGR_MOUSE: u32 = 6;
pub const MODE_BIT_UTF8_MOUSE: u32 = 7;
pub const MODE_BIT_FOCUS_EVENTS: u32 = 8;
pub const MODE_BIT_ALTERNATE_SCROLL: u32 = 9;
pub const MODE_BIT_SHOW_CURSOR: u32 = 10;
pub const MODE_BIT_LINE_WRAP: u32 = 11;
pub const MODE_BIT_INSERT: u32 = 12;
pub const MODE_BIT_ALTERNATE_SCREEN: u32 = 13;

/// Bit positions in a cell's attribute word.
pub const ATTR_BIT_BOLD: u16 = 0;
pub const ATTR_BIT_DIM: u16 = 1;
pub const ATTR_BIT_ITALIC: u16 = 2;
pub const ATTR_BIT_UNDERLINE: u16 = 3;
pub const ATTR_BIT_INVERSE: u16 = 4;
pub const ATTR_BIT_STRIKE: u16 = 5;
pub const ATTR_BIT_HIDDEN: u16 = 6;

/// Bit `index` of a 32-bit flag word is set.
pub open spec fn flag32(word: u32, index: u32) -> bool {
    (word >> index) & 1 == 1
}

/// Bit `index` of a 16-bit flag word is set.
pub open spec fn flag16(word: u16, index: u16) -> bool {
    (word >> index) & 1 == 1
}

/// Bit `index` of a 64-bit flag word is set.
pub open spec fn flag64(word: u64, index: u64) -> bool {
    (word >> index) & 1 == 1
}

/// A color as the engine reports it: a tag and three bytes.
#[derive(Clone, Copy, Debug, PartialEq, Eq, Structural, Default)]
pub struct RawColor {
    pub tag: u8,
    pub red_or_index: u8,
    pub green: u8,
    pub blue: u8,
}

/// The tags that the engine is known to produce.
pub open spec fn known_color_tag(tag: u8) -> bool {
    tag <= COLOR_RGB
}

/// The engine's whole-screen snapshot.
#[derive(Clone, Copy, Debug, PartialEq, Eq, Structural, Default)]
pub struct Snapshot {
    pub history_rows: u32,
    pub suppressed_replies: u32,
    pub modes: u32,
    pub cursor_blink_interval_ms: u32,
    pub columns: u16,
    pub rows: u16,
    pub cursor_x: u16,
    pub cursor_y: u16,
    pub cursor_style: u8,
    pub cursor_blinking: u8,
}

/// The cursor style codes that the engine is known to produce.
pub open spec fn known_cursor_style(style: u8) -> bool {
    style <= CURSOR_BAR
}

/// One cell as the engine reports it, without its code points.
#[derive(Clone, Copy, Debug, PartialEq, Eq, Structural, Default)]
pub struct RawCell {
    pub foreground: RawColor,
    pub background: RawColor,
    pub attributes: u16,
    pub wide: u8,
    pub wide_continuation: u8,
    pub wrapline: u8,
    pub line_attribute: u8,
}

/// A cell read: the cell record and the code points that the engine wrote
/// for it, base character first.
#[derive(Clone, Debug)]
pub struct CellRead {
    pub cell: RawCell,
    pub codepoints: Vec<u32>,
}

/// The engine's report of OSC 4/10/11/12 color overrides.
#[derive(Clone, Copy, Debug)]
pub struct RawThemeOverrides {
    pub foreground: RawColor,
    pub background: RawColor,
    pub cursor: RawColor,
    pub palette: [RawColor; 256],
    pub palette_override_mask: [u64; 4],
    pub foreground_overridden: u8,
    pub background_overridden: u8,
    pub cursor_overridden: u8,
}

/// Palette entry `index` is overridden: its bit in the 256-bit mask is set.
pub open spec fn palette_overridden(mask: [u64; 4], index: int) -> bool {
    flag64(mask[index / 64], (index % 64) as u64)
}

} // verus!
