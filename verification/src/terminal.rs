//! The terminal-state vocabulary that the adapter hands to its callers.

use vstd::prelude::*;

verus! {

/// A direct 24-bit color.
#[derive(Clone, Copy, Debug, PartialEq, Eq, Structural)]
pub struct TerminalRgb {
    pub r: u8,
    pub g: u8,
    pub b: u8,
}

/// The color of a cell's foreground or background.
#[derive(Clone, Copy, Debug, PartialEq, Eq, Structural)]
pub enum TerminalColor {
    Default,
    Named(u8),
    Indexed(u8),
    Rgb(u8, u8, u8),
}

/// The drawn shape of the cursor.
#[derive(Clone, Copy, Debug, PartialEq, Eq, Structural)]
pub enum TerminalCursorShape {
    Block,
    Underline,
    Bar,
}

/// Cursor shape and DECSCUSR blink state.
#[derive(Clone, Copy, Debug, PartialEq, Eq, Structural)]
pub struct TerminalCursorStyle {
    pub shape: TerminalCursorShape,
    pub blinking: bool,
}

/// The cursor blink interval that the engine asks for.
#[derive(Clone, Copy, Debug, PartialEq, Eq, Structural)]
pub struct TerminalCursorAnimation {
    pub interval_ms: u32,
}

/// The terminal modes that the adapter exposes.
#[derive(Clone, Copy, Debug, PartialEq, Eq, Structural, Default)]
pub struct TerminalModes {
    pub bracketed_paste: bool,
    pub app_cursor: bool,
    pub app_keypad: bool,
    pub mouse_click: bool,
    pub mouse_drag: bool,
    pub mouse_motion: bool,
    pub sgr_mouse: bool,
    pub utf8_mouse: bool,
    pub focus_in_out: bool,
    pub alternate_scroll: bool,
    pub show_cursor: bool,
    pub line_wrap: bool,
    pub insert: bool,
}

/// Colors set by OSC 4/10/11/12 that override the host theme; `None` shows
/// the host's base color.
#[derive(Clone, Debug, PartialEq, Eq)]
pub struct TerminalThemeOverrides {
    pub foreground: Option<TerminalRgb>,
    pub background: Option<TerminalRgb>,
    pub cursor: Option<TerminalRgb>,
    /// The 256 palette entries.
    pub ansi: Vec<Option<TerminalRgb>>,
}

/// One grid cell.
#[derive(Clone, Debug, PartialEq, Eq)]
pub struct TerminalCell {
    pub ch: char,
    pub fg: TerminalColor,
    pub bg: TerminalColor,
    pub bold: bool,
    pub dim: bool,
    pub italic: bool,
    pub underline: bool,
    pub inverse: bool,
    pub strikeout: bool,
    pub hidden: bool,
    pub wide: bool,
    pub spacer: bool,
    pub wrapline: bool,
    /// Combining characters that follow the base character.
    pub zerowidth: Vec<char>,
    /// OSC 8 hyperlink target.
    pub link: Option<String>,
}

/// Keyboard modifiers held during pointer or wheel input.
#[derive(Clone, Copy, Debug, PartialEq, Eq, Structural, Default)]
pub struct SelectionModifiers {
    pub shift: bool,
    pub alt: bool,
    pub control: bool,
    pub meta: bool,
}

/// The phase of a pointer event.
#[derive(Clone, Copy, Debug, PartialEq, Eq, Structural)]
pub enum PointerPhase {
    Down,
    Up,
    Move,
}

/// The button of a pointer event.
#[derive(Clone, Copy, Debug, PartialEq, Eq, Structural)]
pub enum PointerButton {
    /// No button is held (pointer motion).
    NoButton,
    Left,
    Middle,
    Right,
}

/// A pointer event at a cell.
#[derive(Clone, Copy, Debug, PartialEq, Eq, Structural)]
pub struct EnginePointerInput {
    pub col: u16,
    pub row: u16,
    pub phase: PointerPhase,
    pub button: PointerButton,
    pub modifiers: SelectionModifiers,
}

/// The PTY-producing wheel route that the caller selected.
#[derive(Clone, Copy, Debug, PartialEq, Eq, Structural)]
pub enum EngineWheelRoute {
    /// Live mouse reporting turns each step into a wheel-button report.
    MouseReport,
    /// DEC mode 1007 on the alternate screen turns each step into a cursor key.
    AlternateScroll,
}

/// Wheel input already accumulated into integral cell steps.
#[derive(Clone, Copy, Debug, PartialEq, Eq, Structural)]
pub struct EngineWheelInput {
    pub row: u16,
    pub col: u16,
    /// Negative steps go left, positive steps go right.
    pub horizontal: i32,
    /// Negative steps go up, positive steps go down.
    pub vertical: i32,
    pub modifiers: SelectionModifiers,
    pub route: EngineWheelRoute,
}

} // verus!
