//! Fixed configuration of the single application window: class name, title,
//! initial size, style bits, and the sample text drawn on paint.  None of
//! these are runtime-configurable.

use vstd::prelude::*;

verus! {

/// Initial client width of the main window, in pixels.
pub const MAIN_WINDOW_WIDTH: i32 = 800;

/// Initial client height of the main window, in pixels.
pub const MAIN_WINDOW_HEIGHT: i32 = 600;

/// Style bits of an ordinary overlapped top-level window: caption, system
/// menu, thick frame, minimize and maximize boxes.
pub const WINDOW_STYLES: u32 = 0x00CF0000;

/// Extended style bit that gives the client area a sunken edge.
pub const WINDOW_EX_STYLES: u32 = 0x00000200;

/// Class style bits: redraw the whole window on a resize in either axis.
pub const CLASS_STYLES: u32 = 0x0002 | 0x0001;

/// System brush index of the non-transparent window background
/// (the window-color brush).
pub const BACKGROUND_BRUSH: u32 = 6;

/// Stock resource identifier of the default application icon.
pub const DEFAULT_ICON: u32 = 32512;

/// Stock resource identifier of the arrow cursor.
pub const ARROW_CURSOR: u32 = 32512;

/// Horizontal placement value asking the windowing subsystem to pick a
/// default position.
pub const USE_DEFAULT_POSITION: i32 = -2147483648;

/// Text format bits for the painted sample string: centered horizontally,
/// centered vertically, drawn as a single line.
pub const DRAW_CENTERED_SINGLE_LINE: u32 = 0x00000001 | 0x00000004 | 0x00000020;

/// The class name under which the main window's class is registered.
pub open spec fn spec_class_name() -> Seq<char> {
    "TEMPLATE_CLASS_NAME"@
}

/// The class name under which the main window's class is registered.
pub fn class_name() -> (s: String)
    ensures
        s@ == spec_class_name(),
{
    "TEMPLATE_CLASS_NAME".to_owned()
}

/// The title of the main window.
pub open spec fn spec_window_title() -> Seq<char> {
    "TEMPLATE_WINDOW_TITLE"@
}

/// The title of the main window.
pub fn window_title() -> (s: String)
    ensures
        s@ == spec_window_title(),
{
    "TEMPLATE_WINDOW_TITLE".to_owned()
}

/// The fixed sample string drawn centered in the client area on paint.
pub open spec fn spec_sample_text() -> Seq<char> {
    "This is a long sample text, with the default font."@
}

/// The fixed sample string drawn centered in the client area on paint.
pub fn sample_text() -> (s: String)
    ensures
        s@ == spec_sample_text(),
{
    "This is a long sample text, with the default font.".to_owned()
}

} // verus!
