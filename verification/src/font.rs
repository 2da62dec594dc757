//! Geometry of the fixed 16x8 glyph atlas the renderer draws from.
//! The pixel data itself belongs to the rendering collaborator; only
//! the layout arithmetic lives here.

use vstd::prelude::*;

verus! {

pub const WIDTH: i32 = 128;

pub const HEIGHT: i32 = 64;

pub const CHARS_BY_ROW: i32 = 16;

pub const CHARS_BY_COL: i32 = 8;

pub const CHAR_WIDTH: i32 = 8;

pub const CHAR_HEIGHT: i32 = 8;

/// Pixel width of a text run of `len` glyphs, with one leading
/// character cell of padding.
pub fn width(len: usize) -> (r: i32)
    requires
        len * (CHAR_WIDTH as int) + CHAR_WIDTH <= i32::MAX,
    ensures
        r == len * (CHAR_WIDTH as int) + CHAR_WIDTH,
{
    len as i32 * CHAR_WIDTH + CHAR_WIDTH
}

} // verus!
