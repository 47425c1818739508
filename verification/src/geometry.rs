//! Positions and sizes on the character grid.
//!
//! Both adapters speak of the grid in the same terms: a [`Position`] is a
//! column and a row, a [`Size`] is a count of columns and rows (or of pixels),
//! and a [`WindowSize`] pairs the grid's extent in cells with its extent in
//! pixels.

use vstd::prelude::*;

verus! {

/// A cell coordinate on the character grid: column first, then row.
#[derive(Clone, Copy, Debug, PartialEq, Eq, Structural)]
pub struct Position {
    pub x: u16,
    pub y: u16,
}

impl Position {
    /// The position at column `x`, row `y`.
    pub fn new(x: u16, y: u16) -> (p: Position)
        ensures
            p == (Position { x, y }),
    {
        Position { x, y }
    }

    /// The top-left corner of the grid.
    pub open spec fn origin() -> Position {
        Position { x: 0, y: 0 }
    }
}

/// An extent in columns and rows, or in pixels.
#[derive(Clone, Copy, Debug, PartialEq, Eq, Structural)]
pub struct Size {
    pub width: u16,
    pub height: u16,
}

impl Size {
    /// The extent `width` by `height`.
    pub fn new(width: u16, height: u16) -> (s: Size)
        ensures
            s == (Size { width, height }),
    {
        Size { width, height }
    }

    /// The extent that covers nothing.
    pub open spec fn zero() -> Size {
        Size { width: 0, height: 0 }
    }

    /// What is left of a host extent once each side is cut down to its low
    /// sixteen bits.
    pub open spec fn low_bits(width: u32, height: u32) -> Size {
        Size { width: low16(width), height: low16(height) }
    }

    /// Cuts a host extent down to sixteen bits a side. An extent that fits is
    /// kept as it is; a wider one keeps its low sixteen bits.
    pub fn truncated(width: u32, height: u32) -> (s: Size)
        ensures
            s == Size::low_bits(width, height),
            width <= u16::MAX ==> s.width == width,
            height <= u16::MAX ==> s.height == height,
    {
        Size { width: truncate16(width), height: truncate16(height) }
    }
}

/// The extent of the grid in cells together with its extent in pixels.
#[derive(Clone, Copy, Debug, PartialEq, Eq, Structural)]
pub struct WindowSize {
    pub columns_rows: Size,
    pub pixels: Size,
}

impl WindowSize {
    /// The window that covers nothing.
    pub open spec fn zero() -> WindowSize {
        WindowSize { columns_rows: Size::zero(), pixels: Size::zero() }
    }

    /// The window of a host whose grid has `columns` by `rows` cells and
    /// whose window has `width_px` by `height_px` pixels, each of the four
    /// cut down to its low sixteen bits.
    pub open spec fn low_bits(columns: u32, rows: u32, width_px: u32, height_px: u32) -> WindowSize {
        WindowSize {
            columns_rows: Size::low_bits(columns, rows),
            pixels: Size::low_bits(width_px, height_px),
        }
    }

    /// Puts together the window of a host from what the host reports of its
    /// grid and of its pixels. What fits in sixteen bits is kept as it is.
    pub fn of_host(columns: u32, rows: u32, width_px: u32, height_px: u32) -> (w: WindowSize)
        ensures
            w == WindowSize::low_bits(columns, rows, width_px, height_px),
            columns <= u16::MAX && rows <= u16::MAX ==> w.columns_rows == (Size {
                width: columns as u16,
                height: rows as u16,
            }),
            width_px <= u16::MAX && height_px <= u16::MAX ==> w.pixels == (Size {
                width: width_px as u16,
                height: height_px as u16,
            }),
    {
        WindowSize {
            columns_rows: Size::truncated(columns, rows),
            pixels: Size::truncated(width_px, height_px),
        }
    }
}

/// The low sixteen bits of `v`.
pub open spec fn low16(v: u32) -> u16 {
    (v % 0x1_0000) as u16
}

/// The low sixteen bits of `v`, computed.
pub fn truncate16(v: u32) -> (r: u16)
    ensures
        r == low16(v),
        v <= u16::MAX ==> r == v,
{
    (v % 0x1_0000) as u16
}

} // verus!
