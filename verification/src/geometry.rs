//! Points, sizes and coloured pixels.

use vstd::prelude::*;
use crate::color::Rgb565;

verus! {

/// A position on the drawing plane. Drawing code does not clip, so either
/// coordinate may be negative or lie beyond the panel.
#[derive(Clone, Copy, Debug, PartialEq, Eq)]
pub struct Point {
    pub x: i32,
    pub y: i32,
}

impl Point {
    pub fn new(x: i32, y: i32) -> (point: Point)
        ensures
            point == (Point { x, y }),
    {
        Point { x, y }
    }
}

/// The extent of a drawable area.
#[derive(Clone, Copy, Debug, PartialEq, Eq)]
pub struct Size {
    pub width: u32,
    pub height: u32,
}

impl Size {
    pub fn new(width: u32, height: u32) -> (size: Size)
        ensures
            size == (Size { width, height }),
    {
        Size { width, height }
    }
}

/// A point together with the colour to give it.
#[derive(Clone, Copy, Debug, PartialEq, Eq)]
pub struct Pixel(pub Point, pub Rgb565);

} // verus!
