//! Rectangles, over whatever numbers the platform measures in.
use vstd::prelude::*;

verus! {

/// A rectangle on the screen.
#[derive(Debug, Clone, Copy, PartialEq)]
pub struct Rect<N> {
    pub x: N,
    pub y: N,
    pub width: N,
    pub height: N,
}

} // verus!
