//! Screen geometry: where a centered popup of a wanted size lands inside a
//! parent region.

use vstd::prelude::*;

verus! {

#[derive(Clone, Copy, Debug, PartialEq, Eq, Structural)]
pub struct Rect {
    pub x: u16,
    pub y: u16,
    pub width: u16,
    pub height: u16,
}

/// A rectangle of the wanted size, shrunk to the parent where the parent is
/// smaller, centered over the parent's own extent.
pub fn calculate_center_rect(width: u16, height: u16, parent_rect: Rect) -> (r: Rect)
    ensures
        r.width == if width <= parent_rect.width {
            width
        } else {
            parent_rect.width
        },
        r.height == if height <= parent_rect.height {
            height
        } else {
            parent_rect.height
        },
        r.x == (parent_rect.width - r.width) / 2,
        r.y == (parent_rect.height - r.height) / 2,
{
    let width = if width <= parent_rect.width {
        width
    } else {
        parent_rect.width
    };
    let height = if height <= parent_rect.height {
        height
    } else {
        parent_rect.height
    };
    Rect {
        x: (parent_rect.width - width) / 2,
        y: (parent_rect.height - height) / 2,
        width,
        height,
    }
}

} // verus!
