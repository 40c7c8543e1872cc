use vstd::prelude::*;

verus! {

/// A point on the desktop: `x` runs along the width, `y` along the height.
#[derive(Debug, Clone, Copy, PartialEq, Eq, Structural)]
pub struct Vec2 {
    pub x: u32,
    pub y: u32,
}

impl Vec2 {
    pub fn new(x: u32, y: u32) -> (r: Vec2)
        ensures
            r.x == x,
            r.y == y,
    {
        Vec2 { x, y }
    }
}

/// A rectangular panel spanned by two corner points and stacked by `z_index`.
#[derive(Debug, Clone, Copy, PartialEq, Eq, Structural)]
pub struct Panel {
    pub position1: Vec2,
    pub position2: Vec2,
    pub z_index: i32,
}

impl Panel {
    pub fn new(position1: Vec2, position2: Vec2, z_index: i32) -> (r: Panel)
        ensures
            r.position1 == position1,
            r.position2 == position2,
            r.z_index == z_index,
    {
        Panel { position1, position2, z_index }
    }
}

} // verus!
