//! The fixed start-up scene.
//!
//! At start-up the program draws a hardcoded sequence of line segments:
//! five black lines forming a stick-figure-like shape and four red lines
//! forming a small square.  The application walks this list and issues one
//! line draw call per segment.

use crate::geometry::{px, COORD_MAX, SCALE};
use vstd::prelude::*;

verus! {

/// One line segment of the start-up scene: endpoints in subpixel units
/// and a color name.
#[derive(PartialEq, Eq, Debug)]
pub struct Segment {
    pub x1: i64,
    pub y1: i64,
    pub x2: i64,
    pub y2: i64,
    pub color: String,
}

/// Builds a segment from whole-pixel coordinates.
fn seg(x1: i64, y1: i64, x2: i64, y2: i64, color: &str) -> (s: Segment)
    requires
        -1_000_000 <= x1 <= 1_000_000,
        -1_000_000 <= y1 <= 1_000_000,
        -1_000_000 <= x2 <= 1_000_000,
        -1_000_000 <= y2 <= 1_000_000,
    ensures
        s.x1 == x1 * SCALE,
        s.y1 == y1 * SCALE,
        s.x2 == x2 * SCALE,
        s.y2 == y2 * SCALE,
        s.color@ == color@,
        -COORD_MAX <= s.x1 <= COORD_MAX,
        -COORD_MAX <= s.y1 <= COORD_MAX,
        -COORD_MAX <= s.x2 <= COORD_MAX,
        -COORD_MAX <= s.y2 <= COORD_MAX,
{
    Segment { x1: px(x1), y1: px(y1), x2: px(x2), y2: px(y2), color: color.to_owned() }
}

/// The nine lines of the start-up scene, in draw order, with whole-pixel
/// endpoints in subpixel units.  Every endpoint lies within `COORD_MAX`.
pub fn scene() -> (v: Vec<Segment>)
    ensures
        v@.len() == 9,
        forall|i: int|
            0 <= i < 9 ==> (-COORD_MAX <= #[trigger] v@[i].x1 <= COORD_MAX && -COORD_MAX
                <= v@[i].y1 <= COORD_MAX && -COORD_MAX <= v@[i].x2 <= COORD_MAX && -COORD_MAX
                <= v@[i].y2 <= COORD_MAX),
        v@[0].x1 == 300 * SCALE && v@[0].y1 == 250 * SCALE && v@[0].x2 == 400 * SCALE
            && v@[0].y2 == 200 * SCALE && v@[0].color@ == "black"@,
        v@[1].x1 == 400 * SCALE && v@[1].y1 == 200 * SCALE && v@[1].x2 == 500 * SCALE
            && v@[1].y2 == 400 * SCALE && v@[1].color@ == "black"@,
        v@[2].x1 == 500 * SCALE && v@[2].y1 == 400 * SCALE && v@[2].x2 == 100 * SCALE
            && v@[2].y2 == 400 * SCALE && v@[2].color@ == "black"@,
        v@[3].x1 == 100 * SCALE && v@[3].y1 == 400 * SCALE && v@[3].x2 == 300 * SCALE
            && v@[3].y2 == 350 * SCALE && v@[3].color@ == "black"@,
        v@[4].x1 == 300 * SCALE && v@[4].y1 == 350 * SCALE && v@[4].x2 == 300 * SCALE
            && v@[4].y2 == 250 * SCALE && v@[4].color@ == "black"@,
        v@[5].x1 == 30 * SCALE && v@[5].y1 == 30 * SCALE && v@[5].x2 == 70 * SCALE && v@[5].y2
            == 30 * SCALE && v@[5].color@ == "red"@,
        v@[6].x1 == 30 * SCALE && v@[6].y1 == 30 * SCALE && v@[6].x2 == 30 * SCALE && v@[6].y2
            == 70 * SCALE && v@[6].color@ == "red"@,
        v@[7].x1 == 30 * SCALE && v@[7].y1 == 70 * SCALE && v@[7].x2 == 70 * SCALE && v@[7].y2
            == 70 * SCALE && v@[7].color@ == "red"@,
        v@[8].x1 == 70 * SCALE && v@[8].y1 == 70 * SCALE && v@[8].x2 == 70 * SCALE && v@[8].y2
            == 30 * SCALE && v@[8].color@ == "red"@,
{
    let mut v: Vec<Segment> = Vec::new();
    v.push(seg(300, 250, 400, 200, "black"));
    v.push(seg(400, 200, 500, 400, "black"));
    v.push(seg(500, 400, 100, 400, "black"));
    v.push(seg(100, 400, 300, 350, "black"));
    v.push(seg(300, 350, 300, 250, "black"));
    v.push(seg(30, 30, 70, 30, "red"));
    v.push(seg(30, 30, 30, 70, "red"));
    v.push(seg(30, 70, 70, 70, "red"));
    v.push(seg(70, 70, 70, 30, "red"));
    v
}

} // verus!
