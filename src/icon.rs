//! The tray icon's picture: a filled disc of one colour on a clear
//! square.

use vstd::prelude::*;

verus! {

/// Width and height of the icon, in pixels.
pub const ICON_SIZE: u32 = 32;

/// The disc is centred at (16, 16) with radius 14: pixel (x, y) is
/// inside when its offset from the centre is at most 14 long.
pub open spec fn inside_disc(x: int, y: int) -> bool {
    (x - 16) * (x - 16) + (y - 16) * (y - 16) <= 14 * 14
}

/// Where channel `c` of pixel (x, y) sits in row-major RGBA bytes.
pub open spec fn pixel_index(x: int, y: int, c: int) -> int {
    (y * 32 + x) * 4 + c
}

/// Channel `c` (red, green, blue, alpha) of pixel (x, y): the colour,
/// fully opaque, inside the disc; all zero outside.
pub open spec fn disc_channel(x: int, y: int, c: int, r: u8, g: u8, b: u8) -> u8 {
    if !inside_disc(x, y) {
        0
    } else if c == 0 {
        r
    } else if c == 1 {
        g
    } else if c == 2 {
        b
    } else {
        255
    }
}

/// The RGBA bytes, row by row, of a 32 by 32 icon holding a disc of
/// colour (r, g, b).
pub fn disc_rgba(r: u8, g: u8, b: u8) -> (px: Vec<u8>)
    ensures
        px@.len() == ICON_SIZE * ICON_SIZE * 4,
        forall|x: int, y: int, c: int|
            0 <= x < 32 && 0 <= y < 32 && 0 <= c < 4 ==> #[trigger] px@[pixel_index(x, y, c)]
                == disc_channel(x, y, c, r, g, b),
{
    let mut px: Vec<u8> = Vec::new();
    let mut y: u32 = 0;
    while y < ICON_SIZE
        invariant
            y <= 32,
            px@.len() == pixel_index(0, y as int, 0),
            forall|x1: int, y1: int, c1: int|
                0 <= x1 < 32 && 0 <= y1 < y && 0 <= c1 < 4 ==> #[trigger] px@[pixel_index(x1, y1, c1)]
                    == disc_channel(x1, y1, c1, r, g, b),
        decreases 32 - y,
    {
        let mut x: u32 = 0;
        while x < ICON_SIZE
            invariant
                y < 32,
                x <= 32,
                px@.len() == pixel_index(x as int, y as int, 0),
                forall|x1: int, y1: int, c1: int|
                    0 <= x1 < 32 && 0 <= y1 < 32 && 0 <= c1 < 4 && pixel_index(x1, y1, 0)
                        < pixel_index(x as int, y as int, 0) ==> #[trigger] px@[pixel_index(
                        x1,
                        y1,
                        c1,
                    )] == disc_channel(x1, y1, c1, r, g, b),
            decreases 32 - x,
        {
            let dx: i32 = x as i32 - 16;
            let dy: i32 = y as i32 - 16;
            assert(0 <= dx * dx <= 256 && 0 <= dy * dy <= 256) by (nonlinear_arith)
                requires
                    -16 <= dx <= 15,
                    -16 <= dy <= 15,
            ;
            let inside = dx * dx + dy * dy <= 14 * 14;
            let ghost before = px@;
            if inside {
                px.push(r);
                px.push(g);
                px.push(b);
                px.push(255);
            } else {
                px.push(0);
                px.push(0);
                px.push(0);
                px.push(0);
            }
            assert forall|c1: int| 0 <= c1 < 4 implies #[trigger] px@[pixel_index(
                x as int,
                y as int,
                c1,
            )] == disc_channel(x as int, y as int, c1, r, g, b) by {}
            assert forall|k: int| 0 <= k < before.len() implies #[trigger] px@[k] == before[k] by {}
            x += 1;
        }
        y += 1;
    }
    px
}

} // verus!
