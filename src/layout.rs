//! Where things stand on screen: the drawing canvas on the left, the result
//! panel on the right, cut into four picture tiles. Sizes are in logical
//! pixels; positions of sprites are taken from the window's centre, y upward.
use crate::inference::{result_image_stem, stem_of};
use vstd::prelude::*;

verus! {

pub const WINDOW_WIDTH: u32 = 1350;

pub const WINDOW_HEIGHT: u32 = 700;

/// Margin between the window's edges and the panels, and between the panels.
pub const OFFSET: u32 = WINDOW_HEIGHT / 14;

/// Width of the drawing canvas, and of the result panel beside it.
pub const CANVAS_WIDTH: u32 = (WINDOW_WIDTH - OFFSET * 3) / 2;

/// Height of the drawing canvas, and of the result panel.
pub const CANVAS_HEIGHT: u32 = WINDOW_HEIGHT - OFFSET * 2;

/// Horizontal centre of the result panel.
pub const RESULT_PANEL_X: u32 = WINDOW_WIDTH / 2 - CANVAS_WIDTH / 2 - OFFSET;

/// Horizontal centre of the left column of result tiles.
pub const TILE_LEFT_X: u32 = WINDOW_WIDTH / 2 - OFFSET - CANVAS_WIDTH / 2 - CANVAS_WIDTH / 4;

/// Horizontal centre of the right column of result tiles.
pub const TILE_RIGHT_X: u32 = WINDOW_WIDTH / 2 - OFFSET - CANVAS_WIDTH / 4;

/// Vertical centre of the upper row of result tiles; the lower row mirrors it.
pub const TILE_TOP_Y: u32 = WINDOW_HEIGHT / 2 - OFFSET - CANVAS_HEIGHT / 4;

/// Every division in the layout is exact, so the integer positions are the
/// real-valued ones.
pub proof fn lemma_layout_is_exact()
    ensures
        WINDOW_HEIGHT % 14 == 0,
        (WINDOW_WIDTH - OFFSET * 3) % 2 == 0,
        WINDOW_WIDTH % 2 == 0,
        WINDOW_HEIGHT % 2 == 0,
        CANVAS_WIDTH % 4 == 0,
        CANVAS_HEIGHT % 4 == 0,
{
}

/// One picture of the result panel: the image file it shows, its centre and
/// its size.
#[derive(Debug)]
pub struct ResultTile {
    pub file: String,
    pub x: i32,
    pub y: i32,
    pub width: u32,
    pub height: u32,
}

/// Horizontal centre of tile `t`, counting upper left, upper right, lower
/// left, lower right.
pub open spec fn tile_x(t: int) -> int {
    if t % 2 == 0 {
        TILE_LEFT_X as int
    } else {
        TILE_RIGHT_X as int
    }
}

/// Vertical centre of tile `t`.
pub open spec fn tile_y(t: int) -> int {
    if t < 2 {
        TILE_TOP_Y as int
    } else {
        -(TILE_TOP_Y as int)
    }
}

/// The end of the name of the file that tile `t` shows: the tiles are
/// numbered from 1.
pub open spec fn tile_suffix(t: int) -> Seq<char> {
    if t == 0 {
        "1.png"@
    } else if t == 1 {
        "2.png"@
    } else if t == 2 {
        "3.png"@
    } else {
        "4.png"@
    }
}

fn tile_suffix_str(t: usize) -> (r: &'static str)
    ensures
        r@ == tile_suffix(t as int),
{
    if t == 0 {
        "1.png"
    } else if t == 1 {
        "2.png"
    } else if t == 2 {
        "3.png"
    } else {
        "4.png"
    }
}

/// The four tiles that show the answer for class number `index`: tile `t`
/// shows the class's picture numbered `t + 1`, at the `t`-th place in
/// reading order, a quarter of the panel in size.
pub fn result_tiles(index: u32) -> (r: Vec<ResultTile>)
    ensures
        r@.len() == 4,
        forall|t: int|
            0 <= t < 4 ==> {
                &&& (#[trigger] r@[t]).file@ == stem_of(index) + tile_suffix(t)
                &&& r@[t].x == tile_x(t)
                &&& r@[t].y == tile_y(t)
                &&& r@[t].width == CANVAS_WIDTH / 2
                &&& r@[t].height == CANVAS_HEIGHT / 2
            },
{
    let stem = result_image_stem(index);
    let mut tiles: Vec<ResultTile> = Vec::new();
    let mut t: usize = 0;
    while t < 4
        invariant
            t <= 4,
            stem@ == stem_of(index),
            tiles@.len() == t,
            forall|u: int|
                0 <= u < t ==> {
                    &&& (#[trigger] tiles@[u]).file@ == stem_of(index) + tile_suffix(u)
                    &&& tiles@[u].x == tile_x(u)
                    &&& tiles@[u].y == tile_y(u)
                    &&& tiles@[u].width == CANVAS_WIDTH / 2
                    &&& tiles@[u].height == CANVAS_HEIGHT / 2
                },
        decreases 4 - t,
    {
        let mut file = String::from_str(stem);
        file.append(tile_suffix_str(t));
        let x = if t % 2 == 0 {
            TILE_LEFT_X as i32
        } else {
            TILE_RIGHT_X as i32
        };
        let y = if t < 2 {
            TILE_TOP_Y as i32
        } else {
            -(TILE_TOP_Y as i32)
        };
        tiles.push(ResultTile { file, x, y, width: CANVAS_WIDTH / 2, height: CANVAS_HEIGHT / 2 });
        t = t + 1;
    }
    tiles
}

} // verus!
