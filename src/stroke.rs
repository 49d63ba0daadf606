//! How a mouse stroke becomes marks: how many points are laid between two
//! cursor samples, and which offsets around each point the round brush covers.
use vstd::arithmetic::div_mod::lemma_fundamental_div_mod_converse;
use vstd::prelude::*;

verus! {

/// Radius of the round brush, in canvas units.
pub const BRUSH_RADIUS: i32 = 5;

/// Side of the square of candidate offsets that the brush is cut from.
pub const BRUSH_SIDE: i32 = 2 * BRUSH_RADIUS + 1;

/// Cursor travel, in pixels, that one batch of interpolated points covers.
pub const STROKE_SEGMENT: u32 = 400;

/// Points laid down for each started segment of cursor travel.
pub const POINTS_PER_SEGMENT: u32 = 10;

/// Whether offset `o` from a brush centre lies strictly inside the brush.
pub open spec fn in_brush(o: (i32, i32)) -> bool {
    o.0 * o.0 + o.1 * o.1 < BRUSH_RADIUS * BRUSH_RADIUS
}

/// Every offset of the square `-BRUSH_RADIUS ..= BRUSH_RADIUS` on both axes,
/// first coordinate outermost, each ascending.
pub open spec fn brush_candidates() -> Seq<(i32, i32)> {
    Seq::new(
        (BRUSH_SIDE * BRUSH_SIDE) as nat,
        |k: int|
            (
                (k / (BRUSH_SIDE as int) - BRUSH_RADIUS) as i32,
                (k % (BRUSH_SIDE as int) - BRUSH_RADIUS) as i32,
            ),
    )
}

/// The offsets that a brush point covers, in scan order.
pub open spec fn brush_shape() -> Seq<(i32, i32)> {
    brush_candidates().filter(|o: (i32, i32)| in_brush(o))
}

/// The offsets, around a point of a stroke, that the round brush covers: those
/// closer to the centre than `BRUSH_RADIUS`, scanned column by column.
pub fn brush_offsets() -> (r: Vec<(i32, i32)>)
    ensures
        r@ == brush_shape(),
{
    let mut out: Vec<(i32, i32)> = Vec::new();
    let mut i: i32 = -BRUSH_RADIUS;
    while i <= BRUSH_RADIUS
        invariant
            -BRUSH_RADIUS <= i <= BRUSH_RADIUS + 1,
            out@ == brush_candidates().take((i + BRUSH_RADIUS) * BRUSH_SIDE).filter(
                |o: (i32, i32)| in_brush(o),
            ),
        decreases BRUSH_RADIUS + 1 - i,
    {
        let mut j: i32 = -BRUSH_RADIUS;
        while j <= BRUSH_RADIUS
            invariant
                -BRUSH_RADIUS <= i <= BRUSH_RADIUS,
                -BRUSH_RADIUS <= j <= BRUSH_RADIUS + 1,
                out@ == brush_candidates().take(
                    (i + BRUSH_RADIUS) * BRUSH_SIDE + (j + BRUSH_RADIUS),
                ).filter(|o: (i32, i32)| in_brush(o)),
            decreases BRUSH_RADIUS + 1 - j,
        {
            assert(BRUSH_RADIUS == 5 && BRUSH_SIDE == 11);
            let ghost k: int = (i + BRUSH_RADIUS) * BRUSH_SIDE + (j + BRUSH_RADIUS);
            proof {
                let c = brush_candidates();
                assert(BRUSH_SIDE == 11);
                assert(c.len() == 121);
                assert(0 <= k < 121);
                lemma_fundamental_div_mod_converse(
                    k,
                    BRUSH_SIDE as int,
                    i + BRUSH_RADIUS,
                    j + BRUSH_RADIUS,
                );
                assert(c[k] == (i, j));
                assert(c.take(k + 1) =~= c.take(k).push(c[k]));
                c.take(k).lemma_filter_push(c[k], |o: (i32, i32)| in_brush(o));
            }
            assert(0 <= i * i <= 25 && 0 <= j * j <= 25) by (nonlinear_arith)
                requires
                    -5 <= i <= 5,
                    -5 <= j <= 5,
            ;
            if i * i + j * j < BRUSH_RADIUS * BRUSH_RADIUS {
                out.push((i, j));
            }
            j = j + 1;
        }
        assert(BRUSH_RADIUS == 5 && BRUSH_SIDE == 11);
        assert((i + BRUSH_RADIUS) * BRUSH_SIDE + (j + BRUSH_RADIUS) == (i + 1 + BRUSH_RADIUS)
            * BRUSH_SIDE);
        i = i + 1;
    }
    assert(BRUSH_RADIUS == 5 && BRUSH_SIDE == 11);
    assert(brush_candidates().take(BRUSH_SIDE * BRUSH_SIDE) =~= brush_candidates());
    out
}

/// How many points to lay on the line from the previous cursor sample to the
/// next, given the distance between them in whole pixels: `POINTS_PER_SEGMENT`
/// for each started `STROKE_SEGMENT` pixels.
pub fn stroke_steps(distance: u32) -> (r: u32)
    ensures
        r == (distance / STROKE_SEGMENT + 1) * POINTS_PER_SEGMENT,
        r >= POINTS_PER_SEGMENT,
{
    (distance / STROKE_SEGMENT + 1) * POINTS_PER_SEGMENT
}

} // verus!
