//! Coordinate projection: a pure, deterministic mapping from the aggregated
//! shapes, a scroll offset and a canvas size to pixel-space drawing
//! primitives. Times are projected as
//! `project(x) = ((x - begin) - offset) / scale * width` pixels; this module
//! computes that value exactly in fixed-point (numerator and floor-divided
//! pixel), decides visibility exactly, and divides the canvas into output
//! lanes and surface sub-lanes.

use vstd::prelude::*;
use vstd::arithmetic::div_mod::{lemma_div_is_ordered, lemma_div_multiples_vanish};

use crate::shape::{Shape, SurfaceState};
use crate::timeline::{RepaintLoop, TimelineModel};

verus! {

/// Time-domain width of the viewport (120 ms in nanoseconds).
pub const VISUALIZATION_SCALE: u64 = 120_000_000;

/// Projected time of `x` relative to the baseline origin and scroll offset.
pub open spec fn rel_time(x: u64, begin: u64, offset: u64) -> int {
    x - begin - offset
}

/// A time is visible iff its projected pixel value lies in `[0, width]`,
/// which holds exactly when its relative time lies in `[0, scale]`.
pub open spec fn visible(x: u64, begin: u64, offset: u64) -> bool {
    0 <= rel_time(x, begin, offset) <= VISUALIZATION_SCALE
}

/// Numerator of the projection: `project(x) * scale`. Keeping the scale
/// factor makes the projection exact over the integers.
pub open spec fn project_num(x: int, begin: int, offset: int, width: int) -> int {
    ((x - begin) - offset) * width
}

/// Pixel column of a relative time, clipped to the canvas: negative times
/// sit on the left edge, times past the viewport on the right edge, and
/// visible times at `rel * width / scale`, rounded down.
pub open spec fn clamped_px(rel: int, width: int) -> int {
    if rel < 0 {
        0
    } else if rel > VISUALIZATION_SCALE {
        width
    } else {
        rel * width / (VISUALIZATION_SCALE as int)
    }
}

/// A render-ready drawing primitive, in pixel space horizontally and lane
/// indices vertically.
#[derive(Clone, Copy, Debug, PartialEq, Eq, Structural)]
pub enum Prim {
    /// A frame boundary: a thin guide line across the whole canvas plus a
    /// bold tick within its output's lane.
    Boundary { x: u32, output_idx: usize },
    /// A repaint interval: a filled rectangle spanning its output's lane.
    Repaint { x_left: u32, x_right: u32, output_idx: usize },
    /// A surface commit: a small square at its surface's sub-lane.
    CommitMark { x: u32, output_idx: usize, surface_slot: usize },
}

/// How one shape is drawn, if at all: point shapes are drawn when visible;
/// a repaint region is drawn when either endpoint is visible, clipped at
/// the canvas edges.
pub open spec fn prim_of_shape(
    s: Shape,
    begin: u64,
    offset: u64,
    width: u32,
    surfaces: Seq<SurfaceState>,
) -> Option<Prim> {
    match s {
        Shape::FrameBoundary(t, i) => if visible(t, begin, offset) {
            Some(
                Prim::Boundary {
                    x: clamped_px(rel_time(t, begin, offset), width as int) as u32,
                    output_idx: i,
                },
            )
        } else {
            None
        },
        Shape::RepaintRegion(l, r, i) => if visible(l, begin, offset) || visible(
            r,
            begin,
            offset,
        ) {
            Some(
                Prim::Repaint {
                    x_left: clamped_px(rel_time(l, begin, offset), width as int) as u32,
                    x_right: clamped_px(rel_time(r, begin, offset), width as int) as u32,
                    output_idx: i,
                },
            )
        } else {
            None
        },
        Shape::Commit(t, si) => if visible(t, begin, offset) {
            Some(
                Prim::CommitMark {
                    x: clamped_px(rel_time(t, begin, offset), width as int) as u32,
                    output_idx: surfaces[si as int].output_idx,
                    surface_slot: si,
                },
            )
        } else {
            None
        },
    }
}

/// The primitives of a whole buffer, in order, skipping invisible shapes.
pub open spec fn prims_of(
    shapes: Seq<Shape>,
    begin: u64,
    offset: u64,
    width: u32,
    surfaces: Seq<SurfaceState>,
) -> Seq<Prim>
    decreases shapes.len(),
{
    if shapes.len() == 0 {
        Seq::empty()
    } else {
        let rest = prims_of(shapes.drop_last(), begin, offset, width, surfaces);
        match prim_of_shape(shapes.last(), begin, offset, width, surfaces) {
            Some(p) => rest.push(p),
            None => rest,
        }
    }
}

/// The buffer chosen for rendering: frozen when non-empty, else pending.
pub open spec fn active_shapes(m: TimelineModel) -> Seq<Shape> {
    if m.frozen.len() > 0 {
        m.frozen
    } else {
        m.pending
    }
}

/// Baseline origin of a buffer: the left extent of its first shape.
pub open spec fn begin_of(shapes: Seq<Shape>) -> u64 {
    if shapes.len() == 0 {
        0
    } else {
        crate::shape::shape_left(shapes.first())
    }
}

/// Whether the projected pixel value of `x` lies within the canvas.
fn visible_at(x: u64, begin: u64, offset: u64) -> (r: bool)
    ensures
        r == visible(x, begin, offset),
{
    let rel: i128 = x as i128 - begin as i128 - offset as i128;
    0 <= rel && rel <= VISUALIZATION_SCALE as i128
}

/// Pixel column of `x`, clipped to the canvas.
fn px_at(x: u64, begin: u64, offset: u64, width: u32) -> (r: u32)
    ensures
        r as int == clamped_px(rel_time(x, begin, offset), width as int),
{
    let rel: i128 = x as i128 - begin as i128 - offset as i128;
    if rel < 0 {
        0
    } else if rel > VISUALIZATION_SCALE as i128 {
        width
    } else {
        let relu: u64 = rel as u64;
        let wu: u64 = width as u64;
        proof {
            assert(relu * wu <= 120_000_000u64 * 0xFFFF_FFFFu64) by (nonlinear_arith)
                requires
                    relu <= 120_000_000u64,
                    wu <= 0xFFFF_FFFFu64,
            ;
            assert(relu * wu <= VISUALIZATION_SCALE * wu) by (nonlinear_arith)
                requires
                    relu <= VISUALIZATION_SCALE,
            ;
            lemma_div_is_ordered(
                (relu * wu) as int,
                (VISUALIZATION_SCALE * wu) as int,
                VISUALIZATION_SCALE as int,
            );
            lemma_div_multiples_vanish(wu as int, VISUALIZATION_SCALE as int);
        }
        (relu * wu / VISUALIZATION_SCALE) as u32
    }
}

/// How one shape is drawn, if at all.
fn prim_of(s: &Shape, begin: u64, offset: u64, width: u32, surfaces: &Vec<SurfaceState>) -> (r:
    Option<Prim>)
    requires
        s matches Shape::Commit(_, si) ==> (si as int) < surfaces@.len(),
    ensures
        r == prim_of_shape(*s, begin, offset, width, surfaces@),
{
    match s {
        Shape::FrameBoundary(t, i) => {
            if visible_at(*t, begin, offset) {
                Some(Prim::Boundary { x: px_at(*t, begin, offset, width), output_idx: *i })
            } else {
                None
            }
        },
        Shape::RepaintRegion(l, r, i) => {
            if visible_at(*l, begin, offset) || visible_at(*r, begin, offset) {
                Some(
                    Prim::Repaint {
                        x_left: px_at(*l, begin, offset, width),
                        x_right: px_at(*r, begin, offset, width),
                        output_idx: *i,
                    },
                )
            } else {
                None
            }
        },
        Shape::Commit(t, si) => {
            if visible_at(*t, begin, offset) {
                Some(
                    Prim::CommitMark {
                        x: px_at(*t, begin, offset, width),
                        output_idx: surfaces[*si].output_idx,
                        surface_slot: *si,
                    },
                )
            } else {
                None
            }
        },
    }
}

/// Project the aggregator's displayed buffer — frozen when non-empty, else
/// pending — onto a canvas of the given pixel width, using the aggregator's
/// scroll offset, exactly as [`prims_of`] describes. Deterministic and
/// side-effect-free.
pub fn render_prims(rl: &RepaintLoop, width: u32) -> (r: Vec<Prim>)
    requires
        rl.wf(),
    ensures
        r@ == prims_of(
            active_shapes(rl@),
            begin_of(active_shapes(rl@)),
            rl@.index,
            width,
            rl@.surfaces,
        ),
{
    let shapes: &Vec<Shape> = if self_shapes_empty(rl) {
        &rl.pending_shapes
    } else {
        &rl.shapes
    };
    proof {
        assert(shapes@ == active_shapes(rl@));
    }
    let begin: u64 = if shapes.len() == 0 {
        0
    } else {
        shapes[0].left()
    };
    let offset = rl.index;
    let mut out: Vec<Prim> = Vec::new();
    let mut i: usize = 0;
    while i < shapes.len()
        invariant
            i <= shapes@.len(),
            shapes@ == active_shapes(rl@),
            begin == begin_of(shapes@),
            offset == rl@.index,
            rl.wf(),
            out@ == prims_of(shapes@.take(i as int), begin, offset, width, rl@.surfaces),
        decreases shapes@.len() - i,
    {
        let op = prim_of(&shapes[i], begin, offset, width, &rl.surfaces);
        proof {
            assert(shapes@.take(i as int + 1).drop_last() =~= shapes@.take(i as int));
            assert(shapes@.take(i as int + 1).last() == shapes@[i as int]);
        }
        match op {
            Some(p) => out.push(p),
            None => (),
        }
        i += 1;
    }
    proof {
        assert(shapes@.take(shapes@.len() as int) =~= shapes@);
    }
    out
}

/// Whether the frozen buffer is empty, so the live pending buffer is shown.
fn self_shapes_empty(rl: &RepaintLoop) -> (r: bool)
    ensures
        r == (rl@.frozen.len() == 0),
{
    rl.shapes.is_empty()
}

/// Vertical lane layout: the canvas height divided into one lane per output
/// (at least one), each lane divided into one sub-lane per surface plus one.
/// Returns (lane height, sub-lane height) in pixels.
pub fn lane_heights(height: u32, n_outputs: usize, n_surfaces: usize) -> (r: (u32, u32))
    requires
        n_surfaces < usize::MAX,
    ensures
        r.0 as int == height as int / (if n_outputs == 0 { 1int } else { n_outputs as int }),
        r.1 as int == r.0 as int / (n_surfaces as int + 1),
{
    let cnt_outputs: u64 = if n_outputs == 0 {
        1
    } else {
        n_outputs as u64
    };
    let y_per_output: u64 = height as u64 / cnt_outputs;
    let cnt_surfaces: u64 = n_surfaces as u64 + 1;
    let y_per_surface: u64 = y_per_output / cnt_surfaces;
    proof {
        lemma_div_is_ordered(y_per_output as int, height as int, cnt_surfaces as int);
    }
    (y_per_output as u32, y_per_surface as u32)
}

/// The projection is affine in the projected time. At the baseline origin
/// its numerator is `-offset * width` — that is, `project(begin)` sits at
/// `-offset / scale * width` pixels — and for a fixed baseline, offset and
/// positive width it is strictly increasing.
pub proof fn lemma_project_affine(begin: int, offset: int, width: int, x1: int, x2: int)
    requires
        width > 0,
        x1 < x2,
    ensures
        project_num(begin, begin, offset, width) == -offset * width,
        project_num(x1, begin, offset, width) < project_num(x2, begin, offset, width),
{
    assert(((x1 - begin) - offset) * width < ((x2 - begin) - offset) * width) by (nonlinear_arith)
        requires
            x1 < x2,
            width > 0,
    ;
}

/// For a visible time the clipped pixel column is exactly the projection
/// numerator divided by the scale.
pub proof fn lemma_visible_px_is_scaled_projection(x: u64, begin: u64, offset: u64, width: u32)
    requires
        visible(x, begin, offset),
    ensures
        clamped_px(rel_time(x, begin, offset), width as int) == project_num(
            x as int,
            begin as int,
            offset as int,
            width as int,
        ) / (VISUALIZATION_SCALE as int),
{
}

} // verus!
