//! Instance layout: where each video rectangle goes and how it is scaled.
//!
//! Placements are computed once, from the number of videos alone: instance
//! `i` of `n` sits in a single horizontal row at offset
//! `x = -1 + 2*i/(n-1)` (centered at 0 for `n = 1`), `y = 0`, with uniform
//! scale `1/n` on both axes. The aspect-ratio correction is recomputed on
//! every resize from the window's width/height alone and folded into each
//! instance's transform at draw time, so resizing never touches a placement.
//!
//! All coordinates are exact rationals (numerator/denominator pairs); the
//! unverified render layer converts them to floating point only when filling
//! GPU buffers.

use vstd::prelude::*;

verus! {

/// Largest accepted video count: keeps every numerator and denominator below
/// `2^31`, so products of two of them fit in the signed 64-bit fields.
pub const MAX_INSTANCES: usize = 0x7fff_ffff;

/// Static placement of one video instance in normalized device coordinates:
/// offset `(offset_x_num/offset_den, offset_y_num/offset_den)`, uniform
/// scale `scale_num/scale_den` on both axes. Assigned once at startup.
#[derive(Clone, Copy, PartialEq, Eq, Structural, Debug)]
pub struct Placement {
    pub offset_x_num: i64,
    pub offset_y_num: i64,
    pub offset_den: u64,
    pub scale_num: u64,
    pub scale_den: u64,
}

/// Well-formed placement: denominators are positive and every field is small
/// enough that a product of two fields fits in 64 signed bits.
pub open spec fn placement_wf(p: Placement) -> bool {
    &&& 0 < p.offset_den <= 0x7fff_ffff
    &&& -0x7fff_ffff <= p.offset_x_num <= 0x7fff_ffff
    &&& -0x7fff_ffff <= p.offset_y_num <= 0x7fff_ffff
    &&& 0 < p.scale_num <= 0x7fff_ffff
    &&& 0 < p.scale_den <= 0x7fff_ffff
}

/// The placement of instance `i` in a row of `n`: offset
/// `(2i - (n-1)) / (n-1)` (which is `-1 + 2i/(n-1)`) and scale `1/n` for
/// `n >= 2`; the division-free special case offset `0`, scale `1` for
/// `n == 1`.
pub open spec fn placement_at(n: int, i: int) -> Placement {
    if n == 1 {
        Placement {
            offset_x_num: 0,
            offset_y_num: 0,
            offset_den: 1,
            scale_num: 1,
            scale_den: 1,
        }
    } else {
        Placement {
            offset_x_num: (2 * i - (n - 1)) as i64,
            offset_y_num: 0,
            offset_den: (n - 1) as u64,
            scale_num: 1,
            scale_den: n as u64,
        }
    }
}

/// Computes the static placement of every instance. The order of the input
/// paths determines left-to-right order here: slot `i` is the `i`-th video.
pub fn layout(n: usize) -> (r: Vec<Placement>)
    requires
        n <= MAX_INSTANCES,
    ensures
        r@.len() == n,
        forall|i: int| 0 <= i < n ==> #[trigger] r@[i] == placement_at(n as int, i),
        forall|i: int| 0 <= i < n ==> placement_wf(#[trigger] r@[i]),
{
    let mut r: Vec<Placement> = Vec::new();
    if n == 1 {
        r.push(Placement {
            offset_x_num: 0,
            offset_y_num: 0,
            offset_den: 1,
            scale_num: 1,
            scale_den: 1,
        });
        return r;
    }
    let mut i: usize = 0;
    while i < n
        invariant
            n <= MAX_INSTANCES,
            n != 1,
            i <= n,
            r@.len() == i,
            forall|j: int| 0 <= j < i ==> r@[j] == placement_at(n as int, j),
            forall|j: int| 0 <= j < i ==> placement_wf(#[trigger] r@[j]),
        decreases n - i,
    {
        let num: i64 = 2 * (i as i64) - (n as i64 - 1);
        r.push(Placement {
            offset_x_num: num,
            offset_y_num: 0,
            offset_den: (n - 1) as u64,
            scale_num: 1,
            scale_den: n as u64,
        });
        i = i + 1;
    }
    r
}

/// Law: for `n >= 2` the row is anchored and uniform — the leftmost offset
/// is exactly -1, the rightmost exactly +1, consecutive offsets differ by
/// exactly 2/(n-1) over a common denominator, every y offset is 0, and every
/// scale is exactly 1/n. (For `n == 1`, `placement_at` gives offset 0 and
/// scale 1 by definition.)
pub proof fn lemma_layout_row(n: int)
    requires
        2 <= n <= MAX_INSTANCES,
    ensures
        placement_at(n, 0).offset_x_num == -1 * placement_at(n, 0).offset_den,
        placement_at(n, n - 1).offset_x_num == 1 * placement_at(n, n - 1).offset_den,
        forall|i: int|
            0 <= i < n - 1 ==> #[trigger] placement_at(n, i + 1).offset_x_num
                == placement_at(n, i).offset_x_num + 2,
        forall|i: int| 0 <= i < n ==> #[trigger] placement_at(n, i).offset_den == n - 1,
        forall|i: int| 0 <= i < n ==> #[trigger] placement_at(n, i).offset_y_num == 0,
        forall|i: int|
            0 <= i < n ==> #[trigger] placement_at(n, i).scale_num * n
                == placement_at(n, i).scale_den,
{
}

/// Law: the row's rects never overlap. Under the composed semantics the quad
/// for instance `i` spans `offset ± scale` in x; written over the positive
/// common denominator `n*(n-1)`, the right edge of instance `i` ends at or
/// before the left edge of any later instance `j` — the spacing `2/(n-1)` is
/// at least the rect width `2/n` — so the single render pass draws disjoint
/// rects and the draw order is irrelevant.
pub proof fn lemma_row_non_overlap(n: int, i: int, j: int)
    requires
        2 <= n <= MAX_INSTANCES,
        0 <= i < j < n,
    ensures
        placement_at(n, i).offset_x_num * n + (n - 1) <= placement_at(n, j).offset_x_num * n - (n
            - 1),
{
    assert(placement_at(n, i).offset_x_num == 2 * i - (n - 1));
    assert(placement_at(n, j).offset_x_num == 2 * j - (n - 1));
    assert((2 * i - (n - 1)) * n + (n - 1) <= (2 * j - (n - 1)) * n - (n - 1))
        by (nonlinear_arith)
        requires
            0 <= i < j < n,
            2 <= n,
    ;
}

/// Aspect-ratio correction derived from the current window dimensions: the y
/// axis is stretched by `width / height`, kept as the exact rational.
#[derive(Clone, Copy, PartialEq, Eq, Structural, Debug)]
pub struct AspectCorrection {
    pub y_stretch_num: u32,
    pub y_stretch_den: u32,
}

/// Builds the aspect-ratio correction for a window of the given physical
/// size. Recomputed every tick from the current size; placements are never
/// consulted.
pub fn aspect_correction(width: u32, height: u32) -> (r: AspectCorrection)
    requires
        width >= 1,
        height >= 1,
    ensures
        r.y_stretch_num == width,
        r.y_stretch_den == height,
{
    AspectCorrection { y_stretch_num: width, y_stretch_den: height }
}

/// One instance's transform for the current tick: its static placement with
/// the current aspect correction folded in. Kept factored; the semantic
/// matrix entries are given by the `composed_*` functions below.
#[derive(Clone, Copy, PartialEq, Eq, Structural, Debug)]
pub struct ComposedTransform {
    pub placement: Placement,
    pub aspect: AspectCorrection,
}

/// Semantic x scale of a composed transform, as the rational
/// `composed_x_scale_num / composed_x_scale_den`: the placement scale alone.
pub open spec fn composed_x_scale_num(t: ComposedTransform) -> int {
    t.placement.scale_num as int
}

pub open spec fn composed_x_scale_den(t: ComposedTransform) -> int {
    t.placement.scale_den as int
}

/// Semantic y scale: the placement scale times the aspect stretch
/// `width / height`.
pub open spec fn composed_y_scale_num(t: ComposedTransform) -> int {
    t.placement.scale_num * t.aspect.y_stretch_num
}

pub open spec fn composed_y_scale_den(t: ComposedTransform) -> int {
    t.placement.scale_den * t.aspect.y_stretch_den
}

/// Semantic x translation: the placement offset itself. Translation is
/// applied after scaling, so the quad is shrunk around its center first and
/// its center then lands exactly on the placement offset — the row stays
/// anchored at -1 and +1 and neighboring rects never overlap.
pub open spec fn composed_x_offset_num(t: ComposedTransform) -> int {
    t.placement.offset_x_num as int
}

pub open spec fn composed_x_offset_den(t: ComposedTransform) -> int {
    t.placement.offset_den as int
}

/// Semantic y translation: the placement's y offset, stretched by the aspect
/// correction along with the rest of the y axis.
pub open spec fn composed_y_offset_num(t: ComposedTransform) -> int {
    t.placement.offset_y_num * t.aspect.y_stretch_num
}

pub open spec fn composed_y_offset_den(t: ComposedTransform) -> int {
    t.placement.offset_den * t.aspect.y_stretch_den
}

/// Folds the current aspect correction into a static placement, yielding the
/// transform the draw call uses this tick: the quad is scaled by the
/// placement scale, translated to the placement offset (translation after
/// scaling), and the y axis is stretched by the aspect ratio.
pub fn compose(p: &Placement, a: &AspectCorrection) -> (r: ComposedTransform)
    ensures
        r.placement == *p,
        r.aspect == *a,
        composed_x_scale_num(r) == p.scale_num && composed_x_scale_den(r) == p.scale_den,
        composed_y_scale_num(r) == p.scale_num * a.y_stretch_num && composed_y_scale_den(r)
            == p.scale_den * a.y_stretch_den,
        composed_x_offset_num(r) == p.offset_x_num && composed_x_offset_den(r) == p.offset_den,
        composed_y_offset_num(r) == p.offset_y_num * a.y_stretch_num && composed_y_offset_den(r)
            == p.offset_den * a.y_stretch_den,
{
    ComposedTransform { placement: *p, aspect: *a }
}

/// One corner of the shared unit quad: position in normalized device
/// coordinates (each exactly -1 or 1) and its texture coordinate (0 or 1).
#[derive(Clone, Copy, PartialEq, Eq, Structural, Debug)]
pub struct QuadVertex {
    pub x: i8,
    pub y: i8,
    pub u: u8,
    pub v: u8,
}

/// The four corners of the unit quad every instance draws, in order: top
/// left, top right, bottom right, bottom left, with texture coordinates
/// mapping the image upright. Static and shared — built once at startup.
pub fn unit_quad_vertices() -> (r: Vec<QuadVertex>)
    ensures
        r@.len() == 4,
        r@[0] == (QuadVertex { x: -1i8, y: 1i8, u: 0, v: 0 }),
        r@[1] == (QuadVertex { x: 1i8, y: 1i8, u: 1, v: 0 }),
        r@[2] == (QuadVertex { x: 1i8, y: -1i8, u: 1, v: 1 }),
        r@[3] == (QuadVertex { x: -1i8, y: -1i8, u: 0, v: 1 }),
{
    let mut r: Vec<QuadVertex> = Vec::new();
    r.push(QuadVertex { x: -1, y: 1, u: 0, v: 0 });
    r.push(QuadVertex { x: 1, y: 1, u: 1, v: 0 });
    r.push(QuadVertex { x: 1, y: -1, u: 1, v: 1 });
    r.push(QuadVertex { x: -1, y: -1, u: 0, v: 1 });
    r
}

/// The index list drawing the unit quad as two triangles; every index
/// addresses one of the four vertices.
pub fn unit_quad_indices() -> (r: Vec<u16>)
    ensures
        r@ == seq![2u16, 1u16, 0u16, 3u16, 2u16, 0u16],
        forall|k: int| 0 <= k < r@.len() ==> #[trigger] r@[k] < 4,
{
    let mut r: Vec<u16> = Vec::new();
    r.push(2);
    r.push(1);
    r.push(0);
    r.push(3);
    r.push(2);
    r.push(0);
    proof {
        assert(r@ =~= seq![2u16, 1u16, 0u16, 3u16, 2u16, 0u16]);
    }
    r
}

} // verus!
