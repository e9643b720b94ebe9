//! Integer geometry for the paint path: logical-point rectangles, the
//! pixel-density scale, and the computation of clamped scissor rectangles
//! in physical pixels.

use vstd::arithmetic::div_mod::lemma_div_is_ordered;
use vstd::arithmetic::div_mod::lemma_div_multiples_vanish;
use vstd::arithmetic::div_mod::lemma_div_pos_is_pos;
use vstd::prelude::*;

verus! {

/// Pixel-density scale: `num / den` physical pixels per logical point.
///
/// The scale is kept as an exact rational so that scissor rectangles can be
/// computed and reasoned about in integer arithmetic.
#[derive(Clone, Copy, PartialEq, Eq, Structural, Debug)]
pub struct Scale {
    pub num: u32,
    pub den: u32,
}

impl Scale {
    /// A scale is meaningful only when both sides are nonzero.
    pub open spec fn wf(self) -> bool {
        self.num >= 1 && self.den >= 1
    }
}

/// Axis-aligned rectangle in logical points: `min` is the top-left corner,
/// `max` the bottom-right one, with y growing downward as in window
/// coordinates. Coordinates may be negative (partially off-screen content).
#[derive(Clone, Copy, PartialEq, Eq, Structural, Debug)]
pub struct Rect {
    pub min_x: i64,
    pub min_y: i64,
    pub max_x: i64,
    pub max_y: i64,
}

/// Scissor rectangle in physical pixels, in the GL convention: the origin is
/// the bottom-left corner of the render target.
#[derive(Clone, Copy, PartialEq, Eq, Structural, Debug)]
pub struct Scissor {
    pub left: u32,
    pub bottom: u32,
    pub width: u32,
    pub height: u32,
}

/// `v` logical points at `num / den` pixels per point, rounded half-up and
/// clamped to the pixel range `[0, limit]`.
pub open spec fn scale_clamp_spec(v: int, num: int, den: int, limit: int) -> int {
    if v * num <= 0 {
        0
    } else if (2 * (v * num) + den) / (2 * den) > limit {
        limit
    } else {
        (2 * (v * num) + den) / (2 * den)
    }
}

/// The clamped scaled coordinate always lies in `[0, limit]`.
pub proof fn lemma_scale_clamp_in_range(v: int, num: int, den: int, limit: int)
    requires
        num >= 1,
        den >= 1,
        limit >= 0,
    ensures
        0 <= scale_clamp_spec(v, num, den, limit) <= limit,
{
    if v * num > 0 {
        lemma_div_pos_is_pos(2 * (v * num) + den, 2 * den);
    }
}

/// A coordinate at or beyond `limit * den / num` points saturates to `limit`.
pub proof fn lemma_scale_clamp_saturates(v: int, num: int, den: int, limit: int)
    requires
        num >= 1,
        den >= 1,
        limit >= 1,
        v * num >= limit * den,
    ensures
        scale_clamp_spec(v, num, den, limit) == limit,
{
    assert(limit * den >= 1) by (nonlinear_arith)
        requires
            limit >= 1,
            den >= 1,
    ;
    assert(2 * (v * num) + den >= (2 * den) * limit) by (nonlinear_arith)
        requires
            v * num >= limit * den,
            den >= 1,
    ;
    lemma_div_is_ordered((2 * den) * limit, 2 * (v * num) + den, 2 * den);
    lemma_div_multiples_vanish(limit, 2 * den);
    lemma_scale_clamp_in_range(v, num, den, limit);
}

/// Executable form of [`scale_clamp_spec`].
pub fn scale_clamp(v: i64, scale: Scale, limit: u32) -> (r: u32)
    requires
        scale.wf(),
    ensures
        r as int == scale_clamp_spec(v as int, scale.num as int, scale.den as int, limit as int),
{
    proof {
        if v <= 0 {
            assert(v as int * scale.num as int <= 0) by (nonlinear_arith)
                requires
                    v <= 0,
                    scale.num >= 1,
            ;
        } else {
            assert(v as int * scale.num as int >= 1) by (nonlinear_arith)
                requires
                    v >= 1,
                    scale.num >= 1,
            ;
            assert(v as int * scale.num as int <= (i64::MAX as int) * (u32::MAX as int))
                by (nonlinear_arith)
                requires
                    1 <= v as int <= i64::MAX as int,
                    1 <= scale.num as int <= u32::MAX as int,
            ;
        }
    }
    if v <= 0 {
        0
    } else {
        let x: u128 = (v as u128) * (scale.num as u128);
        let den: u128 = scale.den as u128;
        let r: u128 = (2 * x + den) / (2 * den);
        if r > limit as u128 {
            limit
        } else {
            r as u32
        }
    }
}

/// The scissor rectangle that a clip rectangle in points induces on a
/// `width x height`-pixel target at the given scale, or `None` when the
/// clamped intersection is empty and the draw is to be skipped.
pub open spec fn scissor_spec(clip: Rect, num: int, den: int, width: int, height: int) -> Option<
    Scissor,
> {
    let min_x = scale_clamp_spec(clip.min_x as int, num, den, width);
    let max_x = scale_clamp_spec(clip.max_x as int, num, den, width);
    let min_y = scale_clamp_spec(clip.min_y as int, num, den, height);
    let max_y = scale_clamp_spec(clip.max_y as int, num, den, height);
    if min_x >= max_x || min_y >= max_y {
        None
    } else {
        Some(
            Scissor {
                left: min_x as u32,
                bottom: (height - max_y) as u32,
                width: (max_x - min_x) as u32,
                height: (max_y - min_y) as u32,
            },
        )
    }
}

/// Executable form of [`scissor_spec`].
pub fn scissor_for(clip: &Rect, scale: Scale, width: u32, height: u32) -> (r: Option<Scissor>)
    requires
        scale.wf(),
    ensures
        r == scissor_spec(*clip, scale.num as int, scale.den as int, width as int, height as int),
{
    proof {
        lemma_scale_clamp_in_range(
            clip.min_x as int,
            scale.num as int,
            scale.den as int,
            width as int,
        );
        lemma_scale_clamp_in_range(
            clip.max_x as int,
            scale.num as int,
            scale.den as int,
            width as int,
        );
        lemma_scale_clamp_in_range(
            clip.min_y as int,
            scale.num as int,
            scale.den as int,
            height as int,
        );
        lemma_scale_clamp_in_range(
            clip.max_y as int,
            scale.num as int,
            scale.den as int,
            height as int,
        );
    }
    let min_x = scale_clamp(clip.min_x, scale, width);
    let max_x = scale_clamp(clip.max_x, scale, width);
    let min_y = scale_clamp(clip.min_y, scale, height);
    let max_y = scale_clamp(clip.max_y, scale, height);
    if min_x >= max_x || min_y >= max_y {
        None
    } else {
        Some(
            Scissor {
                left: min_x,
                bottom: height - max_y,
                width: max_x - min_x,
                height: max_y - min_y,
            },
        )
    }
}

/// A clip rectangle that lies entirely outside the target induces no scissor
/// rectangle at all: the draw for it is skipped.
pub proof fn lemma_offscreen_clip_has_no_scissor(
    clip: Rect,
    num: int,
    den: int,
    width: int,
    height: int,
)
    requires
        num >= 1,
        den >= 1,
        width >= 1,
        height >= 1,
        clip.max_x <= 0 || clip.max_y <= 0 || clip.min_x * num >= width * den || clip.min_y * num
            >= height * den,
    ensures
        scissor_spec(clip, num, den, width, height) is None,
{
    if clip.max_x <= 0 {
        assert(clip.max_x as int * num <= 0) by (nonlinear_arith)
            requires
                clip.max_x <= 0,
                num >= 1,
        ;
        lemma_scale_clamp_in_range(clip.min_x as int, num, den, width);
    } else if clip.max_y <= 0 {
        assert(clip.max_y as int * num <= 0) by (nonlinear_arith)
            requires
                clip.max_y <= 0,
                num >= 1,
        ;
        lemma_scale_clamp_in_range(clip.min_y as int, num, den, height);
    } else if clip.min_x * num >= width * den {
        lemma_scale_clamp_saturates(clip.min_x as int, num, den, width);
        lemma_scale_clamp_in_range(clip.max_x as int, num, den, width);
    } else {
        lemma_scale_clamp_saturates(clip.min_y as int, num, den, height);
        lemma_scale_clamp_in_range(clip.max_y as int, num, den, height);
    }
}

} // verus!
