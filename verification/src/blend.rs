//! The exact arithmetic of the blend equations.
//!
//! The pipeline descriptions in [`crate::pipeline`] pick blend factors;
//! this module says what those factors compute and proves the laws the
//! transparency algorithm rests on. Intensities are modeled as exact
//! integers scaled by a unit `u` (an intensity of one is `u`), and every
//! division is written as a cross-multiplied equality, so all statements
//! are exact — the GPU's floating-point evaluation adds rounding on top
//! of them, nothing else.

use vstd::prelude::*;
use crate::pipeline::{
    additive_blend, alpha_blend_color, revealage_blend, BlendComponent, BlendFactor,
};

verus! {

/// The multiplier a blend factor stands for, scaled by the unit `u`: the
/// stored or output value is multiplied by `factor_scaled(..) / u`.
pub open spec fn factor_scaled(f: BlendFactor, src: int, src_alpha: int, u: int) -> int {
    match f {
        BlendFactor::Zero => 0,
        BlendFactor::One => u,
        BlendFactor::OneMinusSrc => u - src,
        BlendFactor::SrcAlpha => src_alpha,
        BlendFactor::OneMinusSrcAlpha => u - src_alpha,
    }
}

/// One application of a blend equation to a fragment output `src` (with
/// alpha `src_alpha`) and a stored value `dst`, scaled by `u`: the new
/// stored value is `blend_scaled(..) / u`.
pub open spec fn blend_scaled(
    comp: BlendComponent,
    src: int,
    src_alpha: int,
    dst: int,
    u: int,
) -> int {
    src * factor_scaled(comp.src_factor, src, src_alpha, u) + dst * factor_scaled(
        comp.dst_factor,
        src,
        src_alpha,
        u,
    )
}

/// The accumulation target's equation, with both factors `One`, adds the
/// fragment's weighted output to the stored sum and does nothing else.
pub proof fn lemma_accumulation_adds(src: int, src_alpha: int, dst: int, u: int)
    ensures
        blend_scaled(additive_blend(), src, src_alpha, dst, u) == (src + dst) * u,
{
    assert(src * u + dst * u == (src + dst) * u) by (nonlinear_arith);
}

/// The revealage target's equation, with factors `Zero` and
/// `OneMinusSrc`, multiplies the stored revealage by one minus the
/// fragment's output: `reveal' = reveal * (1 - src / u)`, here in the
/// cross-multiplied form `reveal' * u == reveal * (u - src)`.
pub proof fn lemma_revealage_attenuates(src: int, src_alpha: int, dst: int, u: int)
    ensures
        blend_scaled(revealage_blend(), src, src_alpha, dst, u) == dst * (u - src),
{
    assert(src * 0 + dst * (u - src) == dst * (u - src)) by (nonlinear_arith);
}

/// The transparent pass is order-independent by construction: for any two
/// fragments, both of its blend equations give the same stored value
/// whichever fragment comes first. The accumulated sum is symmetric in
/// the two outputs, and so is the doubly attenuated revealage
/// `reveal * (u - a) * (u - b)` (the two-fragment value at scale `u^2`).
pub proof fn lemma_transparent_pass_order_independent(a: int, b: int, dst: int, u: int)
    ensures
        (dst + a) + b == (dst + b) + a,
        dst * (u - a) * (u - b) == dst * (u - b) * (u - a),
{
    assert(dst * (u - a) * (u - b) == dst * (u - b) * (u - a)) by (nonlinear_arith);
}

/// A single transparent layer composites exactly as straight alpha
/// blending. With one fragment of color `c` and alpha `alpha`
/// accumulated, whatever its positive weight:
/// - the accumulated color over the accumulated alpha recovers `c` — the
///   weight cancels (`avg == c`);
/// - the revealage, cleared to full and attenuated once, leaves coverage
///   `alpha` (`u - reveal == alpha`);
/// - the composite blend equation then yields
///   `out = c * alpha + background * (1 - alpha)`, scaled by `u`.
pub proof fn lemma_single_layer_composite_is_alpha_blend(
    u: int,
    c: int,
    alpha: int,
    background: int,
    accum_rgb: int,
    accum_alpha: int,
    avg: int,
    reveal: int,
)
    requires
        u > 0,
        // One fragment was accumulated: its color term is its alpha term
        // times `c / u`, whatever weight the two shared.
        accum_alpha != 0,
        accum_rgb * u == c * accum_alpha,
        // The composite shader's average: `avg = accum_rgb / accum_alpha`.
        avg * accum_alpha == accum_rgb * u,
        // The revealage after the clear to full and one attenuation.
        reveal * u == u * (u - alpha),
    ensures
        avg == c,
        u - reveal == alpha,
        blend_scaled(alpha_blend_color(), avg, u - reveal, background, u) == c * alpha
            + background * (u - alpha),
{
    assert(avg == c) by (nonlinear_arith)
        requires
            accum_alpha != 0,
            accum_rgb * u == c * accum_alpha,
            avg * accum_alpha == accum_rgb * u,
    ;
    assert(reveal == u - alpha) by (nonlinear_arith)
        requires
            u > 0,
            reveal * u == u * (u - alpha),
    ;
}

} // verus!
