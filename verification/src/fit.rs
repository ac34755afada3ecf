//! Fit a render size to the terminal's character grid.
//!
//! Two candidates are formed from the image's aspect ratio: one fills the
//! terminal's rows, the other its columns. The candidate that strictly
//! dominates the other in both dimensions is preferred (ties go to the
//! column-filling one), a candidate that overflows the grid is swapped
//! for the other, and the survivor is doubled in both dimensions when its
//! doubled width still fits the columns while its undoubled height fits
//! the rows.

use vstd::prelude::*;

use vstd::arithmetic::div_mod::{lemma_fundamental_div_mod, lemma_mod_bound};
use vstd::arithmetic::mul::lemma_mul_upper_bound;

use crate::PrintSize;
use crate::RenderError;
use crate::Viewport;

verus! {

/// All four dimensions are nonzero; the fit algorithm divides by the
/// image's sides, and a zero-sized terminal has nothing to fill.
pub open spec fn view_positive(v: Viewport) -> bool {
    v.image_width >= 1 && v.image_height >= 1 && v.term_width >= 1 && v.term_height >= 1
}

/// Candidate that fills the terminal's rows: height is `term_height`,
/// width follows the image's aspect ratio, truncated.
pub open spec fn candidate_a(v: Viewport) -> (int, int) {
    (v.image_width as int * v.term_height as int / (v.image_height as int), v.term_height as int)
}

/// Candidate that fills the terminal's columns: width is `term_width`,
/// height follows the image's aspect ratio, truncated.
pub open spec fn candidate_b(v: Viewport) -> (int, int) {
    (v.term_width as int, v.image_height as int * v.term_width as int / (v.image_width as int))
}

/// Whether `candidate_a` strictly dominates `candidate_b` in both
/// dimensions; on a tie or partial dominance `candidate_b` counts as the
/// bigger one.
pub open spec fn a_dominates(v: Viewport) -> bool {
    candidate_a(v).0 > candidate_b(v).0 && candidate_a(v).1 > candidate_b(v).1
}

/// The candidate preferred for being bigger.
pub open spec fn bigger_candidate(v: Viewport) -> (int, int) {
    if a_dominates(v) {
        candidate_a(v)
    } else {
        candidate_b(v)
    }
}

/// The candidate passed over by `bigger_candidate`.
pub open spec fn smaller_candidate(v: Viewport) -> (int, int) {
    if a_dominates(v) {
        candidate_b(v)
    } else {
        candidate_a(v)
    }
}

/// The bigger candidate, unless it overflows the grid in either
/// dimension; then the smaller one.
pub open spec fn fitted_candidate(v: Viewport) -> (int, int) {
    if bigger_candidate(v).0 > v.term_width || bigger_candidate(v).1 > v.term_height {
        smaller_candidate(v)
    } else {
        bigger_candidate(v)
    }
}

/// Whether the 2x upscale fires: the doubled width still fits the
/// columns and the undoubled height fits the rows. The height is
/// deliberately compared undoubled.
pub open spec fn upscale_applies(v: Viewport) -> bool {
    fitted_candidate(v).0 * 2 <= v.term_width && fitted_candidate(v).1 <= v.term_height
}

/// The final render size: the fitted candidate, doubled in both
/// dimensions when the upscale applies.
pub open spec fn target_size(v: Viewport) -> (int, int) {
    if upscale_applies(v) {
        (fitted_candidate(v).0 * 2, fitted_candidate(v).1 * 2)
    } else {
        fitted_candidate(v)
    }
}

/// The two candidates cannot both overflow the terminal: a row-filling
/// candidate wider than the columns means the image is wider in
/// proportion than the terminal, which caps the column-filling
/// candidate's height at the rows.
proof fn lemma_one_candidate_fits(v: Viewport)
    requires
        view_positive(v),
    ensures
        !(candidate_a(v).0 > v.term_width && candidate_b(v).1 > v.term_height),
{
    let iw = v.image_width as int;
    let ih = v.image_height as int;
    let tw = v.term_width as int;
    let th = v.term_height as int;
    let wa = candidate_a(v).0;
    let hb = candidate_b(v).1;
    if wa > tw && hb > th {
        lemma_fundamental_div_mod(iw * th, ih);
        lemma_mod_bound(iw * th, ih);
        lemma_fundamental_div_mod(ih * tw, iw);
        lemma_mod_bound(ih * tw, iw);
        let ra = (iw * th) % ih;
        let rb = (ih * tw) % iw;
        assert(false) by (nonlinear_arith)
            requires
                iw * th == ih * wa + ra,
                ih * tw == iw * hb + rb,
                0 <= ra,
                0 <= rb,
                wa >= tw + 1,
                hb >= th + 1,
                1 <= iw,
                1 <= ih,
                1 <= tw,
                1 <= th,
        ;
    }
}

/// Law: the candidate that survives the clamp lies within the terminal
/// grid in both dimensions.
pub proof fn lemma_fitted_within_terminal(v: Viewport)
    requires
        view_positive(v),
    ensures
        fitted_candidate(v).0 <= v.term_width,
        fitted_candidate(v).1 <= v.term_height,
{
    lemma_one_candidate_fits(v);
}

/// Law: the render width never exceeds the terminal's columns, upscale
/// or not.
pub proof fn lemma_target_width_within_terminal(v: Viewport)
    requires
        view_positive(v),
    ensures
        target_size(v).0 <= v.term_width,
{
    lemma_fitted_within_terminal(v);
}

/// Law: the render size fits the terminal grid. The upscale doubles the
/// height while checking it undoubled, so the height bound is owed only
/// when the doubled height still fits the rows; inputs where the
/// upscale pushes the height past the rows are excluded.
pub proof fn lemma_target_within_terminal(v: Viewport)
    requires
        view_positive(v),
        upscale_applies(v) ==> fitted_candidate(v).1 * 2 <= v.term_height,
    ensures
        target_size(v).0 <= v.term_width,
        target_size(v).1 <= v.term_height,
{
    lemma_fitted_within_terminal(v);
}

/// The fit algorithm over machine integers, wide enough that no
/// intermediate value overflows.
fn compute_target(view: &Viewport) -> (t: (u64, u64))
    requires
        view_positive(*view),
    ensures
        t.0 == target_size(*view).0,
        t.1 == target_size(*view).1,
{
    let iw = view.image_width as u64;
    let ih = view.image_height as u64;
    let tw = view.term_width as u64;
    let th = view.term_height as u64;
    proof {
        lemma_mul_upper_bound(iw as int, u32::MAX as int, th as int, u32::MAX as int);
        lemma_mul_upper_bound(ih as int, u32::MAX as int, tw as int, u32::MAX as int);
    }
    let wa = iw * th / ih;
    let hb = ih * tw / iw;
    let (bw, bh, sw, sh) = if wa > tw && th > hb {
        (wa, th, tw, hb)
    } else {
        (tw, hb, wa, th)
    };
    let (fw, fh) = if bw > tw || bh > th {
        (sw, sh)
    } else {
        (bw, bh)
    };
    proof {
        lemma_fitted_within_terminal(*view);
    }
    if fw * 2 <= tw && fh <= th {
        (fw * 2, fh * 2)
    } else {
        (fw, fh)
    }
}

/// Compute the render size for `view`: the largest candidate that fits
/// the terminal, doubled when the doubled width still fits.
pub fn size(view: Viewport) -> (ps: PrintSize)
    requires
        view_positive(view),
        target_size(view).1 <= u32::MAX,
    ensures
        ps.width == target_size(view).0,
        ps.height == target_size(view).1,
{
    proof {
        lemma_target_width_within_terminal(view);
    }
    let (w, h) = compute_target(&view);
    PrintSize { width: w as u32, height: h as u32 }
}

/// Guarded entry to the fit algorithm: a zero dimension — or a doubled
/// height past `u32::MAX` — is rejected as `InvalidDimensions` instead
/// of reaching a division by zero.
pub fn try_size(view: Viewport) -> (r: Result<PrintSize, RenderError>)
    ensures
        !view_positive(view) ==> r == Result::<PrintSize, RenderError>::Err(
            RenderError::InvalidDimensions,
        ),
        view_positive(view) && target_size(view).1 > u32::MAX ==> r == Result::<
            PrintSize,
            RenderError,
        >::Err(RenderError::InvalidDimensions),
        view_positive(view) && target_size(view).1 <= u32::MAX ==> (r matches Ok(ps)
            && ps.width == target_size(view).0 && ps.height == target_size(view).1),
{
    if view.image_width == 0 || view.image_height == 0 || view.term_width == 0
        || view.term_height == 0 {
        return Err(RenderError::InvalidDimensions);
    }
    let (w, h) = compute_target(&view);
    if h > u32::MAX as u64 {
        return Err(RenderError::InvalidDimensions);
    }
    proof {
        lemma_target_width_within_terminal(view);
    }
    Ok(PrintSize { width: w as u32, height: h as u32 })
}

} // verus!

