//! Integer geometry of the aspect-ratio reconciliation: multipliers, overflows,
//! orientation, canvas size and centring.

use vstd::prelude::*;
use vstd::arithmetic::div_mod::{lemma_fundamental_div_mod, lemma_fundamental_div_mod_converse};
use vstd::arithmetic::mul::{lemma_mul_inequality, lemma_mul_is_commutative};

verus! {

/// Which axis of an image is in excess of the target ratio.
#[derive(Copy, Clone, Debug, PartialEq, Eq, Structural)]
pub enum Orientation {
    /// The width multiplier exceeds the height multiplier.
    Landscape,
    /// The height multiplier is at least the width multiplier. Equal
    /// multipliers count as portrait: a deliberate tie-break.
    Portrait,
}

/// An image of this size matches the ratio exactly: both sides are whole
/// multiples of their ratio component, by the same factor.
pub open spec fn is_conformant(width: int, height: int, ratio: (int, int)) -> bool {
    &&& width % ratio.0 == 0
    &&& height % ratio.1 == 0
    &&& width / ratio.0 == height / ratio.1
}

/// The orientation that a pair of multipliers stands for.
pub open spec fn orientation_of(width_multiplier: int, height_multiplier: int) -> Orientation {
    if width_multiplier > height_multiplier {
        Orientation::Landscape
    } else {
        Orientation::Portrait
    }
}

/// The length that is left of a side once its overflow is trimmed.
pub open spec fn trimmed_length(length: int, component: int) -> int {
    length - length % component
}

/// The multiplier that sizes the canvas: the larger of the two.
pub open spec fn canvas_multiplier(multipliers: (int, int), orientation: Orientation) -> int {
    match orientation {
        Orientation::Landscape => multipliers.0,
        Orientation::Portrait => multipliers.1,
    }
}

/// Width and height of the canvas: the ratio scaled by the canvas multiplier.
pub open spec fn canvas_dimensions(
    ratio: (int, int),
    multipliers: (int, int),
    orientation: Orientation,
) -> (int, int) {
    (
        ratio.0 * canvas_multiplier(multipliers, orientation),
        ratio.1 * canvas_multiplier(multipliers, orientation),
    )
}

/// Where an inner length starts when centred in an outer one; zero when it
/// does not fit.
pub open spec fn centre_offset(outer: int, inner: int) -> int {
    if outer >= inner {
        (outer - inner) / 2
    } else {
        0
    }
}

/// Quotient and remainder of `base` by `modulo`.
pub fn div(base: u32, modulo: u32) -> (res: (u32, u32))
    requires
        modulo > 0,
    ensures
        res.0 == base / modulo,
        res.1 == base % modulo,
        res.0 * modulo + res.1 == base,
        res.1 < modulo,
{
    proof {
        lemma_fundamental_div_mod(base as int, modulo as int);
        lemma_mul_is_commutative(modulo as int, (base / modulo) as int);
    }
    (base / modulo, base % modulo)
}

/// Thickness of the border strip that is sampled along an axis of `length`
/// pixels: five percent of the axis, rounded down.
pub fn calculate_edge_length(length: u32) -> (res: u32)
    ensures
        res == length / 20,
{
    length / 20
}

/// How far an image's sides are from whole multiples of a target ratio.
#[derive(Copy, Clone, Debug, PartialEq, Eq, Structural)]
pub struct Reconciliation {
    pub width_multiplier: u32,
    pub width_overflow: u32,
    pub height_multiplier: u32,
    pub height_overflow: u32,
}

impl Reconciliation {
    /// The reconciliation of a `width` by `height` image with `ratio`.
    pub open spec fn of(width: u32, height: u32, ratio: (u32, u32)) -> Reconciliation {
        Reconciliation {
            width_multiplier: (width / ratio.0) as u32,
            width_overflow: (width % ratio.0) as u32,
            height_multiplier: (height / ratio.1) as u32,
            height_overflow: (height % ratio.1) as u32,
        }
    }

    /// Nothing overflows and the multipliers agree.
    pub open spec fn exact(self) -> bool {
        &&& self.width_overflow == 0
        &&& self.height_overflow == 0
        &&& self.width_multiplier == self.height_multiplier
    }

    /// Whether the image already matches the ratio, so that nothing is to do.
    pub fn is_exact(&self) -> (res: bool)
        ensures
            res == self.exact(),
    {
        self.width_overflow == 0 && self.height_overflow == 0 && self.width_multiplier
            == self.height_multiplier
    }

    /// Landscape when the width multiplier is the larger, else portrait.
    pub fn orientation(&self) -> (res: Orientation)
        ensures
            res == orientation_of(self.width_multiplier as int, self.height_multiplier as int),
    {
        if self.width_multiplier > self.height_multiplier {
            Orientation::Landscape
        } else {
            Orientation::Portrait
        }
    }
}

/// Divides each side of an image by its component of the target ratio.
pub fn reconcile(width: u32, height: u32, aspect_ratio: (u32, u32)) -> (res: Reconciliation)
    requires
        aspect_ratio.0 > 0,
        aspect_ratio.1 > 0,
    ensures
        res == Reconciliation::of(width, height, aspect_ratio),
        res.exact() <==> is_conformant(
            width as int,
            height as int,
            (aspect_ratio.0 as int, aspect_ratio.1 as int),
        ),
        res.width_multiplier * aspect_ratio.0 + res.width_overflow == width,
        res.height_multiplier * aspect_ratio.1 + res.height_overflow == height,
{
    let (width_multiplier, width_overflow) = div(width, aspect_ratio.0);
    let (height_multiplier, height_overflow) = div(height, aspect_ratio.1);
    Reconciliation { width_multiplier, width_overflow, height_multiplier, height_overflow }
}

/// The canvas for a ratio and a pair of multipliers: the ratio scaled by the
/// width multiplier for a landscape image, by the height multiplier for a
/// portrait one. Both products must fit `u32`.
pub fn calculate_canvas_dimensions(
    aspect_ratio: (u32, u32),
    multipliers: (u32, u32),
    orientation: Orientation,
) -> (res: (u32, u32))
    requires
        canvas_dimensions(
            (aspect_ratio.0 as int, aspect_ratio.1 as int),
            (multipliers.0 as int, multipliers.1 as int),
            orientation,
        ).0 <= u32::MAX,
        canvas_dimensions(
            (aspect_ratio.0 as int, aspect_ratio.1 as int),
            (multipliers.0 as int, multipliers.1 as int),
            orientation,
        ).1 <= u32::MAX,
    ensures
        (res.0 as int, res.1 as int) == canvas_dimensions(
            (aspect_ratio.0 as int, aspect_ratio.1 as int),
            (multipliers.0 as int, multipliers.1 as int),
            orientation,
        ),
        res.0 * aspect_ratio.1 == res.1 * aspect_ratio.0,
{
    let (aspect_width, aspect_height) = aspect_ratio;
    let (width_multiplier, height_multiplier) = multipliers;
    proof {
        lemma_canvas_keeps_ratio(
            (aspect_ratio.0 as int, aspect_ratio.1 as int),
            (multipliers.0 as int, multipliers.1 as int),
            orientation,
        );
    }
    match orientation {
        Orientation::Landscape => (
            aspect_width * width_multiplier,
            aspect_height * width_multiplier,
        ),
        Orientation::Portrait => (
            aspect_width * height_multiplier,
            aspect_height * height_multiplier,
        ),
    }
}

/// The canvas as `calculate_canvas_dimensions` gives it, or `None` when one of
/// its sides does not fit `u32`.
pub fn checked_canvas_dimensions(
    aspect_ratio: (u32, u32),
    multipliers: (u32, u32),
    orientation: Orientation,
) -> (res: Option<(u32, u32)>)
    ensures
        res.is_some() <==> {
            &&& canvas_dimensions(
                (aspect_ratio.0 as int, aspect_ratio.1 as int),
                (multipliers.0 as int, multipliers.1 as int),
                orientation,
            ).0 <= u32::MAX
            &&& canvas_dimensions(
                (aspect_ratio.0 as int, aspect_ratio.1 as int),
                (multipliers.0 as int, multipliers.1 as int),
                orientation,
            ).1 <= u32::MAX
        },
        res matches Some(canvas) ==> (canvas.0 as int, canvas.1 as int) == canvas_dimensions(
            (aspect_ratio.0 as int, aspect_ratio.1 as int),
            (multipliers.0 as int, multipliers.1 as int),
            orientation,
        ),
{
    let multiplier: u32 = match orientation {
        Orientation::Landscape => multipliers.0,
        Orientation::Portrait => multipliers.1,
    };
    if aspect_ratio.0.checked_mul(multiplier).is_some() && aspect_ratio.1.checked_mul(
        multiplier,
    ).is_some() {
        Some(calculate_canvas_dimensions(aspect_ratio, multipliers, orientation))
    } else {
        None
    }
}

/// The offset that centres `inner` pixels within `outer`, rounded down, and
/// zero when `inner` is the larger.
pub fn centre(outer: u32, inner: u32) -> (res: u32)
    ensures
        res == centre_offset(outer as int, inner as int),
        outer >= inner ==> res + inner <= outer,
{
    outer.saturating_sub(inner) / 2
}

/// An image whose sides are in the exact proportion of the ratio, each a whole
/// multiple of its component by the same factor, is conformant; and a
/// conformant image has its sides in the exact proportion of the ratio.
pub proof fn lemma_exact_proportion(width: int, height: int, ratio: (int, int))
    requires
        0 <= width,
        0 <= height,
        0 < ratio.0,
        0 < ratio.1,
    ensures
        width * ratio.1 == height * ratio.0 && width % ratio.0 == 0 && height % ratio.1 == 0
            && width / ratio.0 == height / ratio.1 ==> is_conformant(width, height, ratio),
        is_conformant(width, height, ratio) ==> width * ratio.1 == height * ratio.0,
{
    if is_conformant(width, height, ratio) {
        let m = width / ratio.0;
        lemma_fundamental_div_mod(width, ratio.0);
        lemma_fundamental_div_mod(height, ratio.1);
        assert(width == ratio.0 * m);
        assert(height == ratio.1 * m);
        assert((ratio.0 * m) * ratio.1 == (ratio.1 * m) * ratio.0) by (nonlinear_arith);
    }
}

/// A side with its overflow trimmed is a whole multiple of its ratio
/// component: the multiplier times the component.
pub proof fn lemma_trimmed_is_multiple(length: int, component: int)
    requires
        0 <= length,
        0 < component,
    ensures
        trimmed_length(length, component) % component == 0,
        trimmed_length(length, component) == component * (length / component),
        trimmed_length(length, component) / component == length / component,
        0 <= trimmed_length(length, component) <= length,
{
    lemma_fundamental_div_mod(length, component);
    let q = length / component;
    assert(0 <= q) by (nonlinear_arith)
        requires
            0 <= length,
            0 < component,
            q == length / component,
    ;
    lemma_mul_is_commutative(component, q);
    lemma_fundamental_div_mod_converse(component * q, component, q, 0);
}

/// The canvas has the exact proportion of the ratio.
pub proof fn lemma_canvas_keeps_ratio(
    ratio: (int, int),
    multipliers: (int, int),
    orientation: Orientation,
)
    ensures
        canvas_dimensions(ratio, multipliers, orientation).0 * ratio.1 == canvas_dimensions(
            ratio,
            multipliers,
            orientation,
        ).1 * ratio.0,
{
    let m = canvas_multiplier(multipliers, orientation);
    assert((ratio.0 * m) * ratio.1 == (ratio.1 * m) * ratio.0) by (nonlinear_arith);
}

/// The canvas of any image is itself conformant, so that running the pipeline
/// on its own output finds nothing to do.
pub proof fn lemma_canvas_is_conformant(
    ratio: (int, int),
    multipliers: (int, int),
    orientation: Orientation,
)
    requires
        0 < ratio.0,
        0 < ratio.1,
        0 <= multipliers.0,
        0 <= multipliers.1,
    ensures
        is_conformant(
            canvas_dimensions(ratio, multipliers, orientation).0,
            canvas_dimensions(ratio, multipliers, orientation).1,
            ratio,
        ),
{
    let m = canvas_multiplier(multipliers, orientation);
    lemma_mul_is_commutative(ratio.0, m);
    lemma_mul_is_commutative(ratio.1, m);
    lemma_fundamental_div_mod_converse(ratio.0 * m, ratio.0, m, 0);
    lemma_fundamental_div_mod_converse(ratio.1 * m, ratio.1, m, 0);
}

/// The trimmed image, centred, lies within the canvas on both axes: for every
/// image size and every ratio, nothing is clipped.
pub proof fn lemma_trimmed_fits_canvas(width: int, height: int, ratio: (int, int))
    requires
        0 <= width,
        0 <= height,
        0 < ratio.0,
        0 < ratio.1,
    ensures
        ({
            let multipliers = (width / ratio.0, height / ratio.1);
            let canvas = canvas_dimensions(
                ratio,
                multipliers,
                orientation_of(multipliers.0, multipliers.1),
            );
            let trimmed = (trimmed_length(width, ratio.0), trimmed_length(height, ratio.1));
            &&& trimmed.0 <= canvas.0
            &&& trimmed.1 <= canvas.1
            &&& 0 <= centre_offset(canvas.0, trimmed.0)
            &&& 0 <= centre_offset(canvas.1, trimmed.1)
            &&& centre_offset(canvas.0, trimmed.0) + trimmed.0 <= canvas.0
            &&& centre_offset(canvas.1, trimmed.1) + trimmed.1 <= canvas.1
        }),
{
    let multipliers = (width / ratio.0, height / ratio.1);
    let m = canvas_multiplier(multipliers, orientation_of(multipliers.0, multipliers.1));
    lemma_trimmed_is_multiple(width, ratio.0);
    lemma_trimmed_is_multiple(height, ratio.1);
    assert(multipliers.0 <= m && multipliers.1 <= m);
    lemma_mul_inequality(multipliers.0, m, ratio.0);
    lemma_mul_inequality(multipliers.1, m, ratio.1);
    lemma_mul_is_commutative(multipliers.0, ratio.0);
    lemma_mul_is_commutative(multipliers.1, ratio.1);
    lemma_mul_is_commutative(m, ratio.0);
    lemma_mul_is_commutative(m, ratio.1);
}

} // verus!
