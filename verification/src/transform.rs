//! The fit-and-center transform: a uniform scale that makes the content
//! touch the viewport on one axis, and a translation along one axis that
//! centers what is left.
//!
//! Sizes are whole numbers of units and every result is an exact fraction
//! of them: nothing is rounded here. The unit of the content is the
//! caller's choice; content whose size is not whole in its own unit is
//! given in a finer one, and the scale is then magnified to the unit the
//! content is drawn in.

use vstd::arithmetic::power2::{lemma2_to64, lemma_pow2_strictly_increases, pow2};
use vstd::prelude::*;

verus! {

/// A width and a height, in whole units.
#[derive(Clone, Copy, Debug, PartialEq, Eq, Structural)]
pub struct Size {
    pub width: u32,
    pub height: u32,
}

/// The mathematical fraction `num / den`.
pub struct Rational {
    pub num: int,
    pub den: int,
}

impl Rational {
    /// A fraction has a positive denominator and is not negative.
    pub open spec fn wf(self) -> bool {
        self.den > 0 && self.num >= 0
    }

    /// `self <= other`, for fractions with positive denominators.
    pub open spec fn le(self, other: Rational) -> bool {
        self.num * other.den <= other.num * self.den
    }

    /// `self == other` as numbers, whatever the representation.
    pub open spec fn same(self, other: Rational) -> bool {
        self.num * other.den == other.num * self.den
    }

    /// The smaller of two fractions; the first where they are equal.
    pub open spec fn min(self, other: Rational) -> Rational {
        if self.le(other) {
            self
        } else {
            other
        }
    }

    pub open spec fn zero() -> Rational {
        Rational { num: 0, den: 1 }
    }
}

/// A non-negative fraction held in machine integers.
#[derive(Clone, Copy, Debug, PartialEq, Eq, Structural)]
pub struct Ratio {
    pub num: u64,
    pub den: u64,
}

impl View for Ratio {
    type V = Rational;

    open spec fn view(&self) -> Rational {
        Rational { num: self.num as int, den: self.den as int }
    }
}

impl Ratio {
    /// The fraction `0 / 1`.
    pub fn zero() -> (r: Ratio)
        ensures
            r@ == Rational::zero(),
    {
        Ratio { num: 0, den: 1 }
    }

    /// Whether two fractions denote the same number. A zero denominator is
    /// compared like any other, by cross-multiplication.
    pub fn same_value(&self, other: &Ratio) -> (b: bool)
        ensures
            b == self@.same(other@),
    {
        let left: u128 = widening_product(self.num, other.den);
        let right: u128 = widening_product(other.num, self.den);
        left == right
    }
}

/// The product of two `u64` values, which always fits in a `u128`.
fn widening_product(a: u64, b: u64) -> (p: u128)
    ensures
        p == a * b,
{
    assert(a * b <= 0xffff_ffff_ffff_ffff * 0xffff_ffff_ffff_ffff) by (nonlinear_arith)
        requires
            0 <= a <= 0xffff_ffff_ffff_ffff,
            0 <= b <= 0xffff_ffff_ffff_ffff,
    ;
    (a as u128) * (b as u128)
}

/// A uniform scale followed by a translation by `(dx, dy)`.
#[derive(Clone, Copy, Debug, PartialEq, Eq, Structural)]
pub struct Transform {
    pub scale: Ratio,
    pub dx: Ratio,
    pub dy: Ratio,
}

/// The mathematical content of a [`Transform`].
pub struct Placement {
    pub scale: Rational,
    pub dx: Rational,
    pub dy: Rational,
}

impl View for Transform {
    type V = Placement;

    open spec fn view(&self) -> Placement {
        Placement { scale: self.scale@, dx: self.dx@, dy: self.dy@ }
    }
}

impl Placement {
    pub open spec fn wf(self) -> bool {
        self.scale.wf() && self.dx.wf() && self.dy.wf()
    }

    /// The same placement for content drawn in a unit that is `2^places`
    /// times as long: the scale is as many times as large, and the
    /// offsets, which are lengths in the viewport, stay.
    pub open spec fn magnified(self, places: nat) -> Placement {
        Placement {
            scale: Rational { num: self.scale.num * pow2(places), den: self.scale.den },
            ..self
        }
    }
}

impl Transform {
    /// The same transform for content drawn in a unit that is `2^places`
    /// times as long. The magnified scale must fit its numerator.
    pub fn magnified(self, places: u8) -> (t: Transform)
        requires
            places <= 31,
            self.scale.num <= u32::MAX,
        ensures
            t@ == self@.magnified(places as nat),
    {
        proof {
            lemma2_to64();
            if places < 31 {
                lemma_pow2_strictly_increases(places as nat, 31);
            }
            vstd::bits::lemma_u64_shl_is_mul(1, places as u64);
            let p = pow2(places as nat) as int;
            assert(self.scale.num * p <= 0xffff_ffff * 0x8000_0000) by (nonlinear_arith)
                requires
                    0 <= self.scale.num <= 0xffff_ffff,
                    0 <= p <= 0x8000_0000,
            ;
        }
        let factor: u64 = 1u64 << places;
        Transform {
            scale: Ratio { num: self.scale.num * factor, den: self.scale.den },
            dx: self.dx,
            dy: self.dy,
        }
    }
}

/// The largest uniform scale under which the content still fits the
/// viewport: `min(viewport.width / content.width, viewport.height / content.height)`.
pub open spec fn fit_scale(content: Size, viewport: Size) -> Rational {
    Rational { num: viewport.width as int, den: content.width as int }.min(
        Rational { num: viewport.height as int, den: content.height as int },
    )
}

/// Half of what a viewport extent exceeds a scaled content length by:
/// `|extent - length * scale| / 2`.
pub open spec fn half_gap(extent: int, length: int, scale: Rational) -> Rational {
    let slack = extent * scale.den - length * scale.num;
    Rational { num: if slack >= 0 { slack } else { -slack }, den: 2 * scale.den }
}

/// Where [`fit_and_center`] puts the content. Content that is narrower than
/// it is tall is moved along the horizontal axis, all other content along
/// the vertical axis.
pub open spec fn placement(content: Size, viewport: Size) -> Placement {
    let scale = fit_scale(content, viewport);
    if content.width < content.height {
        Placement {
            scale,
            dx: half_gap(viewport.width as int, content.width as int, scale),
            dy: Rational::zero(),
        }
    } else {
        Placement {
            scale,
            dx: Rational::zero(),
            dy: half_gap(viewport.height as int, content.height as int, scale),
        }
    }
}

/// The product of two `u32` values, which always fits in a `u64`.
fn area(a: u32, b: u32) -> (p: u64)
    ensures
        p == a * b,
{
    assert(a * b <= 0xffff_ffff * 0xffff_ffff) by (nonlinear_arith)
        requires
            0 <= a <= 0xffff_ffff,
            0 <= b <= 0xffff_ffff,
    ;
    (a as u64) * (b as u64)
}

/// Half of the distance between `extent * den` and `length * num`, over `den`.
fn centered_offset(extent: u32, length: u32, num: u32, den: u32) -> (r: Ratio)
    requires
        den > 0,
    ensures
        r@ == half_gap(extent as int, length as int, Rational { num: num as int, den: den as int }),
{
    let whole: u64 = area(extent, den);
    let used: u64 = area(length, num);
    let slack: u64 = if whole >= used {
        whole - used
    } else {
        used - whole
    };
    Ratio { num: slack, den: 2 * (den as u64) }
}

/// Computes the transform that scales `content` uniformly until it touches
/// `viewport` and centers it along one axis.
///
/// The content must have a positive width and height; the viewport may be
/// empty, in which case the scale is zero.
pub fn fit_and_center(content: Size, viewport: Size) -> (t: Transform)
    requires
        content.width > 0,
        content.height > 0,
    ensures
        t@ == placement(content, viewport),
        t@.wf(),
{
    let across: u64 = area(viewport.width, content.height);
    let along: u64 = area(viewport.height, content.width);
    let (num, den): (u32, u32) = if across <= along {
        (viewport.width, content.width)
    } else {
        (viewport.height, content.height)
    };
    let scale = Ratio { num: num as u64, den: den as u64 };
    if content.width < content.height {
        Transform { scale, dx: centered_offset(viewport.width, content.width, num, den), dy: Ratio::zero() }
    } else {
        Transform { scale, dx: Ratio::zero(), dy: centered_offset(viewport.height, content.height, num, den) }
    }
}

/// `2 * offset + length * scale == extent`: the scaled length, with the
/// offset on either side of it, spans the extent exactly.
pub open spec fn spans(offset: Rational, length: int, scale: Rational, extent: int) -> bool {
    2 * offset.num * scale.den + length * scale.num * offset.den == extent * scale.den
        * offset.den
}

/// The scaled content never sticks out of the viewport: on both axes
/// `length * scale <= extent`.
pub proof fn lemma_content_fits(content: Size, viewport: Size)
    requires
        content.width > 0,
        content.height > 0,
    ensures
        content.width * fit_scale(content, viewport).num <= viewport.width * fit_scale(
            content,
            viewport,
        ).den,
        content.height * fit_scale(content, viewport).num <= viewport.height * fit_scale(
            content,
            viewport,
        ).den,
{
    let (cw, ch) = (content.width as int, content.height as int);
    let (vw, vh) = (viewport.width as int, viewport.height as int);
    assert(cw * vw == vw * cw && ch * vh == vh * ch && ch * vw == vw * ch && cw * vh == vh * cw)
        by (nonlinear_arith);
}

/// The scaled content touches the viewport on at least one axis, so no
/// larger scale would fit.
pub proof fn lemma_content_touches(content: Size, viewport: Size)
    requires
        content.width > 0,
        content.height > 0,
    ensures
        content.width * fit_scale(content, viewport).num == viewport.width * fit_scale(
            content,
            viewport,
        ).den || content.height * fit_scale(content, viewport).num == viewport.height
            * fit_scale(content, viewport).den,
{
    let (cw, ch) = (content.width as int, content.height as int);
    let (vw, vh) = (viewport.width as int, viewport.height as int);
    assert(cw * vw == vw * cw && ch * vh == vh * ch) by (nonlinear_arith);
}

/// The absolute value in [`half_gap`] never changes a sign: the viewport is
/// at least as long as the scaled content on either axis, so each offset is
/// half of the true slack.
pub proof fn lemma_offsets_are_half_slack(content: Size, viewport: Size)
    requires
        content.width > 0,
        content.height > 0,
    ensures
        ({
            let p = placement(content, viewport);
            &&& p.wf()
            &&& content.width < content.height ==> p.dx.num == viewport.width * p.scale.den
                - content.width * p.scale.num
            &&& content.width >= content.height ==> p.dy.num == viewport.height * p.scale.den
                - content.height * p.scale.num
        }),
{
    lemma_content_fits(content, viewport);
}

/// `offset + length * scale <= extent`: the scaled length, moved by the
/// offset, ends within the extent.
pub open spec fn ends_within(offset: Rational, length: int, scale: Rational, extent: int) -> bool {
    offset.num * scale.den + length * scale.num * offset.den <= extent * scale.den * offset.den
}

/// Containment. Whatever the two sizes, the placed content lies inside the
/// viewport: it starts at the offsets, which are not negative, and ends
/// within the viewport on both axes.
pub proof fn lemma_placed_inside(content: Size, viewport: Size)
    requires
        content.width > 0,
        content.height > 0,
    ensures
        ({
            let p = placement(content, viewport);
            &&& p.wf()
            &&& ends_within(p.dx, content.width as int, p.scale, viewport.width as int)
            &&& ends_within(p.dy, content.height as int, p.scale, viewport.height as int)
        }),
{
    let (cw, ch) = (content.width as int, content.height as int);
    let (vw, vh) = (viewport.width as int, viewport.height as int);
    let p = placement(content, viewport);
    let (sn, sd) = (p.scale.num, p.scale.den);
    lemma_content_fits(content, viewport);
    lemma_offsets_are_half_slack(content, viewport);
    if cw < ch {
        assert(ends_within(p.dx, cw, p.scale, vw)) by (nonlinear_arith)
            requires
                p.scale.num == sn,
                p.scale.den == sd,
                sd > 0,
                cw * sn <= vw * sd,
                p.dx.num == vw * sd - cw * sn,
                p.dx.den == 2 * sd,
        ;
        assert(ends_within(p.dy, ch, p.scale, vh)) by (nonlinear_arith)
            requires
                p.scale.num == sn,
                p.scale.den == sd,
                ch * sn <= vh * sd,
                p.dy == Rational::zero(),
        ;
    } else {
        assert(ends_within(p.dx, cw, p.scale, vw)) by (nonlinear_arith)
            requires
                p.scale.num == sn,
                p.scale.den == sd,
                cw * sn <= vw * sd,
                p.dx == Rational::zero(),
        ;
        assert(ends_within(p.dy, ch, p.scale, vh)) by (nonlinear_arith)
            requires
                p.scale.num == sn,
                p.scale.den == sd,
                sd > 0,
                ch * sn <= vh * sd,
                p.dy.num == vh * sd - ch * sn,
                p.dy.den == 2 * sd,
        ;
    }
}

/// Centered containment. Where the viewport is at least as wide as tall for
/// content that is taller than wide, and at most as wide as tall for all
/// other content (so always in a square viewport), the content is centered
/// on both axes: it spans the viewport together with its offsets.
pub proof fn lemma_centered(content: Size, viewport: Size)
    requires
        content.width > 0,
        content.height > 0,
        content.width < content.height ==> viewport.width >= viewport.height,
        content.width >= content.height ==> viewport.width <= viewport.height,
    ensures
        ({
            let p = placement(content, viewport);
            &&& spans(p.dx, content.width as int, p.scale, viewport.width as int)
            &&& spans(p.dy, content.height as int, p.scale, viewport.height as int)
        }),
{
    let (cw, ch) = (content.width as int, content.height as int);
    let (vw, vh) = (viewport.width as int, viewport.height as int);
    let p = placement(content, viewport);
    lemma_offsets_are_half_slack(content, viewport);
    if cw < ch {
        // The height decides the scale: vh / ch <= vw / cw.
        assert(vh * cw <= vw * ch) by (nonlinear_arith)
            requires
                0 < cw < ch,
                0 <= vh <= vw,
        ;
        if vw * ch <= vh * cw {
            // Both quotients are equal; the scale is vw / cw and nothing is left over.
            assert(p.scale.num == vw && p.scale.den == cw);
            assert(spans(p.dx, cw, p.scale, vw)) by (nonlinear_arith)
                requires
                    p.scale.num == vw,
                    p.scale.den == cw,
                    p.dx.num == vw * cw - cw * vw,
            ;
            assert(spans(p.dy, ch, p.scale, vh)) by (nonlinear_arith)
                requires
                    p.scale.num == vw,
                    p.scale.den == cw,
                    p.dy == Rational::zero(),
                    vw * ch == vh * cw,
            ;
        } else {
            assert(p.scale.num == vh && p.scale.den == ch);
            assert(spans(p.dx, cw, p.scale, vw)) by (nonlinear_arith)
                requires
                    p.scale.num == vh,
                    p.scale.den == ch,
                    p.dx.num == vw * ch - cw * vh,
                    p.dx.den == 2 * ch,
            ;
            assert(spans(p.dy, ch, p.scale, vh)) by (nonlinear_arith)
                requires
                    p.scale.num == vh,
                    p.scale.den == ch,
                    p.dy == Rational::zero(),
            ;
        }
    } else {
        // The width decides the scale: vw / cw <= vh / ch.
        assert(vw * ch <= vh * cw) by (nonlinear_arith)
            requires
                0 < ch <= cw,
                0 <= vw <= vh,
        ;
        assert(p.scale.num == vw && p.scale.den == cw);
        assert(spans(p.dx, cw, p.scale, vw)) by (nonlinear_arith)
            requires
                p.scale.num == vw,
                p.scale.den == cw,
                p.dx == Rational::zero(),
        ;
        assert(spans(p.dy, ch, p.scale, vh)) by (nonlinear_arith)
            requires
                p.scale.num == vw,
                p.scale.den == cw,
                p.dy.num == vh * cw - ch * vw,
                p.dy.den == 2 * cw,
        ;
    }
}

} // verus!
