use vstd::prelude::*;

use crate::image::{Image, ImageBuffer, ImageBufferVal, ImageVal, lemma_write_then_read};
use crate::px::{PixelArithmetic, PixelVal, apply_px_px, apply_px_sc, apply_sc_px, min_pitch_spec};
use crate::scalar::Op;

verus! {

/// The value side of a broadcast: a pixel or a scalar, on the right or on the
/// left of the image.
#[derive(Clone, Copy)]
pub enum Operand<P: PixelArithmetic> {
    /// `image op pixel`
    Pixel(P),
    /// `pixel op image`
    PixelLeft(P),
    /// `image op scalar`
    Scalar(P::ScalarT),
    /// `scalar op image`
    ScalarLeft(P::ScalarT),
}

impl<P: PixelArithmetic> Operand<P> {
    /// The pixel that `op` makes of the image pixel `px` and this operand.
    pub open spec fn apply_spec(self, op: Op, px: P) -> P {
        match self {
            Operand::Pixel(p) => P::px_px_spec(op, px, p),
            Operand::PixelLeft(p) => P::px_px_spec(op, p, px),
            Operand::Scalar(s) => P::px_sc_spec(op, px, s),
            Operand::ScalarLeft(s) => P::sc_px_spec(op, s, px),
        }
    }

    /// Whether `op` may combine the image pixel `px` with this operand.
    pub open spec fn ok_for(self, op: Op, px: P) -> bool {
        match self {
            Operand::Pixel(p) => P::px_operand_ok(op, p),
            Operand::PixelLeft(_) => P::px_operand_ok(op, px),
            Operand::Scalar(s) => P::sc_operand_ok(op, s),
            Operand::ScalarLeft(_) => P::px_operand_ok(op, px),
        }
    }

    pub fn apply(&self, op: Op, px: P) -> (r: P)
        requires
            self.ok_for(op, px),
        ensures
            r == self.apply_spec(op, px),
    {
        match self {
            Operand::Pixel(p) => apply_px_px(op, px, *p),
            Operand::PixelLeft(p) => apply_px_px(op, *p, px),
            Operand::Scalar(s) => apply_px_sc(op, px, *s),
            Operand::ScalarLeft(s) => apply_sc_px(op, *s, px),
        }
    }
}

/// `op` may combine the pixels of `a` and `b` at every location of `a`.
pub open spec fn images_ok<P: PixelArithmetic>(
    op: Op,
    a: ImageBufferVal<P>,
    b: ImageBufferVal<P>,
) -> bool {
    forall|x: u32, y: u32| #[trigger] a.in_bounds(x, y) ==> P::px_operand_ok(op, b.pixel_at(x, y))
}

/// `op` may combine every pixel of `a` with `rhs`.
pub open spec fn operand_ok_for_image<P: PixelArithmetic>(
    op: Op,
    a: ImageBufferVal<P>,
    rhs: Operand<P>,
) -> bool {
    forall|x: u32, y: u32| #[trigger] a.in_bounds(x, y) ==> rhs.ok_for(op, a.pixel_at(x, y))
}

/// `r` has the width and height of `a`, and at every location holds
/// `a[x, y] op b[x, y]`.
pub open spec fn images_combined<P: PixelArithmetic>(
    op: Op,
    a: ImageBufferVal<P>,
    b: ImageBufferVal<P>,
    r: ImageBufferVal<P>,
) -> bool {
    &&& r.wf()
    &&& r.width_spec() == a.width_spec()
    &&& r.height_spec() == a.height_spec()
    &&& forall|x: u32, y: u32|
        #[trigger] a.in_bounds(x, y) ==> r.pixel_at(x, y) == P::px_px_spec(
            op,
            a.pixel_at(x, y),
            b.pixel_at(x, y),
        )
}

/// `r` has the width and height of `a`, and at every location holds `a[x, y]`
/// combined by `op` with `rhs`.
pub open spec fn operand_combined<P: PixelArithmetic>(
    op: Op,
    a: ImageBufferVal<P>,
    rhs: Operand<P>,
    r: ImageBufferVal<P>,
) -> bool {
    &&& r.wf()
    &&& r.width_spec() == a.width_spec()
    &&& r.height_spec() == a.height_spec()
    &&& forall|x: u32, y: u32|
        #[trigger] a.in_bounds(x, y) ==> r.pixel_at(x, y) == rhs.apply_spec(op, a.pixel_at(x, y))
}

/// Whether location (`xx`, `yy`) comes before (`x`, `y`) in a row-major scan
/// of rows `width` pixels wide.
pub open spec fn scanned_before(xx: u32, yy: u32, x: u32, y: u32, width: u32) -> bool {
    (yy < y && xx < width) || (yy == y && xx < x)
}

/// A new image with the width and height of `a`, the minimum pitch, and at
/// every location `a[x, y] op b[x, y]`.
pub fn combine_images<P: PixelArithmetic>(
    op: Op,
    a: &ImageBufferVal<P>,
    b: &ImageBufferVal<P>,
) -> (r: ImageBufferVal<P>)
    requires
        a.wf(),
        b.wf(),
        b.width_spec() == a.width_spec(),
        b.height_spec() == a.height_spec(),
        images_ok(op, *a, *b),
    ensures
        images_combined(op, *a, *b, r),
        r.pitch_spec() == min_pitch_spec::<P>(a.width_spec()),
{
    let width = a.width();
    let height = a.height();
    let mut result = new_like(a);
    let mut y: u32 = 0;
    while y < height
        invariant
            a.wf(),
            width == a.width_spec(),
            height == a.height_spec(),
            b.wf(),
            b.width_spec() == width,
            b.height_spec() == height,
            images_ok(op, *a, *b),
            result.wf(),
            result.width_spec() == width,
            result.height_spec() == height,
            result.pitch_spec() == min_pitch_spec::<P>(width),
            y <= height,
            forall|xx: u32, yy: u32|
                scanned_before(xx, yy, 0, y, width) ==> #[trigger] result.pixel_at(xx, yy)
                    == P::px_px_spec(op, a.pixel_at(xx, yy), b.pixel_at(xx, yy)),
        decreases height - y,
    {
        let mut x: u32 = 0;
        while x < width
            invariant
                a.wf(),
                width == a.width_spec(),
                height == a.height_spec(),
                b.wf(),
                b.width_spec() == width,
                b.height_spec() == height,
                images_ok(op, *a, *b),
                result.wf(),
                result.width_spec() == width,
                result.height_spec() == height,
                result.pitch_spec() == min_pitch_spec::<P>(width),
                y < height,
                x <= width,
                forall|xx: u32, yy: u32|
                    scanned_before(xx, yy, x, y, width) ==> #[trigger] result.pixel_at(xx, yy)
                        == P::px_px_spec(op, a.pixel_at(xx, yy), b.pixel_at(xx, yy)),
            decreases width - x,
        {
            let pa = a.get_pixel(x, y).unwrap();
            assert(a.in_bounds(x, y));
            let pb = b.get_pixel(x, y).unwrap();
            let v = apply_px_px(op, pa.0, pb.0);
            let ghost before = result;
            result.set_pixel(x, y, PixelVal(v));
            proof {
                before.0.lemma_geometry();
                let pitch = before.pitch_spec();
                assert forall|xx: u32, yy: u32|
                    scanned_before(xx, yy, (x + 1) as u32, y, width)
                        implies #[trigger] result.pixel_at(xx, yy)
                            == P::px_px_spec(op, a.pixel_at(xx, yy), b.pixel_at(xx, yy)) by {
                    let data = before.data_spec();
                    lemma_write_then_read::<P>(data, width, height, pitch, x, y, v, xx, yy);
                    if !(xx == x && yy == y) {
                        assert(
                            before.pixel_at(xx, yy)
                                == P::px_px_spec(op, a.pixel_at(xx, yy), b.pixel_at(xx, yy))
                        );
                    }
                }
            }
            x = x + 1;
        }
        y = y + 1;
    }
    result
}

/// A new image with the width and height of `a`, the minimum pitch, and at
/// every location `a[x, y]` combined by `op` with `rhs`.
pub fn combine_with<P: PixelArithmetic>(
    op: Op,
    a: &ImageBufferVal<P>,
    rhs: Operand<P>,
) -> (r: ImageBufferVal<P>)
    requires
        a.wf(),
        operand_ok_for_image(op, *a, rhs),
    ensures
        operand_combined(op, *a, rhs, r),
        r.pitch_spec() == min_pitch_spec::<P>(a.width_spec()),
{
    let width = a.width();
    let height = a.height();
    let mut result = new_like(a);
    let mut y: u32 = 0;
    while y < height
        invariant
            a.wf(),
            width == a.width_spec(),
            height == a.height_spec(),
            operand_ok_for_image(op, *a, rhs),
            result.wf(),
            result.width_spec() == width,
            result.height_spec() == height,
            result.pitch_spec() == min_pitch_spec::<P>(width),
            y <= height,
            forall|xx: u32, yy: u32|
                scanned_before(xx, yy, 0, y, width) ==> #[trigger] result.pixel_at(xx, yy)
                    == rhs.apply_spec(op, a.pixel_at(xx, yy)),
        decreases height - y,
    {
        let mut x: u32 = 0;
        while x < width
            invariant
                a.wf(),
                width == a.width_spec(),
                height == a.height_spec(),
                operand_ok_for_image(op, *a, rhs),
                result.wf(),
                result.width_spec() == width,
                result.height_spec() == height,
                result.pitch_spec() == min_pitch_spec::<P>(width),
                y < height,
                x <= width,
                forall|xx: u32, yy: u32|
                    scanned_before(xx, yy, x, y, width) ==> #[trigger] result.pixel_at(xx, yy)
                        == rhs.apply_spec(op, a.pixel_at(xx, yy)),
            decreases width - x,
        {
            let pa = a.get_pixel(x, y).unwrap();
            assert(a.in_bounds(x, y));
            let v = rhs.apply(op, pa.0);
            let ghost before = result;
            result.set_pixel(x, y, PixelVal(v));
            proof {
                before.0.lemma_geometry();
                let pitch = before.pitch_spec();
                assert forall|xx: u32, yy: u32|
                    scanned_before(xx, yy, (x + 1) as u32, y, width)
                        implies #[trigger] result.pixel_at(xx, yy)
                            == rhs.apply_spec(op, a.pixel_at(xx, yy)) by {
                    let data = before.data_spec();
                    lemma_write_then_read::<P>(data, width, height, pitch, x, y, v, xx, yy);
                    if !(xx == x && yy == y) {
                        assert(before.pixel_at(xx, yy) == rhs.apply_spec(op, a.pixel_at(xx, yy)));
                    }
                }
            }
            x = x + 1;
        }
        y = y + 1;
    }
    result
}

/// Replaces the pixel of `a` at every location by `a[x, y] op b[x, y]`.
pub fn combine_images_in_place<P: PixelArithmetic>(
    op: Op,
    a: &mut ImageBufferVal<P>,
    b: &ImageBufferVal<P>,
)
    requires
        old(a).wf(),
        b.wf(),
        b.width_spec() == old(a).width_spec(),
        b.height_spec() == old(a).height_spec(),
        images_ok(op, *old(a), *b),
    ensures
        images_combined(op, *old(a), *b, *final(a)),
        final(a).pitch_spec() == old(a).pitch_spec(),
{
    let width = a.width();
    let height = a.height();
    let ghost orig = *a;
    let mut y: u32 = 0;
    while y < height
        invariant
            orig.wf(),
            width == orig.width_spec(),
            height == orig.height_spec(),
            b.wf(),
            b.width_spec() == width,
            b.height_spec() == height,
            images_ok(op, orig, *b),
            a.wf(),
            a.width_spec() == width,
            a.height_spec() == height,
            a.pitch_spec() == orig.pitch_spec(),
            y <= height,
            forall|xx: u32, yy: u32|
                scanned_before(xx, yy, 0, y, width) ==> #[trigger] a.pixel_at(xx, yy)
                    == P::px_px_spec(op, orig.pixel_at(xx, yy), b.pixel_at(xx, yy)),
            forall|xx: u32, yy: u32|
                xx < width && yy < height && !scanned_before(xx, yy, 0, y, width)
                    ==> #[trigger] a.pixel_at(xx, yy) == orig.pixel_at(xx, yy),
        decreases height - y,
    {
        let mut x: u32 = 0;
        while x < width
            invariant
                orig.wf(),
                width == orig.width_spec(),
                height == orig.height_spec(),
                b.wf(),
                b.width_spec() == width,
                b.height_spec() == height,
                images_ok(op, orig, *b),
                a.wf(),
                a.width_spec() == width,
                a.height_spec() == height,
                a.pitch_spec() == orig.pitch_spec(),
                y < height,
                x <= width,
                forall|xx: u32, yy: u32|
                    scanned_before(xx, yy, x, y, width) ==> #[trigger] a.pixel_at(xx, yy)
                        == P::px_px_spec(op, orig.pixel_at(xx, yy), b.pixel_at(xx, yy)),
                forall|xx: u32, yy: u32|
                    xx < width && yy < height && !scanned_before(xx, yy, x, y, width)
                        ==> #[trigger] a.pixel_at(xx, yy) == orig.pixel_at(xx, yy),
            decreases width - x,
        {
            let pa = a.get_pixel(x, y).unwrap();
            assert(orig.in_bounds(x, y));
            assert(a.pixel_at(x, y) == orig.pixel_at(x, y));
            let pb = b.get_pixel(x, y).unwrap();
            let v = apply_px_px(op, pa.0, pb.0);
            let ghost before = a;
            a.set_pixel(x, y, PixelVal(v));
            proof {
                before.0.lemma_geometry();
                let pitch = before.pitch_spec();
                assert forall|xx: u32, yy: u32|
                    scanned_before(xx, yy, (x + 1) as u32, y, width)
                        implies #[trigger] a.pixel_at(xx, yy)
                            == P::px_px_spec(op, orig.pixel_at(xx, yy), b.pixel_at(xx, yy)) by {
                    let data = before.data_spec();
                    lemma_write_then_read::<P>(data, width, height, pitch, x, y, v, xx, yy);
                    if !(xx == x && yy == y) {
                        assert(
                            before.pixel_at(xx, yy)
                                == P::px_px_spec(op, orig.pixel_at(xx, yy), b.pixel_at(xx, yy))
                        );
                    }
                }
                assert forall|xx: u32, yy: u32|
                    xx < width && yy < height && !scanned_before(xx, yy, (x + 1) as u32, y, width)
                        implies #[trigger] a.pixel_at(xx, yy) == orig.pixel_at(xx, yy) by {
                    let data = before.data_spec();
                    lemma_write_then_read::<P>(data, width, height, pitch, x, y, v, xx, yy);
                    assert(before.pixel_at(xx, yy) == orig.pixel_at(xx, yy));
                }
            }
            x = x + 1;
        }
        y = y + 1;
    }
}

/// Replaces the pixel of `a` at every location by `a[x, y]` combined by `op` with `rhs`.
pub fn combine_with_in_place<P: PixelArithmetic>(
    op: Op,
    a: &mut ImageBufferVal<P>,
    rhs: Operand<P>,
)
    requires
        old(a).wf(),
        operand_ok_for_image(op, *old(a), rhs),
    ensures
        operand_combined(op, *old(a), rhs, *final(a)),
        final(a).pitch_spec() == old(a).pitch_spec(),
{
    let width = a.width();
    let height = a.height();
    let ghost orig = *a;
    let mut y: u32 = 0;
    while y < height
        invariant
            orig.wf(),
            width == orig.width_spec(),
            height == orig.height_spec(),
            operand_ok_for_image(op, orig, rhs),
            a.wf(),
            a.width_spec() == width,
            a.height_spec() == height,
            a.pitch_spec() == orig.pitch_spec(),
            y <= height,
            forall|xx: u32, yy: u32|
                scanned_before(xx, yy, 0, y, width) ==> #[trigger] a.pixel_at(xx, yy)
                    == rhs.apply_spec(op, orig.pixel_at(xx, yy)),
            forall|xx: u32, yy: u32|
                xx < width && yy < height && !scanned_before(xx, yy, 0, y, width)
                    ==> #[trigger] a.pixel_at(xx, yy) == orig.pixel_at(xx, yy),
        decreases height - y,
    {
        let mut x: u32 = 0;
        while x < width
            invariant
                orig.wf(),
                width == orig.width_spec(),
                height == orig.height_spec(),
                operand_ok_for_image(op, orig, rhs),
                a.wf(),
                a.width_spec() == width,
                a.height_spec() == height,
                a.pitch_spec() == orig.pitch_spec(),
                y < height,
                x <= width,
                forall|xx: u32, yy: u32|
                    scanned_before(xx, yy, x, y, width) ==> #[trigger] a.pixel_at(xx, yy)
                        == rhs.apply_spec(op, orig.pixel_at(xx, yy)),
                forall|xx: u32, yy: u32|
                    xx < width && yy < height && !scanned_before(xx, yy, x, y, width)
                        ==> #[trigger] a.pixel_at(xx, yy) == orig.pixel_at(xx, yy),
            decreases width - x,
        {
            let pa = a.get_pixel(x, y).unwrap();
            assert(orig.in_bounds(x, y));
            assert(a.pixel_at(x, y) == orig.pixel_at(x, y));
            let v = rhs.apply(op, pa.0);
            let ghost before = a;
            a.set_pixel(x, y, PixelVal(v));
            proof {
                before.0.lemma_geometry();
                let pitch = before.pitch_spec();
                assert forall|xx: u32, yy: u32|
                    scanned_before(xx, yy, (x + 1) as u32, y, width)
                        implies #[trigger] a.pixel_at(xx, yy)
                            == rhs.apply_spec(op, orig.pixel_at(xx, yy)) by {
                    let data = before.data_spec();
                    lemma_write_then_read::<P>(data, width, height, pitch, x, y, v, xx, yy);
                    if !(xx == x && yy == y) {
                        assert(
                            before.pixel_at(xx, yy)
                                == rhs.apply_spec(op, orig.pixel_at(xx, yy))
                        );
                    }
                }
                assert forall|xx: u32, yy: u32|
                    xx < width && yy < height && !scanned_before(xx, yy, (x + 1) as u32, y, width)
                        implies #[trigger] a.pixel_at(xx, yy) == orig.pixel_at(xx, yy) by {
                    let data = before.data_spec();
                    lemma_write_then_read::<P>(data, width, height, pitch, x, y, v, xx, yy);
                    assert(before.pixel_at(xx, yy) == orig.pixel_at(xx, yy));
                }
            }
            x = x + 1;
        }
        y = y + 1;
    }
}

/// Combining two images in place leaves the pixels that combining them into a
/// new image gives.
pub proof fn lemma_in_place_matches_new<P: PixelArithmetic>(
    op: Op,
    a: ImageBufferVal<P>,
    b: ImageBufferVal<P>,
    fresh: ImageBufferVal<P>,
    updated: ImageBufferVal<P>,
)
    requires
        images_combined(op, a, b, fresh),
        images_combined(op, a, b, updated),
    ensures
        updated.width_spec() == fresh.width_spec(),
        updated.height_spec() == fresh.height_spec(),
        forall|x: u32, y: u32| #[trigger]
            fresh.in_bounds(x, y) ==> updated.pixel_at(x, y) == fresh.pixel_at(x, y),
{
    assert forall|x: u32, y: u32| #[trigger]
        fresh.in_bounds(x, y) implies updated.pixel_at(x, y) == fresh.pixel_at(x, y) by {
        assert(a.in_bounds(x, y));
    }
}

/// Combining an image with a pixel or a scalar in place leaves the pixels that
/// combining them into a new image gives.
pub proof fn lemma_in_place_with_matches_new<P: PixelArithmetic>(
    op: Op,
    a: ImageBufferVal<P>,
    rhs: Operand<P>,
    fresh: ImageBufferVal<P>,
    updated: ImageBufferVal<P>,
)
    requires
        operand_combined(op, a, rhs, fresh),
        operand_combined(op, a, rhs, updated),
    ensures
        updated.width_spec() == fresh.width_spec(),
        updated.height_spec() == fresh.height_spec(),
        forall|x: u32, y: u32| #[trigger]
            fresh.in_bounds(x, y) ==> updated.pixel_at(x, y) == fresh.pixel_at(x, y),
{
    assert forall|x: u32, y: u32| #[trigger]
        fresh.in_bounds(x, y) implies updated.pixel_at(x, y) == fresh.pixel_at(x, y) by {
        assert(a.in_bounds(x, y));
    }
}

impl<P: PixelArithmetic> ImageVal<ImageBuffer<P>> {
    /// A new image holding `self[x, y] + rhs[x, y]` at every location.
    pub fn add(&self, rhs: &Self) -> (r: Self)
        requires
            self.wf(),
            rhs.wf(),
            rhs.width_spec() == self.width_spec(),
            rhs.height_spec() == self.height_spec(),
            images_ok(Op::Add, *self, *rhs),
        ensures
            images_combined(Op::Add, *self, *rhs, r),
            r.pitch_spec() == min_pitch_spec::<P>(self.width_spec()),
    {
        combine_images(Op::Add, self, rhs)
    }

    /// A new image holding `self[x, y] - rhs[x, y]` at every location.
    pub fn sub(&self, rhs: &Self) -> (r: Self)
        requires
            self.wf(),
            rhs.wf(),
            rhs.width_spec() == self.width_spec(),
            rhs.height_spec() == self.height_spec(),
            images_ok(Op::Sub, *self, *rhs),
        ensures
            images_combined(Op::Sub, *self, *rhs, r),
            r.pitch_spec() == min_pitch_spec::<P>(self.width_spec()),
    {
        combine_images(Op::Sub, self, rhs)
    }

    /// A new image holding `self[x, y] * rhs[x, y]` at every location.
    pub fn mul(&self, rhs: &Self) -> (r: Self)
        requires
            self.wf(),
            rhs.wf(),
            rhs.width_spec() == self.width_spec(),
            rhs.height_spec() == self.height_spec(),
            images_ok(Op::Mul, *self, *rhs),
        ensures
            images_combined(Op::Mul, *self, *rhs, r),
            r.pitch_spec() == min_pitch_spec::<P>(self.width_spec()),
    {
        combine_images(Op::Mul, self, rhs)
    }

    /// A new image holding `self[x, y] / rhs[x, y]` at every location.
    pub fn div(&self, rhs: &Self) -> (r: Self)
        requires
            self.wf(),
            rhs.wf(),
            rhs.width_spec() == self.width_spec(),
            rhs.height_spec() == self.height_spec(),
            images_ok(Op::Div, *self, *rhs),
        ensures
            images_combined(Op::Div, *self, *rhs, r),
            r.pitch_spec() == min_pitch_spec::<P>(self.width_spec()),
    {
        combine_images(Op::Div, self, rhs)
    }

    /// A new image holding `self[x, y]` combined by `+` with `rhs` at every
    /// location.
    pub fn add_value(&self, rhs: Operand<P>) -> (r: Self)
        requires
            self.wf(),
            operand_ok_for_image(Op::Add, *self, rhs),
        ensures
            operand_combined(Op::Add, *self, rhs, r),
            r.pitch_spec() == min_pitch_spec::<P>(self.width_spec()),
    {
        combine_with(Op::Add, self, rhs)
    }

    /// A new image holding `self[x, y]` combined by `-` with `rhs` at every
    /// location.
    pub fn sub_value(&self, rhs: Operand<P>) -> (r: Self)
        requires
            self.wf(),
            operand_ok_for_image(Op::Sub, *self, rhs),
        ensures
            operand_combined(Op::Sub, *self, rhs, r),
            r.pitch_spec() == min_pitch_spec::<P>(self.width_spec()),
    {
        combine_with(Op::Sub, self, rhs)
    }

    /// A new image holding `self[x, y]` combined by `*` with `rhs` at every
    /// location.
    pub fn mul_value(&self, rhs: Operand<P>) -> (r: Self)
        requires
            self.wf(),
            operand_ok_for_image(Op::Mul, *self, rhs),
        ensures
            operand_combined(Op::Mul, *self, rhs, r),
            r.pitch_spec() == min_pitch_spec::<P>(self.width_spec()),
    {
        combine_with(Op::Mul, self, rhs)
    }

    /// A new image holding `self[x, y]` combined by `/` with `rhs` at every
    /// location.
    pub fn div_value(&self, rhs: Operand<P>) -> (r: Self)
        requires
            self.wf(),
            operand_ok_for_image(Op::Div, *self, rhs),
        ensures
            operand_combined(Op::Div, *self, rhs, r),
            r.pitch_spec() == min_pitch_spec::<P>(self.width_spec()),
    {
        combine_with(Op::Div, self, rhs)
    }

    /// Replaces every pixel by `self[x, y] + rhs[x, y]`.
    pub fn add_assign(&mut self, rhs: &Self)
        requires
            old(self).wf(),
            rhs.wf(),
            rhs.width_spec() == old(self).width_spec(),
            rhs.height_spec() == old(self).height_spec(),
            images_ok(Op::Add, *old(self), *rhs),
        ensures
            images_combined(Op::Add, *old(self), *rhs, *final(self)),
            final(self).pitch_spec() == old(self).pitch_spec(),
    {
        combine_images_in_place(Op::Add, self, rhs)
    }

    /// Replaces every pixel by `self[x, y] - rhs[x, y]`.
    pub fn sub_assign(&mut self, rhs: &Self)
        requires
            old(self).wf(),
            rhs.wf(),
            rhs.width_spec() == old(self).width_spec(),
            rhs.height_spec() == old(self).height_spec(),
            images_ok(Op::Sub, *old(self), *rhs),
        ensures
            images_combined(Op::Sub, *old(self), *rhs, *final(self)),
            final(self).pitch_spec() == old(self).pitch_spec(),
    {
        combine_images_in_place(Op::Sub, self, rhs)
    }

    /// Replaces every pixel by `self[x, y] * rhs[x, y]`.
    pub fn mul_assign(&mut self, rhs: &Self)
        requires
            old(self).wf(),
            rhs.wf(),
            rhs.width_spec() == old(self).width_spec(),
            rhs.height_spec() == old(self).height_spec(),
            images_ok(Op::Mul, *old(self), *rhs),
        ensures
            images_combined(Op::Mul, *old(self), *rhs, *final(self)),
            final(self).pitch_spec() == old(self).pitch_spec(),
    {
        combine_images_in_place(Op::Mul, self, rhs)
    }

    /// Replaces every pixel by `self[x, y] / rhs[x, y]`.
    pub fn div_assign(&mut self, rhs: &Self)
        requires
            old(self).wf(),
            rhs.wf(),
            rhs.width_spec() == old(self).width_spec(),
            rhs.height_spec() == old(self).height_spec(),
            images_ok(Op::Div, *old(self), *rhs),
        ensures
            images_combined(Op::Div, *old(self), *rhs, *final(self)),
            final(self).pitch_spec() == old(self).pitch_spec(),
    {
        combine_images_in_place(Op::Div, self, rhs)
    }

    /// Replaces every pixel by itself combined by `+` with `rhs`.
    pub fn add_assign_value(&mut self, rhs: Operand<P>)
        requires
            old(self).wf(),
            operand_ok_for_image(Op::Add, *old(self), rhs),
        ensures
            operand_combined(Op::Add, *old(self), rhs, *final(self)),
            final(self).pitch_spec() == old(self).pitch_spec(),
    {
        combine_with_in_place(Op::Add, self, rhs)
    }

    /// Replaces every pixel by itself combined by `-` with `rhs`.
    pub fn sub_assign_value(&mut self, rhs: Operand<P>)
        requires
            old(self).wf(),
            operand_ok_for_image(Op::Sub, *old(self), rhs),
        ensures
            operand_combined(Op::Sub, *old(self), rhs, *final(self)),
            final(self).pitch_spec() == old(self).pitch_spec(),
    {
        combine_with_in_place(Op::Sub, self, rhs)
    }

    /// Replaces every pixel by itself combined by `*` with `rhs`.
    pub fn mul_assign_value(&mut self, rhs: Operand<P>)
        requires
            old(self).wf(),
            operand_ok_for_image(Op::Mul, *old(self), rhs),
        ensures
            operand_combined(Op::Mul, *old(self), rhs, *final(self)),
            final(self).pitch_spec() == old(self).pitch_spec(),
    {
        combine_with_in_place(Op::Mul, self, rhs)
    }

    /// Replaces every pixel by itself combined by `/` with `rhs`.
    pub fn div_assign_value(&mut self, rhs: Operand<P>)
        requires
            old(self).wf(),
            operand_ok_for_image(Op::Div, *old(self), rhs),
        ensures
            operand_combined(Op::Div, *old(self), rhs, *final(self)),
            final(self).pitch_spec() == old(self).pitch_spec(),
    {
        combine_with_in_place(Op::Div, self, rhs)
    }
}

/// A zero-filled image with the width and height of `a` and the minimum pitch.
fn new_like<P: PixelArithmetic>(a: &ImageBufferVal<P>) -> (r: ImageBufferVal<P>)
    requires
        a.wf(),
    ensures
        r.wf(),
        r.width_spec() == a.width_spec(),
        r.height_spec() == a.height_spec(),
        r.pitch_spec() == min_pitch_spec::<P>(a.width_spec()),
{
    proof {
        a.0.lemma_geometry();
        let m = min_pitch_spec::<P>(a.width_spec());
        assert(a.height_spec() * m <= a.height_spec() * a.pitch_spec()) by (nonlinear_arith)
            requires
                m <= a.pitch_spec(),
        ;
    }
    ImageVal::new_with_size(a.width(), a.height())
}

} // verus!
