use vstd::prelude::*;

use crate::scalar::{Op, Scalar, ScalarVal, splice};

verus! {

/// Byte offset of the sample at (`x`, `y`), for samples of `n` bytes and a row
/// stride of `pitch` bytes.
pub open spec fn offset_of(x: u32, y: u32, pitch: u32, n: nat) -> int {
    y * pitch + x * n
}

/// The `n` bytes of the sample at (`x`, `y`).
pub open spec fn bytes_at(x: u32, y: u32, pitch: u32, n: nat, bytes: Seq<u8>) -> Seq<u8> {
    bytes.subrange(offset_of(x, y, pitch, n), offset_of(x, y, pitch, n) + n)
}

/// `height * pitch` where `pitch` is at least `min_pitch` and the product fits
/// in `usize`, else nothing.
pub open spec fn buffer_size(min_pitch: int, height: u32, pitch: u32) -> Option<usize> {
    if pitch >= min_pitch && height * pitch <= usize::MAX {
        Some((height * pitch) as usize)
    } else {
        None
    }
}

/// Byte offset of the sample at (`x`, `y`) in layout `P`.
pub open spec fn sample_offset<P: Pixel>(x: u32, y: u32, pitch: u32) -> int {
    offset_of(x, y, pitch, P::sample_len())
}

/// Bytes needed for one row of `width` samples.
pub open spec fn min_pitch_spec<P: Pixel>(width: u32) -> int {
    width * P::sample_len()
}

/// Size of an image buffer in layout `P`.
pub open spec fn size_spec<P: Pixel>(width: u32, height: u32, pitch: u32) -> Option<usize> {
    buffer_size(min_pitch_spec::<P>(width), height, pitch)
}

/// Whether the sample at (`x`, `y`) lies inside a buffer of `len` bytes.
pub open spec fn sample_fits<P: Pixel>(x: u32, y: u32, pitch: u32, len: int) -> bool {
    sample_offset::<P>(x, y, pitch) + P::sample_len() <= len
}

/// The pixel that `bytes` holds at (`x`, `y`).
pub open spec fn read_sample<P: Pixel>(x: u32, y: u32, pitch: u32, bytes: Seq<u8>) -> P {
    P::decode_spec(bytes_at(x, y, pitch, P::sample_len(), bytes))
}

/// `bytes` with the pixel at (`x`, `y`) replaced by `v`.
pub open spec fn write_sample<P: Pixel>(
    v: P,
    x: u32,
    y: u32,
    pitch: u32,
    bytes: Seq<u8>,
) -> Seq<u8> {
    splice(bytes, sample_offset::<P>(x, y, pitch), P::encode_spec(v))
}

/// At the minimum pitch, the size of an image is the minimum pitch times the
/// height.
pub proof fn lemma_minimum_pitch_size<P: Pixel>(width: u32, height: u32)
    requires
        min_pitch_spec::<P>(width) <= u32::MAX,
        height * min_pitch_spec::<P>(width) <= usize::MAX,
    ensures
        size_spec::<P>(width, height, min_pitch_spec::<P>(width) as u32) == Some(
            (min_pitch_spec::<P>(width) * height) as usize,
        ),
{
    let m = min_pitch_spec::<P>(width);
    assert(m * height == height * m) by (nonlinear_arith);
    assert(0 <= width * P::sample_len()) by (nonlinear_arith);
}

/// A pitch below the minimum pitch gives no size.
pub proof fn lemma_pitch_below_minimum<P: Pixel>(width: u32, height: u32, pitch: u32)
    requires
        pitch < min_pitch_spec::<P>(width),
    ensures
        size_spec::<P>(width, height, pitch) is None,
{
}

/// Computes `offset_of(x, y, pitch, n)` for a sample that ends within `len` bytes.
pub(crate) fn sample_start(x: u32, y: u32, pitch: u32, n: usize, len: usize) -> (r: usize)
    requires
        offset_of(x, y, pitch, n as nat) + n <= len,
    ensures
        r == offset_of(x, y, pitch, n as nat),
{
    proof {
        assert(0 <= x * n) by (nonlinear_arith);
        assert(0 <= y * pitch) by (nonlinear_arith);
    }
    let row = y as usize * pitch as usize;
    row + x as usize * n
}

/// A pixel layout: how one sample is encoded in a row-major byte buffer.
pub trait Pixel: Copy + Sized {
    /// Number of bytes of one sample.
    spec fn sample_len() -> nat;

    spec fn decode_spec(b: Seq<u8>) -> Self;

    spec fn encode_spec(v: Self) -> Seq<u8>;

    proof fn lemma_encoding(v: Self)
        ensures
            1 <= Self::sample_len() <= 8,
            Self::encode_spec(v).len() == Self::sample_len(),
            Self::decode_spec(Self::encode_spec(v)) == v,
    ;

    /// Bytes needed for one row of `width` samples; `height` plays no part.
    fn calc_minimum_pitch(width: u32, height: u32) -> (r: usize)
        requires
            width * Self::sample_len() <= usize::MAX,
        ensures
            r == width * Self::sample_len(),
    ;

    /// Size in bytes of an image of this layout, or `None` where `pitch` is
    /// below the minimum pitch.
    fn calc_size_in_bytes(width: u32, height: u32, pitch: u32) -> (r: Option<usize>)
        ensures
            r == buffer_size(width * Self::sample_len(), height, pitch),
    ;

    /// Decodes the sample at (`x`, `y`).
    fn load_from_raw_buffer(x: u32, y: u32, pitch: u32, buffer: &[u8]) -> (r: Self)
        requires
            offset_of(x, y, pitch, Self::sample_len()) + Self::sample_len() <= buffer@.len(),
        ensures
            r == Self::decode_spec(bytes_at(x, y, pitch, Self::sample_len(), buffer@)),
    ;

    /// Encodes this sample at (`x`, `y`), leaving every other byte as it was.
    fn write_into_raw_buffer(&self, x: u32, y: u32, pitch: u32, buffer: &mut [u8])
        requires
            offset_of(x, y, pitch, Self::sample_len()) + Self::sample_len() <= old(buffer)@.len(),
        ensures
            final(buffer)@ == splice(
                old(buffer)@,
                offset_of(x, y, pitch, Self::sample_len()),
                Self::encode_spec(*self),
            ),
    ;
}

/// A pixel layout with elementwise arithmetic over an intensity scalar.
pub trait PixelArithmetic: Pixel {
    type ScalarT: Scalar;

    /// `a op b` for two pixels.
    spec fn px_px_spec(op: Op, a: Self, b: Self) -> Self;

    /// `a op s` for a pixel and a scalar.
    spec fn px_sc_spec(op: Op, a: Self, s: Self::ScalarT) -> Self;

    /// `s op a` for a scalar and a pixel.
    spec fn sc_px_spec(op: Op, s: Self::ScalarT, a: Self) -> Self;

    /// Whether pixel `b` may stand on the right of `op`.
    spec fn px_operand_ok(op: Op, b: Self) -> bool;

    /// Whether scalar `s` may stand on the right of `op`.
    spec fn sc_operand_ok(op: Op, s: Self::ScalarT) -> bool;

    fn add_px_px(self, rhs: Self) -> (r: Self)
        ensures
            r == Self::px_px_spec(Op::Add, self, rhs),
    ;

    fn sub_px_px(self, rhs: Self) -> (r: Self)
        ensures
            r == Self::px_px_spec(Op::Sub, self, rhs),
    ;

    fn mul_px_px(self, rhs: Self) -> (r: Self)
        ensures
            r == Self::px_px_spec(Op::Mul, self, rhs),
    ;

    fn div_px_px(self, rhs: Self) -> (r: Self)
        requires
            Self::px_operand_ok(Op::Div, rhs),
        ensures
            r == Self::px_px_spec(Op::Div, self, rhs),
    ;

    fn add_px_sc(self, rhs: Self::ScalarT) -> (r: Self)
        ensures
            r == Self::px_sc_spec(Op::Add, self, rhs),
    ;

    fn sub_px_sc(self, rhs: Self::ScalarT) -> (r: Self)
        ensures
            r == Self::px_sc_spec(Op::Sub, self, rhs),
    ;

    fn mul_px_sc(self, rhs: Self::ScalarT) -> (r: Self)
        ensures
            r == Self::px_sc_spec(Op::Mul, self, rhs),
    ;

    fn div_px_sc(self, rhs: Self::ScalarT) -> (r: Self)
        requires
            Self::sc_operand_ok(Op::Div, rhs),
        ensures
            r == Self::px_sc_spec(Op::Div, self, rhs),
    ;

    /// `lhs + self`.
    fn add_sc_px(self, lhs: Self::ScalarT) -> (r: Self)
        ensures
            r == Self::sc_px_spec(Op::Add, lhs, self),
    ;

    /// `lhs - self`.
    fn sub_sc_px(self, lhs: Self::ScalarT) -> (r: Self)
        ensures
            r == Self::sc_px_spec(Op::Sub, lhs, self),
    ;

    /// `lhs * self`.
    fn mul_sc_px(self, lhs: Self::ScalarT) -> (r: Self)
        ensures
            r == Self::sc_px_spec(Op::Mul, lhs, self),
    ;

    /// `lhs / self`.
    fn div_sc_px(self, lhs: Self::ScalarT) -> (r: Self)
        requires
            Self::px_operand_ok(Op::Div, self),
        ensures
            r == Self::sc_px_spec(Op::Div, lhs, self),
    ;
}

/// Applies `op` as pixel `op` pixel.
pub fn apply_px_px<P: PixelArithmetic>(op: Op, a: P, b: P) -> (r: P)
    requires
        P::px_operand_ok(op, b),
    ensures
        r == P::px_px_spec(op, a, b),
{
    match op {
        Op::Add => a.add_px_px(b),
        Op::Sub => a.sub_px_px(b),
        Op::Mul => a.mul_px_px(b),
        Op::Div => a.div_px_px(b),
    }
}

/// Applies `op` as pixel `op` scalar.
pub fn apply_px_sc<P: PixelArithmetic>(op: Op, a: P, b: P::ScalarT) -> (r: P)
    requires
        P::sc_operand_ok(op, b),
    ensures
        r == P::px_sc_spec(op, a, b),
{
    match op {
        Op::Add => a.add_px_sc(b),
        Op::Sub => a.sub_px_sc(b),
        Op::Mul => a.mul_px_sc(b),
        Op::Div => a.div_px_sc(b),
    }
}

/// Applies `op` as scalar `op` pixel.
pub fn apply_sc_px<P: PixelArithmetic>(op: Op, a: P::ScalarT, b: P) -> (r: P)
    requires
        P::px_operand_ok(op, b),
    ensures
        r == P::sc_px_spec(op, a, b),
{
    match op {
        Op::Add => b.add_sc_px(a),
        Op::Sub => b.sub_sc_px(a),
        Op::Mul => b.mul_sc_px(a),
        Op::Div => b.div_sc_px(a),
    }
}

/// A pixel value of layout `T`, with arithmetic as methods where the layout
/// supports it.
#[derive(Clone, Copy, Debug, PartialEq)]
pub struct PixelVal<T: Pixel>(pub T);

impl<T: Pixel> PixelVal<T> {
    pub fn calc_minimum_pitch(width: u32, height: u32) -> (r: usize)
        requires
            min_pitch_spec::<T>(width) <= usize::MAX,
        ensures
            r == min_pitch_spec::<T>(width),
    {
        T::calc_minimum_pitch(width, height)
    }

    pub fn calc_size_in_bytes(width: u32, height: u32, pitch: u32) -> (r: Option<usize>)
        ensures
            r == size_spec::<T>(width, height, pitch),
    {
        T::calc_size_in_bytes(width, height, pitch)
    }

    pub fn load_from_raw_buffer(x: u32, y: u32, pitch: u32, buffer: &[u8]) -> (r: Self)
        requires
            sample_fits::<T>(x, y, pitch, buffer@.len() as int),
        ensures
            r.0 == read_sample::<T>(x, y, pitch, buffer@),
    {
        PixelVal(T::load_from_raw_buffer(x, y, pitch, buffer))
    }

    pub fn write_into_raw_buffer(&self, x: u32, y: u32, pitch: u32, buffer: &mut [u8])
        requires
            sample_fits::<T>(x, y, pitch, old(buffer)@.len() as int),
        ensures
            final(buffer)@ == write_sample(self.0, x, y, pitch, old(buffer)@),
    {
        self.0.write_into_raw_buffer(x, y, pitch, buffer)
    }
}

impl<T: PixelArithmetic> PixelVal<T> {
    pub fn add(self, rhs: Self) -> (r: Self)
        ensures
            r.0 == T::px_px_spec(Op::Add, self.0, rhs.0),
    {
        PixelVal(self.0.add_px_px(rhs.0))
    }

    pub fn sub(self, rhs: Self) -> (r: Self)
        ensures
            r.0 == T::px_px_spec(Op::Sub, self.0, rhs.0),
    {
        PixelVal(self.0.sub_px_px(rhs.0))
    }

    pub fn mul(self, rhs: Self) -> (r: Self)
        ensures
            r.0 == T::px_px_spec(Op::Mul, self.0, rhs.0),
    {
        PixelVal(self.0.mul_px_px(rhs.0))
    }

    pub fn div(self, rhs: Self) -> (r: Self)
        requires
            T::px_operand_ok(Op::Div, rhs.0),
        ensures
            r.0 == T::px_px_spec(Op::Div, self.0, rhs.0),
    {
        PixelVal(self.0.div_px_px(rhs.0))
    }

    pub fn add_scalar(self, rhs: ScalarVal<T::ScalarT>) -> (r: Self)
        ensures
            r.0 == T::px_sc_spec(Op::Add, self.0, rhs.0),
    {
        PixelVal(self.0.add_px_sc(rhs.0))
    }

    pub fn sub_scalar(self, rhs: ScalarVal<T::ScalarT>) -> (r: Self)
        ensures
            r.0 == T::px_sc_spec(Op::Sub, self.0, rhs.0),
    {
        PixelVal(self.0.sub_px_sc(rhs.0))
    }

    pub fn mul_scalar(self, rhs: ScalarVal<T::ScalarT>) -> (r: Self)
        ensures
            r.0 == T::px_sc_spec(Op::Mul, self.0, rhs.0),
    {
        PixelVal(self.0.mul_px_sc(rhs.0))
    }

    pub fn div_scalar(self, rhs: ScalarVal<T::ScalarT>) -> (r: Self)
        requires
            T::sc_operand_ok(Op::Div, rhs.0),
        ensures
            r.0 == T::px_sc_spec(Op::Div, self.0, rhs.0),
    {
        PixelVal(self.0.div_px_sc(rhs.0))
    }

    /// `lhs + rhs` for a scalar on the left.
    pub fn scalar_add(lhs: ScalarVal<T::ScalarT>, rhs: Self) -> (r: Self)
        ensures
            r.0 == T::sc_px_spec(Op::Add, lhs.0, rhs.0),
    {
        PixelVal(rhs.0.add_sc_px(lhs.0))
    }

    /// `lhs - rhs` for a scalar on the left.
    pub fn scalar_sub(lhs: ScalarVal<T::ScalarT>, rhs: Self) -> (r: Self)
        ensures
            r.0 == T::sc_px_spec(Op::Sub, lhs.0, rhs.0),
    {
        PixelVal(rhs.0.sub_sc_px(lhs.0))
    }

    /// `lhs * rhs` for a scalar on the left.
    pub fn scalar_mul(lhs: ScalarVal<T::ScalarT>, rhs: Self) -> (r: Self)
        ensures
            r.0 == T::sc_px_spec(Op::Mul, lhs.0, rhs.0),
    {
        PixelVal(rhs.0.mul_sc_px(lhs.0))
    }

    /// `lhs / rhs` for a scalar on the left.
    pub fn scalar_div(lhs: ScalarVal<T::ScalarT>, rhs: Self) -> (r: Self)
        requires
            T::px_operand_ok(Op::Div, rhs.0),
        ensures
            r.0 == T::sc_px_spec(Op::Div, lhs.0, rhs.0),
    {
        PixelVal(rhs.0.div_sc_px(lhs.0))
    }

    pub fn add_assign(&mut self, rhs: Self)
        ensures
            final(self).0 == T::px_px_spec(Op::Add, old(self).0, rhs.0),
    {
        self.0 = self.0.add_px_px(rhs.0);
    }

    pub fn sub_assign(&mut self, rhs: Self)
        ensures
            final(self).0 == T::px_px_spec(Op::Sub, old(self).0, rhs.0),
    {
        self.0 = self.0.sub_px_px(rhs.0);
    }

    pub fn mul_assign(&mut self, rhs: Self)
        ensures
            final(self).0 == T::px_px_spec(Op::Mul, old(self).0, rhs.0),
    {
        self.0 = self.0.mul_px_px(rhs.0);
    }

    pub fn div_assign(&mut self, rhs: Self)
        requires
            T::px_operand_ok(Op::Div, rhs.0),
        ensures
            final(self).0 == T::px_px_spec(Op::Div, old(self).0, rhs.0),
    {
        self.0 = self.0.div_px_px(rhs.0);
    }

    pub fn add_assign_scalar(&mut self, rhs: ScalarVal<T::ScalarT>)
        ensures
            final(self).0 == T::px_sc_spec(Op::Add, old(self).0, rhs.0),
    {
        self.0 = self.0.add_px_sc(rhs.0);
    }

    pub fn sub_assign_scalar(&mut self, rhs: ScalarVal<T::ScalarT>)
        ensures
            final(self).0 == T::px_sc_spec(Op::Sub, old(self).0, rhs.0),
    {
        self.0 = self.0.sub_px_sc(rhs.0);
    }

    pub fn mul_assign_scalar(&mut self, rhs: ScalarVal<T::ScalarT>)
        ensures
            final(self).0 == T::px_sc_spec(Op::Mul, old(self).0, rhs.0),
    {
        self.0 = self.0.mul_px_sc(rhs.0);
    }

    pub fn div_assign_scalar(&mut self, rhs: ScalarVal<T::ScalarT>)
        requires
            T::sc_operand_ok(Op::Div, rhs.0),
        ensures
            final(self).0 == T::px_sc_spec(Op::Div, old(self).0, rhs.0),
    {
        self.0 = self.0.div_px_sc(rhs.0);
    }
}

} // verus!
