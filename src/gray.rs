use vstd::prelude::*;

use crate::px::{Pixel, PixelArithmetic, PixelVal, buffer_size, bytes_at, offset_of, sample_start};
use crate::scalar::{Op, Scalar, ScalarVal, op_spec, operand_ok, splice};

verus! {

/// A grayscale pixel: one intensity value of scalar type `T`.
#[derive(Clone, Copy, Debug, PartialEq)]
pub struct Gray<T: Scalar> {
    pub intensity: T,
}

impl<T: Scalar> Pixel for Gray<T> {
    open spec fn sample_len() -> nat {
        T::byte_len()
    }

    open spec fn decode_spec(b: Seq<u8>) -> Gray<T> {
        Gray { intensity: T::decode_spec(b) }
    }

    open spec fn encode_spec(v: Gray<T>) -> Seq<u8> {
        T::encode_spec(v.intensity)
    }

    proof fn lemma_encoding(v: Gray<T>) {
        T::lemma_encoding(v.intensity);
    }

    fn calc_minimum_pitch(width: u32, _height: u32) -> (r: usize) {
        width as usize * T::byte_size()
    }

    fn calc_size_in_bytes(width: u32, height: u32, pitch: u32) -> (r: Option<usize>) {
        let n = T::byte_size();
        proof {
            assert(width * n <= 0xffff_ffff * 8) by (nonlinear_arith)
                requires
                    width <= 0xffff_ffff,
                    n <= 8,
            ;
        }
        let min_pitch = width as u64 * n as u64;
        if pitch as u64 >= min_pitch {
            proof {
                assert(height * pitch <= 0xffff_ffff * 0xffff_ffff) by (nonlinear_arith)
                    requires
                        height <= 0xffff_ffff,
                        pitch <= 0xffff_ffff,
                ;
            }
            let size = height as u64 * pitch as u64;
            if size <= usize::MAX as u64 {
                Some(size as usize)
            } else {
                None
            }
        } else {
            None
        }
    }

    fn load_from_raw_buffer(x: u32, y: u32, pitch: u32, buffer: &[u8]) -> (r: Gray<T>) {
        let start = sample_start(x, y, pitch, T::byte_size(), buffer.len());
        Gray { intensity: T::decode(buffer, start) }
    }

    fn write_into_raw_buffer(&self, x: u32, y: u32, pitch: u32, buffer: &mut [u8]) {
        let start = sample_start(x, y, pitch, T::byte_size(), buffer.len());
        self.intensity.encode(buffer, start);
    }
}

impl<T: Scalar> PixelArithmetic for Gray<T> {
    type ScalarT = T;

    open spec fn px_px_spec(op: Op, a: Gray<T>, b: Gray<T>) -> Gray<T> {
        Gray { intensity: op_spec(op, a.intensity, b.intensity) }
    }

    open spec fn px_sc_spec(op: Op, a: Gray<T>, s: T) -> Gray<T> {
        Gray { intensity: op_spec(op, a.intensity, s) }
    }

    open spec fn sc_px_spec(op: Op, s: T, a: Gray<T>) -> Gray<T> {
        Gray { intensity: op_spec(op, s, a.intensity) }
    }

    open spec fn px_operand_ok(op: Op, b: Gray<T>) -> bool {
        operand_ok(op, b.intensity)
    }

    open spec fn sc_operand_ok(op: Op, s: T) -> bool {
        operand_ok(op, s)
    }

    fn add_px_px(self, rhs: Gray<T>) -> (r: Gray<T>) {
        Gray { intensity: self.intensity.add_sc(rhs.intensity) }
    }

    fn sub_px_px(self, rhs: Gray<T>) -> (r: Gray<T>) {
        Gray { intensity: self.intensity.sub_sc(rhs.intensity) }
    }

    fn mul_px_px(self, rhs: Gray<T>) -> (r: Gray<T>) {
        Gray { intensity: self.intensity.mul_sc(rhs.intensity) }
    }

    fn div_px_px(self, rhs: Gray<T>) -> (r: Gray<T>) {
        Gray { intensity: self.intensity.div_sc(rhs.intensity) }
    }

    fn add_px_sc(self, rhs: T) -> (r: Gray<T>) {
        Gray { intensity: self.intensity.add_sc(rhs) }
    }

    fn sub_px_sc(self, rhs: T) -> (r: Gray<T>) {
        Gray { intensity: self.intensity.sub_sc(rhs) }
    }

    fn mul_px_sc(self, rhs: T) -> (r: Gray<T>) {
        Gray { intensity: self.intensity.mul_sc(rhs) }
    }

    fn div_px_sc(self, rhs: T) -> (r: Gray<T>) {
        Gray { intensity: self.intensity.div_sc(rhs) }
    }

    fn add_sc_px(self, lhs: T) -> (r: Gray<T>) {
        Gray { intensity: lhs.add_sc(self.intensity) }
    }

    fn sub_sc_px(self, lhs: T) -> (r: Gray<T>) {
        Gray { intensity: lhs.sub_sc(self.intensity) }
    }

    fn mul_sc_px(self, lhs: T) -> (r: Gray<T>) {
        Gray { intensity: lhs.mul_sc(self.intensity) }
    }

    fn div_sc_px(self, lhs: T) -> (r: Gray<T>) {
        Gray { intensity: lhs.div_sc(self.intensity) }
    }
}

/// A grayscale pixel value.
pub type GrayVal<T> = PixelVal<Gray<T>>;

pub type Gray8U = Gray<u8>;

pub type Gray16U = Gray<u16>;

pub type Gray32U = Gray<u32>;

pub type GrayVal8U = GrayVal<u8>;

pub type GrayVal16U = GrayVal<u16>;

pub type GrayVal32U = GrayVal<u32>;

impl<T: Scalar> PixelVal<Gray<T>> {
    /// A grayscale pixel of the given intensity.
    pub fn new(intensity: ScalarVal<T>) -> (r: Self)
        ensures
            r.0.intensity == intensity.0,
    {
        PixelVal(Gray { intensity: intensity.0 })
    }

    pub fn intensity(&self) -> (r: ScalarVal<T>)
        ensures
            r.0 == self.0.intensity,
    {
        ScalarVal(self.0.intensity)
    }

    pub fn set_intensity(&mut self, intensity: ScalarVal<T>)
        ensures
            final(self).0.intensity == intensity.0,
    {
        self.0.intensity = intensity.0;
    }
}

} // verus!
