use vstd::prelude::*;

use std::marker::PhantomData;

use crate::px::{
    Pixel, PixelVal, buffer_size, bytes_at, min_pitch_spec, offset_of, read_sample, size_spec,
    write_sample,
};
use crate::scalar::splice;

verus! {

/// Every sample of an in-bounds location ends within the `height` rows of
/// `pitch` bytes, when a row holds `width` samples of `n` bytes.
pub proof fn lemma_sample_in_bounds(x: u32, y: u32, width: u32, height: u32, pitch: u32, n: nat)
    requires
        x < width,
        y < height,
        pitch >= width * n,
    ensures
        0 <= offset_of(x, y, pitch, n),
        offset_of(x, y, pitch, n) + n <= height * pitch,
{
    assert((x + 1) * n <= width * n) by (nonlinear_arith)
        requires
            x + 1 <= width,
    ;
    assert((y + 1) * pitch <= height * pitch) by (nonlinear_arith)
        requires
            y + 1 <= height,
    ;
    assert(x * n + n == (x + 1) * n) by (nonlinear_arith);
    assert(y * pitch + pitch == (y + 1) * pitch) by (nonlinear_arith);
    assert(0 <= x * n && 0 <= y * pitch) by (nonlinear_arith);
}

/// Samples at in-bounds locations are laid out in row-major order without
/// overlap: a location before another ends where or before the other starts.
pub proof fn lemma_sample_before(x: u32, y: u32, x2: u32, y2: u32, width: u32, pitch: u32, n: nat)
    requires
        x < width,
        x2 < width,
        pitch >= width * n,
        y < y2 || (y == y2 && x < x2),
    ensures
        offset_of(x, y, pitch, n) + n <= offset_of(x2, y2, pitch, n),
{
    assert(x * n + n == (x + 1) * n) by (nonlinear_arith);
    assert((x + 1) * n <= width * n) by (nonlinear_arith)
        requires
            x + 1 <= width,
    ;
    assert(0 <= x2 * n) by (nonlinear_arith);
    if y < y2 {
        assert(y * pitch + pitch <= y2 * pitch) by (nonlinear_arith)
            requires
                y + 1 <= y2,
        ;
    } else {
        assert((x + 1) * n <= x2 * n) by (nonlinear_arith)
            requires
                x + 1 <= x2,
        ;
    }
}

/// Replacing `part` inside `s` keeps the length, puts `part` where it was
/// placed, and leaves every range beside it as it was.
pub proof fn lemma_splice(s: Seq<u8>, at: int, part: Seq<u8>, lo: int, hi: int)
    requires
        0 <= at,
        at + part.len() <= s.len(),
        0 <= lo <= hi <= s.len(),
    ensures
        splice(s, at, part).len() == s.len(),
        splice(s, at, part).subrange(at, at + part.len()) == part,
        hi <= at || at + part.len() <= lo ==> splice(s, at, part).subrange(lo, hi) == s.subrange(
            lo,
            hi,
        ),
{
    let t = splice(s, at, part);
    assert(t.subrange(at, at + part.len()) =~= part);
    if hi <= at || at + part.len() <= lo {
        assert(t.subrange(lo, hi) =~= s.subrange(lo, hi));
    }
}

/// Writing a pixel at an in-bounds location changes the pixel read there to
/// the value written and leaves every other in-bounds pixel as it was.
pub proof fn lemma_write_then_read<P: Pixel>(
    data: Seq<u8>,
    width: u32,
    height: u32,
    pitch: u32,
    x: u32,
    y: u32,
    v: P,
    x2: u32,
    y2: u32,
)
    requires
        pitch >= width * P::sample_len(),
        data.len() == height * pitch,
        x < width,
        y < height,
        x2 < width,
        y2 < height,
    ensures
        write_sample(v, x, y, pitch, data).len() == data.len(),
        read_sample::<P>(x2, y2, pitch, write_sample(v, x, y, pitch, data)) == if x2 == x && y2
            == y {
            v
        } else {
            read_sample::<P>(x2, y2, pitch, data)
        },
{
    let n = P::sample_len();
    P::lemma_encoding(v);
    lemma_sample_in_bounds(x, y, width, height, pitch, n);
    lemma_sample_in_bounds(x2, y2, width, height, pitch, n);
    let o2 = offset_of(x2, y2, pitch, n);
    if !(x2 == x && y2 == y) {
        if y < y2 || (y == y2 && x < x2) {
            lemma_sample_before(x, y, x2, y2, width, pitch, n);
        } else {
            lemma_sample_before(x2, y2, x, y, width, pitch, n);
        }
    }
    lemma_splice(data, offset_of(x, y, pitch, n), P::encode_spec(v), o2, o2 + n);
}

/// A two-dimensional grid of pixels of type `PixelT`, stored row by row in a
/// byte buffer of `height` rows of `pitch` bytes.
pub trait Image: Sized {
    type PixelT: Pixel;

    spec fn width_spec(&self) -> u32;

    spec fn height_spec(&self) -> u32;

    spec fn pitch_spec(&self) -> u32;

    /// The image's bytes.
    spec fn data_spec(&self) -> Seq<u8>;

    spec fn well_formed(&self) -> bool;

    proof fn lemma_geometry(&self)
        requires
            self.well_formed(),
        ensures
            self.pitch_spec() >= self.width_spec() * <Self::PixelT as Pixel>::sample_len(),
            self.data_spec().len() == self.height_spec() * self.pitch_spec(),
            self.data_spec().len() <= usize::MAX,
    ;

    fn width(&self) -> (r: u32)
        ensures
            r == self.width_spec(),
    ;

    fn height(&self) -> (r: u32)
        ensures
            r == self.height_spec(),
    ;

    fn pitch(&self) -> (r: u32)
        ensures
            r == self.pitch_spec(),
    ;

    /// The pixel at (`x`, `y`), or `None` where the location is out of bounds.
    fn get_pixel(&self, x: u32, y: u32) -> (r: Option<Self::PixelT>)
        requires
            self.well_formed(),
        ensures
            r == if x < self.width_spec() && y < self.height_spec() {
                Some(
                    <Self::PixelT as Pixel>::decode_spec(
                        bytes_at(
                            x,
                            y,
                            self.pitch_spec(),
                            <Self::PixelT as Pixel>::sample_len(),
                            self.data_spec(),
                        ),
                    ),
                )
            } else {
                None
            },
    ;

    /// Stores `value` at the in-bounds location (`x`, `y`).
    fn set_pixel(&mut self, x: u32, y: u32, value: Self::PixelT)
        requires
            old(self).well_formed(),
            x < old(self).width_spec(),
            y < old(self).height_spec(),
        ensures
            final(self).well_formed(),
            final(self).width_spec() == old(self).width_spec(),
            final(self).height_spec() == old(self).height_spec(),
            final(self).pitch_spec() == old(self).pitch_spec(),
            final(self).data_spec() == splice(
                old(self).data_spec(),
                offset_of(x, y, old(self).pitch_spec(), <Self::PixelT as Pixel>::sample_len()),
                <Self::PixelT as Pixel>::encode_spec(value),
            ),
    ;

    /// Size of the image's buffer in bytes.
    fn get_size_in_bytes(&self) -> (r: usize)
        requires
            self.well_formed(),
        ensures
            r == self.data_spec().len(),
            r == self.height_spec() * self.pitch_spec(),
    ;

    /// Replaces the image's bytes by `buffer`, which must have the image's size.
    fn load_from_raw_buffer(&mut self, buffer: &[u8])
        requires
            old(self).well_formed(),
            buffer@.len() == old(self).data_spec().len(),
        ensures
            final(self).well_formed(),
            final(self).width_spec() == old(self).width_spec(),
            final(self).height_spec() == old(self).height_spec(),
            final(self).pitch_spec() == old(self).pitch_spec(),
            final(self).data_spec() == buffer@,
    ;

    /// Copies the image's bytes into `buffer`, which must have the image's size.
    fn write_into_raw_buffer(&self, buffer: &mut [u8])
        requires
            self.well_formed(),
            old(buffer)@.len() == self.data_spec().len(),
        ensures
            final(buffer)@ == self.data_spec(),
    ;
}

/// An owned image: geometry and one zero-initialised byte buffer.
pub struct ImageBuffer<P: Pixel> {
    width: u32,
    height: u32,
    pitch: u32,
    raw_data: Vec<u8>,
    _marker: PhantomData<P>,
}

impl<P: Pixel> Clone for ImageBuffer<P> {
    /// A copy with a buffer of its own.
    fn clone(&self) -> (r: Self)
        ensures
            r.width_spec() == self.width_spec(),
            r.height_spec() == self.height_spec(),
            r.pitch_spec() == self.pitch_spec(),
            r.data_spec() == self.data_spec(),
            self.well_formed() ==> r.well_formed(),
    {
        let raw_data = vstd::slice::slice_to_vec(self.raw_data.as_slice());
        ImageBuffer {
            width: self.width,
            height: self.height,
            pitch: self.pitch,
            raw_data,
            _marker: PhantomData,
        }
    }
}

impl<P: Pixel> Image for ImageBuffer<P> {
    type PixelT = P;

    closed spec fn width_spec(&self) -> u32 {
        self.width
    }

    closed spec fn height_spec(&self) -> u32 {
        self.height
    }

    closed spec fn pitch_spec(&self) -> u32 {
        self.pitch
    }

    closed spec fn data_spec(&self) -> Seq<u8> {
        self.raw_data@
    }

    closed spec fn well_formed(&self) -> bool {
        &&& self.pitch >= self.width * P::sample_len()
        &&& self.raw_data@.len() == self.height * self.pitch
        &&& self.raw_data@.len() <= usize::MAX
    }

    proof fn lemma_geometry(&self) {
    }

    fn width(&self) -> (r: u32) {
        self.width
    }

    fn height(&self) -> (r: u32) {
        self.height
    }

    fn pitch(&self) -> (r: u32) {
        self.pitch
    }

    fn get_pixel(&self, x: u32, y: u32) -> (r: Option<P>) {
        if x < self.width && y < self.height {
            proof {
                lemma_sample_in_bounds(x, y, self.width, self.height, self.pitch, P::sample_len());
            }
            Some(P::load_from_raw_buffer(x, y, self.pitch, self.raw_data.as_slice()))
        } else {
            None
        }
    }

    fn set_pixel(&mut self, x: u32, y: u32, value: P) {
        proof {
            lemma_sample_in_bounds(x, y, self.width, self.height, self.pitch, P::sample_len());
            P::lemma_encoding(value);
        }
        let pitch = self.pitch;
        value.write_into_raw_buffer(x, y, pitch, self.raw_data.as_mut_slice());
    }

    fn get_size_in_bytes(&self) -> (r: usize) {
        let len = self.raw_data.len();
        match P::calc_size_in_bytes(self.width, self.height, self.pitch) {
            Some(size) => size,
            None => len,
        }
    }

    fn load_from_raw_buffer(&mut self, buffer: &[u8]) {
        self.raw_data = vstd::slice::slice_to_vec(buffer);
    }

    fn write_into_raw_buffer(&self, buffer: &mut [u8]) {
        let n = self.raw_data.len();
        let mut i: usize = 0;
        while i < n
            invariant
                n == self.raw_data@.len(),
                buffer@.len() == n,
                i <= n,
                forall|j: int| 0 <= j < i ==> buffer@[j] == self.raw_data@[j],
            decreases n - i,
        {
            buffer[i] = self.raw_data[i];
            i = i + 1;
        }
        assert(buffer@ =~= self.raw_data@);
    }
}

/// An image value, with pixel access and elementwise arithmetic as methods.
#[derive(Clone)]
pub struct ImageVal<I: Image>(pub I);

/// An owned image buffer value.
pub type ImageBufferVal<P> = ImageVal<ImageBuffer<P>>;

impl<I: Image> ImageVal<I> {
    pub open spec fn wf(&self) -> bool {
        self.0.well_formed()
    }

    pub open spec fn width_spec(&self) -> u32 {
        self.0.width_spec()
    }

    pub open spec fn height_spec(&self) -> u32 {
        self.0.height_spec()
    }

    pub open spec fn pitch_spec(&self) -> u32 {
        self.0.pitch_spec()
    }

    pub open spec fn data_spec(&self) -> Seq<u8> {
        self.0.data_spec()
    }

    /// Whether (`x`, `y`) lies inside the image.
    pub open spec fn in_bounds(&self, x: u32, y: u32) -> bool {
        x < self.width_spec() && y < self.height_spec()
    }

    /// The pixel that the image's bytes hold at (`x`, `y`).
    pub open spec fn pixel_at(&self, x: u32, y: u32) -> I::PixelT {
        read_sample::<I::PixelT>(x, y, self.pitch_spec(), self.data_spec())
    }

    /// Whether `other` has the same width, height and pitch.
    pub open spec fn same_geometry(&self, other: &Self) -> bool {
        &&& other.width_spec() == self.width_spec()
        &&& other.height_spec() == self.height_spec()
        &&& other.pitch_spec() == self.pitch_spec()
    }

    pub fn get_size_in_bytes(&self) -> (r: usize)
        requires
            self.wf(),
        ensures
            r == self.data_spec().len(),
            r == self.height_spec() * self.pitch_spec(),
    {
        self.0.get_size_in_bytes()
    }

    pub fn load_from_raw_buffer(&mut self, buffer: &[u8])
        requires
            old(self).wf(),
            buffer@.len() == old(self).data_spec().len(),
        ensures
            final(self).wf(),
            old(self).same_geometry(final(self)),
            final(self).data_spec() == buffer@,
    {
        self.0.load_from_raw_buffer(buffer)
    }

    pub fn write_into_raw_buffer(&self, buffer: &mut [u8])
        requires
            self.wf(),
            old(buffer)@.len() == self.data_spec().len(),
        ensures
            final(buffer)@ == self.data_spec(),
    {
        self.0.write_into_raw_buffer(buffer)
    }

    pub fn width(&self) -> (r: u32)
        ensures
            r == self.width_spec(),
    {
        self.0.width()
    }

    pub fn height(&self) -> (r: u32)
        ensures
            r == self.height_spec(),
    {
        self.0.height()
    }

    pub fn pitch(&self) -> (r: u32)
        ensures
            r == self.pitch_spec(),
    {
        self.0.pitch()
    }

    /// The pixel at (`x`, `y`), or `None` where the location is out of bounds.
    pub fn get_pixel(&self, x: u32, y: u32) -> (r: Option<PixelVal<I::PixelT>>)
        requires
            self.wf(),
        ensures
            r == if self.in_bounds(x, y) {
                Some(PixelVal(self.pixel_at(x, y)))
            } else {
                None
            },
    {
        match self.0.get_pixel(x, y) {
            Some(v) => Some(PixelVal(v)),
            None => None,
        }
    }

    /// Stores `value` at (`x`, `y`); the location must be in bounds.
    pub fn set_pixel(&mut self, x: u32, y: u32, value: PixelVal<I::PixelT>)
        requires
            old(self).wf(),
            old(self).in_bounds(x, y),
        ensures
            final(self).wf(),
            old(self).same_geometry(final(self)),
            final(self).data_spec() == write_sample(
                value.0,
                x,
                y,
                old(self).pitch_spec(),
                old(self).data_spec(),
            ),
    {
        self.0.set_pixel(x, y, value.0)
    }
}

/// Setting the pixel at an in-bounds location and then reading that location
/// gives the value set; every other location keeps its pixel.
pub proof fn lemma_set_then_get<I: Image>(
    before: ImageVal<I>,
    after: ImageVal<I>,
    x: u32,
    y: u32,
    value: PixelVal<I::PixelT>,
)
    requires
        before.wf(),
        before.in_bounds(x, y),
        after.wf(),
        before.same_geometry(&after),
        after.data_spec() == write_sample(value.0, x, y, before.pitch_spec(), before.data_spec()),
    ensures
        after.pixel_at(x, y) == value.0,
        forall|x2: u32, y2: u32| #[trigger]
            before.in_bounds(x2, y2) && !(x2 == x && y2 == y) ==> after.pixel_at(x2, y2)
                == before.pixel_at(x2, y2),
{
    before.0.lemma_geometry();
    let w = before.width_spec();
    let h = before.height_spec();
    let p = before.pitch_spec();
    lemma_write_then_read::<I::PixelT>(before.data_spec(), w, h, p, x, y, value.0, x, y);
    assert forall|x2: u32, y2: u32| #[trigger]
        before.in_bounds(x2, y2) && !(x2 == x && y2 == y) implies after.pixel_at(x2, y2)
        == before.pixel_at(x2, y2) by {
        lemma_write_then_read::<I::PixelT>(before.data_spec(), w, h, p, x, y, value.0, x2, y2);
    }
}

/// Loading a buffer into an image and then writing the image out gives the
/// buffer back.
pub proof fn lemma_load_then_write<I: Image>(
    before: ImageVal<I>,
    loaded: ImageVal<I>,
    b: Seq<u8>,
    b2: Seq<u8>,
)
    requires
        before.wf(),
        b.len() == before.data_spec().len(),
        loaded.wf(),
        before.same_geometry(&loaded),
        loaded.data_spec() == b,
        b2 == loaded.data_spec(),
    ensures
        b2 == b,
        b2.len() == before.height_spec() * before.pitch_spec(),
{
    before.0.lemma_geometry();
}

impl<P: Pixel> ImageVal<ImageBuffer<P>> {
    /// A zero-filled image whose pitch is the minimum pitch for `width`.
    pub fn new_with_size(width: u32, height: u32) -> (r: Self)
        requires
            min_pitch_spec::<P>(width) <= u32::MAX,
            size_spec::<P>(width, height, min_pitch_spec::<P>(width) as u32) is Some,
        ensures
            r.wf(),
            r.width_spec() == width,
            r.height_spec() == height,
            r.pitch_spec() == min_pitch_spec::<P>(width),
            r.data_spec() == Seq::new(r.data_spec().len(), |i: int| 0u8),
    {
        let pitch = P::calc_minimum_pitch(width, height);
        Self::new_with_size_and_pitch(width, height, pitch as u32)
    }

    /// A zero-filled image of the given geometry, which must be valid for `P`.
    pub fn new_with_size_and_pitch(width: u32, height: u32, pitch: u32) -> (r: Self)
        requires
            size_spec::<P>(width, height, pitch) is Some,
        ensures
            r.wf(),
            r.width_spec() == width,
            r.height_spec() == height,
            r.pitch_spec() == pitch,
            r.data_spec() == Seq::new(r.data_spec().len(), |i: int| 0u8),
    {
        let size = P::calc_size_in_bytes(width, height, pitch).unwrap();
        let data = vec![0u8; size];
        proof {
            assert(data@ =~= Seq::new(data@.len(), |i: int| 0u8));
        }
        ImageVal(ImageBuffer { width, height, pitch, raw_data: data, _marker: PhantomData })
    }
}

} // verus!
