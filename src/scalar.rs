use vstd::prelude::*;

verus! {

/// `s` with the bytes from `at` on replaced by `part`.
pub open spec fn splice(s: Seq<u8>, at: int, part: Seq<u8>) -> Seq<u8> {
    s.subrange(0, at) + part + s.subrange(at + part.len(), s.len() as int)
}

/// One of the four arithmetic operators.
#[derive(Clone, Copy, Debug, PartialEq, Eq, Structural)]
pub enum Op {
    Add,
    Sub,
    Mul,
    Div,
}

/// `a op b` in the arithmetic of `T`.
pub open spec fn op_spec<T: Scalar>(op: Op, a: T, b: T) -> T {
    match op {
        Op::Add => T::add_spec(a, b),
        Op::Sub => T::sub_spec(a, b),
        Op::Mul => T::mul_spec(a, b),
        Op::Div => T::div_spec(a, b),
    }
}

/// Whether `b` may stand on the right of `op`: only division restricts it.
pub open spec fn operand_ok<T: Scalar>(op: Op, b: T) -> bool {
    op != Op::Div || T::divisor_ok(b)
}

/// A numeric sample type: the four arithmetic operators, and a fixed-size
/// little-endian byte encoding.
///
/// The operators behave as the underlying integer type does with wrapping
/// arithmetic; division truncates and needs a non-zero divisor.
pub trait Scalar: Copy + Sized {
    spec fn add_spec(a: Self, b: Self) -> Self;

    spec fn sub_spec(a: Self, b: Self) -> Self;

    spec fn mul_spec(a: Self, b: Self) -> Self;

    spec fn div_spec(a: Self, b: Self) -> Self;

    /// Whether `b` may be used as a divisor.
    spec fn divisor_ok(b: Self) -> bool;

    /// Number of bytes of one encoded value.
    spec fn byte_len() -> nat;

    spec fn encode_spec(v: Self) -> Seq<u8>;

    spec fn decode_spec(b: Seq<u8>) -> Self;

    proof fn lemma_encoding(v: Self)
        ensures
            1 <= Self::byte_len() <= 8,
            Self::encode_spec(v).len() == Self::byte_len(),
            Self::decode_spec(Self::encode_spec(v)) == v,
    ;

    fn byte_size() -> (r: usize)
        ensures
            r == Self::byte_len(),
            1 <= r <= 8,
    ;

    fn add_sc(self, rhs: Self) -> (r: Self)
        ensures
            r == Self::add_spec(self, rhs),
    ;

    fn sub_sc(self, rhs: Self) -> (r: Self)
        ensures
            r == Self::sub_spec(self, rhs),
    ;

    fn mul_sc(self, rhs: Self) -> (r: Self)
        ensures
            r == Self::mul_spec(self, rhs),
    ;

    fn div_sc(self, rhs: Self) -> (r: Self)
        requires
            Self::divisor_ok(rhs),
        ensures
            r == Self::div_spec(self, rhs),
    ;

    /// Reads one value from `bytes` at byte offset `start`.
    fn decode(bytes: &[u8], start: usize) -> (r: Self)
        requires
            start + Self::byte_len() <= bytes@.len(),
        ensures
            r == Self::decode_spec(bytes@.subrange(start as int, start + Self::byte_len())),
    ;

    /// Writes this value into `bytes` at byte offset `start`.
    fn encode(self, bytes: &mut [u8], start: usize)
        requires
            start + Self::byte_len() <= old(bytes)@.len(),
        ensures
            final(bytes)@ == splice(old(bytes)@, start as int, Self::encode_spec(self)),
    ;
}

impl Scalar for u8 {
    open spec fn add_spec(a: u8, b: u8) -> u8 {
        ((a + b) % 256) as u8
    }

    open spec fn sub_spec(a: u8, b: u8) -> u8 {
        ((a + 256 - b) % 256) as u8
    }

    open spec fn mul_spec(a: u8, b: u8) -> u8 {
        ((a * b) % 256) as u8
    }

    open spec fn div_spec(a: u8, b: u8) -> u8 {
        (a / b) as u8
    }

    open spec fn divisor_ok(b: u8) -> bool {
        b != 0
    }

    open spec fn byte_len() -> nat {
        1
    }

    open spec fn encode_spec(v: u8) -> Seq<u8> {
        seq![v]
    }

    open spec fn decode_spec(b: Seq<u8>) -> u8 {
        b[0]
    }

    proof fn lemma_encoding(v: u8) {
    }

    fn byte_size() -> (r: usize) {
        1
    }

    fn add_sc(self, rhs: u8) -> (r: u8) {
        ((self as u16 + rhs as u16) % 256) as u8
    }

    fn sub_sc(self, rhs: u8) -> (r: u8) {
        ((self as u16 + 256 - rhs as u16) % 256) as u8
    }

    fn mul_sc(self, rhs: u8) -> (r: u8) {
        proof {
            assert(self as int * rhs as int <= 255 * 255) by (nonlinear_arith)
                requires
                    self <= 255,
                    rhs <= 255,
            ;
        }
        ((self as u16 * rhs as u16) % 256) as u8
    }

    fn div_sc(self, rhs: u8) -> (r: u8) {
        self / rhs
    }

    fn decode(bytes: &[u8], start: usize) -> (r: u8) {
        bytes[start]
    }

    fn encode(self, bytes: &mut [u8], start: usize) {
        bytes[start] = self;
        assert(bytes@ =~= splice(old(bytes)@, start as int, seq![self]));
    }
}

impl Scalar for u16 {
    open spec fn add_spec(a: u16, b: u16) -> u16 {
        ((a + b) % 65536) as u16
    }

    open spec fn sub_spec(a: u16, b: u16) -> u16 {
        ((a + 65536 - b) % 65536) as u16
    }

    open spec fn mul_spec(a: u16, b: u16) -> u16 {
        ((a * b) % 65536) as u16
    }

    open spec fn div_spec(a: u16, b: u16) -> u16 {
        (a / b) as u16
    }

    open spec fn divisor_ok(b: u16) -> bool {
        b != 0
    }

    open spec fn byte_len() -> nat {
        2
    }

    open spec fn encode_spec(v: u16) -> Seq<u8> {
        seq![(v % 256) as u8, (v / 256) as u8]
    }

    open spec fn decode_spec(b: Seq<u8>) -> u16 {
        (b[0] + 256 * b[1]) as u16
    }

    proof fn lemma_encoding(v: u16) {
        assert(v == v % 256 + 256 * (v / 256));
    }

    fn byte_size() -> (r: usize) {
        2
    }

    fn add_sc(self, rhs: u16) -> (r: u16) {
        ((self as u32 + rhs as u32) % 65536) as u16
    }

    fn sub_sc(self, rhs: u16) -> (r: u16) {
        ((self as u32 + 65536 - rhs as u32) % 65536) as u16
    }

    fn mul_sc(self, rhs: u16) -> (r: u16) {
        proof {
            assert(self as int * rhs as int <= 65535 * 65535) by (nonlinear_arith)
                requires
                    self <= 65535,
                    rhs <= 65535,
            ;
        }
        ((self as u32 * rhs as u32) % 65536) as u16
    }

    fn div_sc(self, rhs: u16) -> (r: u16) {
        self / rhs
    }

    fn decode(bytes: &[u8], start: usize) -> (r: u16) {
        bytes[start] as u16 + 256 * (bytes[start + 1] as u16)
    }

    fn encode(self, bytes: &mut [u8], start: usize) {
        bytes[start] = (self % 256) as u8;
        bytes[start + 1] = (self / 256) as u8;
        assert(bytes@ =~= splice(old(bytes)@, start as int, Self::encode_spec(self)));
    }
}

impl Scalar for u32 {
    open spec fn add_spec(a: u32, b: u32) -> u32 {
        ((a + b) % 0x1_0000_0000) as u32
    }

    open spec fn sub_spec(a: u32, b: u32) -> u32 {
        ((a + 0x1_0000_0000 - b) % 0x1_0000_0000) as u32
    }

    open spec fn mul_spec(a: u32, b: u32) -> u32 {
        ((a * b) % 0x1_0000_0000) as u32
    }

    open spec fn div_spec(a: u32, b: u32) -> u32 {
        (a / b) as u32
    }

    open spec fn divisor_ok(b: u32) -> bool {
        b != 0
    }

    open spec fn byte_len() -> nat {
        4
    }

    open spec fn encode_spec(v: u32) -> Seq<u8> {
        seq![
            (v % 256) as u8,
            ((v / 256) % 256) as u8,
            ((v / 65536) % 256) as u8,
            (v / 16777216) as u8,
        ]
    }

    open spec fn decode_spec(b: Seq<u8>) -> u32 {
        (b[0] + 256 * b[1] + 65536 * b[2] + 16777216 * b[3]) as u32
    }

    proof fn lemma_encoding(v: u32) {
        let q1 = v / 256;
        let q2 = q1 / 256;
        assert(v == v % 256 + 256 * q1);
        assert(q1 == q1 % 256 + 256 * q2);
        assert(q2 == q2 % 256 + 256 * (q2 / 256));
        assert(v / 65536 == q2) by {
            vstd::arithmetic::div_mod::lemma_div_denominator(v as int, 256, 256);
        }
        assert(v / 16777216 == q2 / 256) by {
            vstd::arithmetic::div_mod::lemma_div_denominator(v as int, 65536, 256);
        }
        assert(v == v % 256 + 256 * (q1 % 256) + 65536 * (q2 % 256) + 16777216 * (q2 / 256))
            by (nonlinear_arith)
            requires
                v == v % 256 + 256 * q1,
                q1 == q1 % 256 + 256 * q2,
                q2 == q2 % 256 + 256 * (q2 / 256),
        ;
    }

    fn byte_size() -> (r: usize) {
        4
    }

    fn add_sc(self, rhs: u32) -> (r: u32) {
        ((self as u64 + rhs as u64) % 0x1_0000_0000) as u32
    }

    fn sub_sc(self, rhs: u32) -> (r: u32) {
        ((self as u64 + 0x1_0000_0000 - rhs as u64) % 0x1_0000_0000) as u32
    }

    fn mul_sc(self, rhs: u32) -> (r: u32) {
        proof {
            assert(self as int * rhs as int <= 0xffff_ffff * 0xffff_ffff) by (nonlinear_arith)
                requires
                    self <= 0xffff_ffff,
                    rhs <= 0xffff_ffff,
            ;
        }
        ((self as u64 * rhs as u64) % 0x1_0000_0000) as u32
    }

    fn div_sc(self, rhs: u32) -> (r: u32) {
        self / rhs
    }

    fn decode(bytes: &[u8], start: usize) -> (r: u32) {
        bytes[start] as u32 + 256 * (bytes[start + 1] as u32) + 65536 * (bytes[start + 2] as u32)
            + 16777216 * (bytes[start + 3] as u32)
    }

    fn encode(self, bytes: &mut [u8], start: usize) {
        bytes[start] = (self % 256) as u8;
        bytes[start + 1] = ((self / 256) % 256) as u8;
        bytes[start + 2] = ((self / 65536) % 256) as u8;
        bytes[start + 3] = (self / 16777216) as u8;
        assert(bytes@ =~= splice(old(bytes)@, start as int, Self::encode_spec(self)));
    }
}

/// A scalar value, with the arithmetic of its `Scalar` type as methods.
#[derive(Clone, Copy, Debug, PartialEq)]
pub struct ScalarVal<T: Scalar>(pub T);

impl<T: Scalar> ScalarVal<T> {
    pub fn add(self, rhs: Self) -> (r: Self)
        ensures
            r.0 == T::add_spec(self.0, rhs.0),
    {
        ScalarVal(self.0.add_sc(rhs.0))
    }

    pub fn sub(self, rhs: Self) -> (r: Self)
        ensures
            r.0 == T::sub_spec(self.0, rhs.0),
    {
        ScalarVal(self.0.sub_sc(rhs.0))
    }

    pub fn mul(self, rhs: Self) -> (r: Self)
        ensures
            r.0 == T::mul_spec(self.0, rhs.0),
    {
        ScalarVal(self.0.mul_sc(rhs.0))
    }

    pub fn div(self, rhs: Self) -> (r: Self)
        requires
            T::divisor_ok(rhs.0),
        ensures
            r.0 == T::div_spec(self.0, rhs.0),
    {
        ScalarVal(self.0.div_sc(rhs.0))
    }

    pub fn add_assign(&mut self, rhs: Self)
        ensures
            final(self).0 == T::add_spec(old(self).0, rhs.0),
    {
        self.0 = self.0.add_sc(rhs.0);
    }

    pub fn sub_assign(&mut self, rhs: Self)
        ensures
            final(self).0 == T::sub_spec(old(self).0, rhs.0),
    {
        self.0 = self.0.sub_sc(rhs.0);
    }

    pub fn mul_assign(&mut self, rhs: Self)
        ensures
            final(self).0 == T::mul_spec(old(self).0, rhs.0),
    {
        self.0 = self.0.mul_sc(rhs.0);
    }

    pub fn div_assign(&mut self, rhs: Self)
        requires
            T::divisor_ok(rhs.0),
        ensures
            final(self).0 == T::div_spec(old(self).0, rhs.0),
    {
        self.0 = self.0.div_sc(rhs.0);
    }
}

} // verus!
