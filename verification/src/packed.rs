use vstd::bytes::lemma_auto_spec_u16_to_from_le_bytes;
use vstd::bytes::lemma_auto_spec_u32_to_from_le_bytes;
use vstd::bytes::lemma_auto_spec_u64_to_from_le_bytes;
use vstd::bytes::spec_u16_from_le_bytes;
use vstd::bytes::spec_u16_to_le_bytes;
use vstd::bytes::spec_u32_from_le_bytes;
use vstd::bytes::spec_u32_to_le_bytes;
use vstd::bytes::spec_u64_from_le_bytes;
use vstd::bytes::spec_u64_to_le_bytes;
use vstd::bytes::u16_from_le_bytes;
use vstd::bytes::u16_to_le_bytes;
use vstd::bytes::u32_from_le_bytes;
use vstd::bytes::u32_to_le_bytes;
use vstd::bytes::u64_from_le_bytes;
use vstd::bytes::u64_to_le_bytes;
use vstd::prelude::*;

verus! {

broadcast use vstd::array::group_array_axioms;
// ---------------------------------------------------------------------------
// Decimal text rendering, shared by every packed scalar.
// ---------------------------------------------------------------------------
/// The ASCII byte of one decimal digit.
pub open spec fn decimal_digit(d: nat) -> u8
    recommends
        d < 10,
{
    (48 + d) as u8
}

/// The ASCII bytes of `n` written in decimal, most significant digit first,
/// with no leading zeros (a single `0` for zero).
pub open spec fn decimal_bytes(n: nat) -> Seq<u8>
    decreases n,
{
    if n < 10 {
        seq![decimal_digit(n)]
    } else {
        decimal_bytes(n / 10) + seq![decimal_digit(n % 10)]
    }
}

/// `n` written in decimal, as the characters of the rendered string.
pub open spec fn decimal_chars(n: nat) -> Seq<char> {
    decimal_bytes(n).map(|_i, b: u8| b as char)
}

/// `x` written in decimal with a leading minus sign when negative.
pub open spec fn signed_decimal_chars(x: int) -> Seq<char> {
    if x < 0 {
        seq!['-'] + decimal_chars((-x) as nat)
    } else {
        decimal_chars(x as nat)
    }
}

pub proof fn lemma_decimal_bytes_ascii(n: nat)
    ensures
        forall|i: int|
            0 <= i < decimal_bytes(n).len() ==> 48 <= #[trigger] decimal_bytes(n)[i] <= 57,
    decreases n,
{
    if n < 10 {
        assert(decimal_bytes(n) =~= seq![decimal_digit(n)]);
    } else {
        lemma_decimal_bytes_ascii(n / 10);
        assert forall|i: int|
            0 <= i < decimal_bytes(n).len() implies 48 <= #[trigger] decimal_bytes(n)[i]
            <= 57 by {
            if i < decimal_bytes(n / 10).len() {
                assert(decimal_bytes(n)[i] == decimal_bytes(n / 10)[i]);
            } else {
                assert(decimal_bytes(n)[i] == decimal_digit(n % 10));
            }
        }
    }
}

/// Relies on String::from_utf8: bytes below 128 are valid UTF-8 and decode
/// to the characters with the same code points.
#[verifier::external_body]
pub(crate) fn ascii_vec_to_string(v: Vec<u8>) -> (r: String)
    requires
        forall|i: int| 0 <= i < v@.len() ==> v@[i] < 128,
    ensures
        r@ == v@.map(|_i, b: u8| b as char),
{
    String::from_utf8(v).unwrap()
}

/// Appends the decimal digits of `n` to `out`.
fn push_decimal(n: u64, out: &mut Vec<u8>)
    ensures
        final(out)@ == old(out)@ + decimal_bytes(n as nat),
    decreases n,
{
    if n >= 10 {
        push_decimal(n / 10, out);
    }
    let d: u8 = 48 + (n % 10) as u8;
    out.push(d);
    assert(final(out)@ =~= old(out)@ + decimal_bytes(n as nat));
}

/// Renders `n` as decimal text.
pub fn u64_to_decimal(n: u64) -> (r: String)
    ensures
        r@ == decimal_chars(n as nat),
{
    let mut v: Vec<u8> = Vec::new();
    push_decimal(n, &mut v);
    proof {
        lemma_decimal_bytes_ascii(n as nat);
        assert(v@ =~= decimal_bytes(n as nat));
    }
    ascii_vec_to_string(v)
}

/// Renders `x` as decimal text with a leading minus sign when negative.
pub fn i64_to_decimal(x: i64) -> (r: String)
    ensures
        r@ == signed_decimal_chars(x as int),
{
    let mut v: Vec<u8> = Vec::new();
    if x < 0 {
        v.push(45);
        let m: u64 = (-(x as i128)) as u64;
        push_decimal(m, &mut v);
        proof {
            lemma_decimal_bytes_ascii(m as nat);
            assert(v@ =~= seq![45u8] + decimal_bytes(m as nat));
            assert(v@.map(|_i, b: u8| b as char) =~= signed_decimal_chars(x as int));
        }
        ascii_vec_to_string(v)
    } else {
        let r = u64_to_decimal(x as u64);
        r
    }
}

// ---------------------------------------------------------------------------
// Packed little-endian scalars.
//
// Each type is backed by exactly width/8 raw bytes holding the little-endian
// encoding of the native value, independent of host byte order, so that it
// can sit directly inside a fixed-layout wire record.
// ---------------------------------------------------------------------------
/// A u16 stored as its 2 little-endian bytes.
#[derive(Clone, Copy, PartialEq, Eq, Hash, Debug)]
pub struct U16([u8; 2]);

impl View for U16 {
    type V = Seq<u8>;

    closed spec fn view(&self) -> Seq<u8> {
        self.0@
    }
}

impl U16 {
    /// The native value the bytes encode.
    pub open spec fn value(self) -> u16 {
        spec_u16_from_le_bytes(self@)
    }

    pub open spec fn wf(self) -> bool {
        self@.len() == 2
    }

    /// Encodes a native value; the bytes are exactly its little-endian form.
    pub fn from_native(x: u16) -> (r: U16)
        ensures
            r@ == spec_u16_to_le_bytes(x),
            r.value() == x,
            r.wf(),
    {
        proof {
            lemma_auto_spec_u16_to_from_le_bytes();
        }
        let v = u16_to_le_bytes(x);
        let r = U16([v[0], v[1]]);
        proof {
            assert(r@ =~= v@);
        }
        r
    }

    /// Decodes the bytes back to the native value.
    pub fn to_native(&self) -> (r: u16)
        ensures
            r == self.value(),
    {
        u16_from_le_bytes(self.0.as_slice())
    }

    /// Appends the raw little-endian bytes to `out`.
    pub fn write_to(&self, out: &mut Vec<u8>)
        ensures
            final(out)@ == old(out)@ + self@,
    {
        out.push(self.0[0]);
        out.push(self.0[1]);
        assert(final(out)@ =~= old(out)@ + self@);
    }

    /// Reads 2 bytes starting at `start`.
    pub fn read_from(b: &Vec<u8>, start: usize) -> (r: U16)
        requires
            start + 2 <= b@.len(),
    ensures
            r@ =~= b@.subrange(start as int, start as int + 2),
            r.wf(),
    {
        let n = b.len();
        let r = U16([b[start], b[start + 1]]);
        proof {
            assert(r@ =~= b@.subrange(start as int, start as int + 2));
        }
        r
    }

    /// Renders the native value as decimal text.
    pub fn render(&self) -> (r: String)
        ensures
            r@ == decimal_chars(self.value() as nat),
    {
        u64_to_decimal(self.to_native() as u64)
    }
}

/// Round trip of the u16 codec: decoding an encoded value gives it back,
/// and the encoding is exactly 2 bytes long.
pub proof fn lemma_u16_round_trip(x: u16)
    ensures
        spec_u16_from_le_bytes(spec_u16_to_le_bytes(x)) == x,
        spec_u16_to_le_bytes(x).len() == 2,
{
    lemma_auto_spec_u16_to_from_le_bytes();
}

/// A u32 stored as its 4 little-endian bytes.
#[derive(Clone, Copy, PartialEq, Eq, Hash, Debug)]
pub struct U32([u8; 4]);

impl View for U32 {
    type V = Seq<u8>;

    closed spec fn view(&self) -> Seq<u8> {
        self.0@
    }
}

impl U32 {
    /// The native value the bytes encode.
    pub open spec fn value(self) -> u32 {
        spec_u32_from_le_bytes(self@)
    }

    pub open spec fn wf(self) -> bool {
        self@.len() == 4
    }

    /// Encodes a native value; the bytes are exactly its little-endian form.
    pub fn from_native(x: u32) -> (r: U32)
        ensures
            r@ == spec_u32_to_le_bytes(x),
            r.value() == x,
            r.wf(),
    {
        proof {
            lemma_auto_spec_u32_to_from_le_bytes();
        }
        let v = u32_to_le_bytes(x);
        let r = U32([v[0], v[1], v[2], v[3]]);
        proof {
            assert(r@ =~= v@);
        }
        r
    }

    /// Decodes the bytes back to the native value.
    pub fn to_native(&self) -> (r: u32)
        ensures
            r == self.value(),
    {
        u32_from_le_bytes(self.0.as_slice())
    }

    /// Appends the raw little-endian bytes to `out`.
    pub fn write_to(&self, out: &mut Vec<u8>)
        ensures
            final(out)@ == old(out)@ + self@,
    {
        out.push(self.0[0]);
        out.push(self.0[1]);
        out.push(self.0[2]);
        out.push(self.0[3]);
        assert(final(out)@ =~= old(out)@ + self@);
    }

    /// Reads 4 bytes starting at `start`.
    pub fn read_from(b: &Vec<u8>, start: usize) -> (r: U32)
        requires
            start + 4 <= b@.len(),
        ensures
            r@ =~= b@.subrange(start as int, start as int + 4),
            r.wf(),
    {
        let n = b.len();
        let r = U32([b[start], b[start + 1], b[start + 2], b[start + 3]]);
        proof {
            assert(r@ =~= b@.subrange(start as int, start as int + 4));
        }
        r
    }

    /// Renders the native value as decimal text.
    pub fn render(&self) -> (r: String)
        ensures
            r@ == decimal_chars(self.value() as nat),
    {
        u64_to_decimal(self.to_native() as u64)
    }
}

/// Round trip of the u32 codec: decoding an encoded value gives it back,
/// and the encoding is exactly 4 bytes long.
pub proof fn lemma_u32_round_trip(x: u32)
    ensures
        spec_u32_from_le_bytes(spec_u32_to_le_bytes(x)) == x,
        spec_u32_to_le_bytes(x).len() == 4,
{
    lemma_auto_spec_u32_to_from_le_bytes();
}

/// A u64 stored as its 8 little-endian bytes.
#[derive(Clone, Copy, PartialEq, Eq, Hash, Debug)]
pub struct U64([u8; 8]);

impl View for U64 {
    type V = Seq<u8>;

    closed spec fn view(&self) -> Seq<u8> {
        self.0@
    }
}

impl U64 {
    /// The native value the bytes encode.
    pub open spec fn value(self) -> u64 {
        spec_u64_from_le_bytes(self@)
    }

    pub open spec fn wf(self) -> bool {
        self@.len() == 8
    }

    /// Encodes a native value; the bytes are exactly its little-endian form.
    pub fn from_native(x: u64) -> (r: U64)
        ensures
            r@ == spec_u64_to_le_bytes(x),
            r.value() == x,
            r.wf(),
    {
        proof {
            lemma_auto_spec_u64_to_from_le_bytes();
        }
        let v = u64_to_le_bytes(x);
        let r = U64([v[0], v[1], v[2], v[3], v[4], v[5], v[6], v[7]]);
        proof {
            assert(r@ =~= v@);
        }
        r
    }

    /// Decodes the bytes back to the native value.
    pub fn to_native(&self) -> (r: u64)
        ensures
            r == self.value(),
    {
        u64_from_le_bytes(self.0.as_slice())
    }

    /// Appends the raw little-endian bytes to `out`.
    pub fn write_to(&self, out: &mut Vec<u8>)
        ensures
            final(out)@ == old(out)@ + self@,
    {
        out.push(self.0[0]);
        out.push(self.0[1]);
        out.push(self.0[2]);
        out.push(self.0[3]);
        out.push(self.0[4]);
        out.push(self.0[5]);
        out.push(self.0[6]);
        out.push(self.0[7]);
        assert(final(out)@ =~= old(out)@ + self@);
    }

    /// Reads 8 bytes starting at `start`.
    pub fn read_from(b: &Vec<u8>, start: usize) -> (r: U64)
        requires
            start + 8 <= b@.len(),
        ensures
            r@ =~= b@.subrange(start as int, start as int + 8),
            r.wf(),
    {
        let n = b.len();
        let r = U64(
            [
                b[start],
                b[start + 1],
                b[start + 2],
                b[start + 3],
                b[start + 4],
                b[start + 5],
                b[start + 6],
                b[start + 7],
            ],
        );
        proof {
            assert(r@ =~= b@.subrange(start as int, start as int + 8));
        }
        r
    }

    /// Renders the native value as decimal text.
    pub fn render(&self) -> (r: String)
        ensures
            r@ == decimal_chars(self.value() as nat),
    {
        u64_to_decimal(self.to_native())
    }
}

/// Round trip of the u64 codec: decoding an encoded value gives it back,
/// and the encoding is exactly 8 bytes long.
pub proof fn lemma_u64_round_trip(x: u64)
    ensures
        spec_u64_from_le_bytes(spec_u64_to_le_bytes(x)) == x,
        spec_u64_to_le_bytes(x).len() == 8,
{
    lemma_auto_spec_u64_to_from_le_bytes();
}

// ---------------------------------------------------------------------------
// Signed scalars: stored as the little-endian bytes of the two's-complement
// unsigned image, with no sign extension or padding byte.
// ---------------------------------------------------------------------------
/// The little-endian bytes of an i16.
pub open spec fn spec_i16_to_le_bytes(x: i16) -> Seq<u8> {
    spec_u16_to_le_bytes(x as u16)
}

/// The i16 encoded by 2 little-endian bytes.
pub open spec fn spec_i16_from_le_bytes(s: Seq<u8>) -> i16 {
    spec_u16_from_le_bytes(s) as i16
}

/// The little-endian bytes of an i32.
pub open spec fn spec_i32_to_le_bytes(x: i32) -> Seq<u8> {
    spec_u32_to_le_bytes(x as u32)
}

/// The i32 encoded by 4 little-endian bytes.
pub open spec fn spec_i32_from_le_bytes(s: Seq<u8>) -> i32 {
    spec_u32_from_le_bytes(s) as i32
}

/// The little-endian bytes of an i64.
pub open spec fn spec_i64_to_le_bytes(x: i64) -> Seq<u8> {
    spec_u64_to_le_bytes(x as u64)
}

/// The i64 encoded by 8 little-endian bytes.
pub open spec fn spec_i64_from_le_bytes(s: Seq<u8>) -> i64 {
    spec_u64_from_le_bytes(s) as i64
}

/// An i16 stored as its 2 little-endian bytes.
#[derive(Clone, Copy, PartialEq, Eq, Hash, Debug)]
pub struct I16(U16);

impl View for I16 {
    type V = Seq<u8>;

    closed spec fn view(&self) -> Seq<u8> {
        self.0@
    }
}

impl I16 {
    /// The native value the bytes encode.
    pub open spec fn value(self) -> i16 {
        spec_i16_from_le_bytes(self@)
    }

    pub open spec fn wf(self) -> bool {
        self@.len() == 2
    }

    /// Encodes a native value; the bytes are exactly its little-endian form.
    pub fn from_native(x: i16) -> (r: I16)
        ensures
            r@ == spec_i16_to_le_bytes(x),
            r.value() == x,
            r.wf(),
    {
        let r = I16(U16::from_native(x as u16));
        proof {
            assert(x as u16 as i16 == x) by (bit_vector);
        }
        r
    }

    /// Decodes the bytes back to the native value.
    pub fn to_native(&self) -> (r: i16)
        ensures
            r == self.value(),
    {
        self.0.to_native() as i16
    }

    /// Appends the raw little-endian bytes to `out`.
    pub fn write_to(&self, out: &mut Vec<u8>)
        ensures
            final(out)@ == old(out)@ + self@,
    {
        self.0.write_to(out);
    }

    /// Reads 2 bytes starting at `start`.
    pub fn read_from(b: &Vec<u8>, start: usize) -> (r: I16)
        requires
            start + 2 <= b@.len(),
        ensures
            r@ =~= b@.subrange(start as int, start as int + 2),
            r.wf(),
    {
        I16(U16::read_from(b, start))
    }

    /// Renders the native value as decimal text.
    pub fn render(&self) -> (r: String)
        ensures
            r@ == signed_decimal_chars(self.value() as int),
    {
        i64_to_decimal(self.to_native() as i64)
    }
}

/// Round trip of the i16 codec: decoding an encoded value gives it back,
/// and the encoding is exactly 2 bytes long.
pub proof fn lemma_i16_round_trip(x: i16)
    ensures
        spec_i16_from_le_bytes(spec_i16_to_le_bytes(x)) == x,
        spec_i16_to_le_bytes(x).len() == 2,
{
    lemma_auto_spec_u16_to_from_le_bytes();
    assert(x as u16 as i16 == x) by (bit_vector);
}

/// An i32 stored as its 4 little-endian bytes.
#[derive(Clone, Copy, PartialEq, Eq, Hash, Debug)]
pub struct I32(U32);

impl View for I32 {
    type V = Seq<u8>;

    closed spec fn view(&self) -> Seq<u8> {
        self.0@
    }
}

impl I32 {
    /// The native value the bytes encode.
    pub open spec fn value(self) -> i32 {
        spec_i32_from_le_bytes(self@)
    }

    pub open spec fn wf(self) -> bool {
        self@.len() == 4
    }

    /// Encodes a native value; the bytes are exactly its little-endian form.
    pub fn from_native(x: i32) -> (r: I32)
        ensures
            r@ == spec_i32_to_le_bytes(x),
            r.value() == x,
            r.wf(),
    {
        let r = I32(U32::from_native(x as u32));
        proof {
            assert(x as u32 as i32 == x) by (bit_vector);
        }
        r
    }

    /// Decodes the bytes back to the native value.
    pub fn to_native(&self) -> (r: i32)
        ensures
            r == self.value(),
    {
        self.0.to_native() as i32
    }

    /// Appends the raw little-endian bytes to `out`.
    pub fn write_to(&self, out: &mut Vec<u8>)
        ensures
            final(out)@ == old(out)@ + self@,
    {
        self.0.write_to(out);
    }

    /// Reads 4 bytes starting at `start`.
    pub fn read_from(b: &Vec<u8>, start: usize) -> (r: I32)
        requires
            start + 4 <= b@.len(),
        ensures
            r@ =~= b@.subrange(start as int, start as int + 4),
            r.wf(),
    {
        I32(U32::read_from(b, start))
    }

    /// Renders the native value as decimal text.
    pub fn render(&self) -> (r: String)
        ensures
            r@ == signed_decimal_chars(self.value() as int),
    {
        i64_to_decimal(self.to_native() as i64)
    }
}

/// Round trip of the i32 codec: decoding an encoded value gives it back,
/// and the encoding is exactly 4 bytes long.
pub proof fn lemma_i32_round_trip(x: i32)
    ensures
        spec_i32_from_le_bytes(spec_i32_to_le_bytes(x)) == x,
        spec_i32_to_le_bytes(x).len() == 4,
{
    lemma_auto_spec_u32_to_from_le_bytes();
    assert(x as u32 as i32 == x) by (bit_vector);
}

/// An i64 stored as its 8 little-endian bytes.
#[derive(Clone, Copy, PartialEq, Eq, Hash, Debug)]
pub struct I64(U64);

impl View for I64 {
    type V = Seq<u8>;

    closed spec fn view(&self) -> Seq<u8> {
        self.0@
    }
}

impl I64 {
    /// The native value the bytes encode.
    pub open spec fn value(self) -> i64 {
        spec_i64_from_le_bytes(self@)
    }

    pub open spec fn wf(self) -> bool {
        self@.len() == 8
    }

    /// Encodes a native value; the bytes are exactly its little-endian form.
    pub fn from_native(x: i64) -> (r: I64)
        ensures
            r@ == spec_i64_to_le_bytes(x),
            r.value() == x,
            r.wf(),
    {
        let r = I64(U64::from_native(x as u64));
        proof {
            assert(x as u64 as i64 == x) by (bit_vector);
        }
        r
    }

    /// Decodes the bytes back to the native value.
    pub fn to_native(&self) -> (r: i64)
        ensures
            r == self.value(),
    {
        self.0.to_native() as i64
    }

    /// Appends the raw little-endian bytes to `out`.
    pub fn write_to(&self, out: &mut Vec<u8>)
        ensures
            final(out)@ == old(out)@ + self@,
    {
        self.0.write_to(out);
    }

    /// Reads 8 bytes starting at `start`.
    pub fn read_from(b: &Vec<u8>, start: usize) -> (r: I64)
        requires
            start + 8 <= b@.len(),
        ensures
            r@ =~= b@.subrange(start as int, start as int + 8),
            r.wf(),
    {
        I64(U64::read_from(b, start))
    }

    /// Renders the native value as decimal text.
    pub fn render(&self) -> (r: String)
        ensures
            r@ == signed_decimal_chars(self.value() as int),
    {
        i64_to_decimal(self.to_native())
    }
}

/// Round trip of the i64 codec: decoding an encoded value gives it back,
/// and the encoding is exactly 8 bytes long.
pub proof fn lemma_i64_round_trip(x: i64)
    ensures
        spec_i64_from_le_bytes(spec_i64_to_le_bytes(x)) == x,
        spec_i64_to_le_bytes(x).len() == 8,
{
    lemma_auto_spec_u64_to_from_le_bytes();
    assert(x as u64 as i64 == x) by (bit_vector);
}


/// The backing byte count of each packed scalar is fixed by its type.
pub broadcast proof fn lemma_u16_byte_len(x: U16)
    ensures
        (#[trigger] x@).len() == 2,
{
}

pub broadcast proof fn lemma_u32_byte_len(x: U32)
    ensures
        (#[trigger] x@).len() == 4,
{
}

pub broadcast proof fn lemma_u64_byte_len(x: U64)
    ensures
        (#[trigger] x@).len() == 8,
{
}

pub broadcast proof fn lemma_i16_byte_len(x: I16)
    ensures
        (#[trigger] x@).len() == 2,
{
}

pub broadcast proof fn lemma_i32_byte_len(x: I32)
    ensures
        (#[trigger] x@).len() == 4,
{
}

pub broadcast proof fn lemma_i64_byte_len(x: I64)
    ensures
        (#[trigger] x@).len() == 8,
{
}


/// Encoding the i64 that 8 bytes decode to gives back the same bytes.
pub proof fn lemma_i64_bytes_round(s: Seq<u8>)
    requires
        s.len() == 8,
    ensures
        spec_i64_to_le_bytes(spec_i64_from_le_bytes(s)) == s,
{
    lemma_auto_spec_u64_to_from_le_bytes();
    let x = spec_u64_from_le_bytes(s);
    assert(x as i64 as u64 == x) by (bit_vector);
}

/// Every packed scalar length fact, for broadcast use.
pub broadcast group group_packed_len_axioms {
    lemma_u16_byte_len,
    lemma_u32_byte_len,
    lemma_u64_byte_len,
    lemma_i16_byte_len,
    lemma_i32_byte_len,
    lemma_i64_byte_len,
}

} // verus!
