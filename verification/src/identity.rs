use crate::errors::WireError;
use vstd::bytes::spec_u64_from_le_bytes;
use vstd::bytes::spec_u64_to_le_bytes;
use vstd::bytes::u64_from_le_bytes;
use vstd::prelude::*;
use vstd::string::StringSliceAdditionalSpecFns;

verus! {

broadcast use vstd::array::group_array_axioms;
// ---------------------------------------------------------------------------
// 32-byte public-key identity.
//
// The canonical text form is 60 upper-case letters: 56 letters encoding the
// key as four 64-bit limbs, each written as 14 base-26 digits least
// significant first, followed by 4 digest letters. Computing the digest is a
// delegated hashing capability, not part of this core: parsing accepts any
// alphabet-valid digest suffix, and rendering produces the 56-letter key
// part.
// ---------------------------------------------------------------------------
/// `k` base-26 digits of `v`, least significant first, as the bytes of the
/// letters `A`..`Z`.
pub open spec fn limb_digit_bytes(v: nat, k: nat) -> Seq<u8>
    decreases k,
{
    if k == 0 {
        Seq::empty()
    } else {
        seq![(65 + v % 26) as u8] + limb_digit_bytes(v / 26, (k - 1) as nat)
    }
}

/// The value the base-26 digit letters encode, least significant first.
pub open spec fn limb_value(s: Seq<u8>) -> int
    decreases s.len(),
{
    if s.len() == 0 {
        0
    } else {
        (s[0] - 65) + 26 * limb_value(s.drop_first())
    }
}

pub open spec fn pow26(k: nat) -> int
    decreases k,
{
    if k == 0 {
        1
    } else {
        26 * pow26((k - 1) as nat)
    }
}

/// Every byte of `s` is an upper-case letter.
pub open spec fn all_letters(s: Seq<u8>) -> bool {
    forall|i: int| 0 <= i < s.len() ==> 65 <= #[trigger] s[i] < 91
}

pub proof fn lemma_pow26_monotone(j: nat, k: nat)
    requires
        j <= k,
    ensures
        0 < pow26(j) <= pow26(k),
    decreases k,
{
    if k > 0 {
        if j == k {
            lemma_pow26_monotone((j - 1) as nat, (k - 1) as nat);
        } else {
            lemma_pow26_monotone(j, (k - 1) as nat);
        }
    }
}

pub proof fn lemma_limb_digits_are_letters(v: nat, k: nat)
    ensures
        limb_digit_bytes(v, k).len() == k,
        all_letters(limb_digit_bytes(v, k)),
    decreases k,
{
    if k > 0 {
        lemma_limb_digits_are_letters(v / 26, (k - 1) as nat);
        assert forall|i: int|
            0 <= i < limb_digit_bytes(v, k).len() implies 65 <= #[trigger] limb_digit_bytes(
            v,
            k,
        )[i] < 91 by {
            if i == 0 {
                assert(limb_digit_bytes(v, k)[0] == (65 + v % 26) as u8);
            } else {
                assert(limb_digit_bytes(v, k)[i] == limb_digit_bytes(v / 26, (k - 1) as nat)[i
                    - 1]);
            }
        }
    }
}

/// Digits of a value decode back to it: the limb codec round trip.
pub proof fn lemma_limb_round_trip(v: nat, k: nat)
    requires
        v < pow26(k),
    ensures
        limb_value(limb_digit_bytes(v, k)) == v,
    decreases k,
{
    if k == 0 {
    } else {
        assert(26 * pow26((k - 1) as nat) == pow26(k));
        assert(v / 26 < pow26((k - 1) as nat)) by {
            if v / 26 >= pow26((k - 1) as nat) {
                assert(v >= 26 * pow26((k - 1) as nat)) by (nonlinear_arith)
                    requires
                        v / 26 >= pow26((k - 1) as nat),
                        v >= 0,
                ;
            }
        }
        lemma_limb_round_trip(v / 26, (k - 1) as nat);
        let s = limb_digit_bytes(v, k);
        assert(s.drop_first() =~= limb_digit_bytes(v / 26, (k - 1) as nat));
        assert(limb_value(s) == (v % 26) + 26 * (v / 26));
    }
}

/// The key bytes a well-formed identity text encodes: four 64-bit limbs,
/// little-endian, one per 14-letter group.
pub open spec fn key_bytes_of_text(b: Seq<u8>) -> Seq<u8> {
    spec_u64_to_le_bytes(limb_value(b.subrange(0, 14)) as u64) + spec_u64_to_le_bytes(
        limb_value(b.subrange(14, 28)) as u64,
    ) + spec_u64_to_le_bytes(limb_value(b.subrange(28, 42)) as u64) + spec_u64_to_le_bytes(
        limb_value(b.subrange(42, 56)) as u64,
    )
}

/// A well-formed identity text: 60 upper-case letters whose four key limbs
/// each fit in 64 bits.
pub open spec fn text_well_formed(b: Seq<u8>) -> bool {
    &&& b.len() == 60
    &&& all_letters(b)
    &&& limb_value(b.subrange(0, 14)) <= u64::MAX
    &&& limb_value(b.subrange(14, 28)) <= u64::MAX
    &&& limb_value(b.subrange(28, 42)) <= u64::MAX
    &&& limb_value(b.subrange(42, 56)) <= u64::MAX
}

/// The 56 key letters of an identity's canonical text.
pub open spec fn key_digit_bytes(idb: Seq<u8>) -> Seq<u8> {
    limb_digit_bytes(spec_u64_from_le_bytes(idb.subrange(0, 8)) as nat, 14) + limb_digit_bytes(
        spec_u64_from_le_bytes(idb.subrange(8, 16)) as nat,
        14,
    ) + limb_digit_bytes(spec_u64_from_le_bytes(idb.subrange(16, 24)) as nat, 14)
        + limb_digit_bytes(spec_u64_from_le_bytes(idb.subrange(24, 32)) as nat, 14)
}

pub open spec fn key_chars(idb: Seq<u8>) -> Seq<char> {
    key_digit_bytes(idb).map(|_i, b: u8| b as char)
}

/// A 32-byte public key identifying an account on the network. Equality and
/// hashing go by the raw bytes.
#[derive(Clone, Copy, Eq, Hash, Debug)]
pub struct QubicId([u8; 32]);

impl View for QubicId {
    type V = Seq<u8>;

    closed spec fn view(&self) -> Seq<u8> {
        self.0@
    }
}

impl PartialEq for QubicId {
    fn eq(&self, o: &QubicId) -> (r: bool) {
        let mut i: usize = 0;
        while i < 32
            invariant
                i <= 32,
                forall|j: int| 0 <= j < i ==> self@[j] == o@[j],
            decreases 32 - i,
        {
            if self.0[i] != o.0[i] {
                return false;
            }
            i += 1;
        }
        proof {
            assert(self@ =~= o@);
            assert(self.0 =~= o.0);
        }
        true
    }
}

impl vstd::std_specs::cmp::PartialEqSpecImpl for QubicId {
    open spec fn obeys_eq_spec() -> bool {
        true
    }

    open spec fn eq_spec(&self, o: &QubicId) -> bool {
        self@ == o@
    }
}

impl QubicId {
    /// Wraps 32 raw key bytes.
    pub fn from_bytes(b: [u8; 32]) -> (r: QubicId)
        ensures
            r@ == b@,
    {
        QubicId(b)
    }

    /// Appends the 32 raw bytes to `out`.
    pub fn write_to(&self, out: &mut Vec<u8>)
        ensures
            final(out)@ == old(out)@ + self@,
    {
        let mut i: usize = 0;
        while i < 32
            invariant
                i <= 32,
                out@ == old(out)@ + self@.take(i as int),
            decreases 32 - i,
        {
            out.push(self.0[i]);
            proof {
                assert(old(out)@ + self@.take((i + 1) as int) =~= (old(out)@ + self@.take(
                    i as int,
                )).push(self@[i as int]));
            }
            i += 1;
        }
        proof {
            assert(self@.take(32) =~= self@);
        }
    }

    /// Reads 32 bytes starting at `start`.
    pub fn read_from(b: &Vec<u8>, start: usize) -> (r: QubicId)
        requires
            start + 32 <= b@.len(),
        ensures
            r@ =~= b@.subrange(start as int, start as int + 32),
    {
        let n = b.len();
        let mut buf: [u8; 32] = vstd::array::array_fill_for_copy_types(0u8);
        let mut i: usize = 0;
        while i < 32
            invariant
                i <= 32,
                n == b@.len(),
                start + 32 <= b@.len(),
                forall|j: int| 0 <= j < i ==> buf@[j] == b@[start + j],
            decreases 32 - i,
        {
            buf[i] = b[start + i];
            i += 1;
        }
        let r = QubicId(buf);
        proof {
            assert(r@ =~= b@.subrange(start as int, start as int + 32));
        }
        r
    }

    /// Parses the canonical 60-letter text. Returns `InvalidIdentity` when
    /// the text is not exactly 60 upper-case letters or a key limb does not
    /// fit in 64 bits; the 4-letter digest suffix is checked for the
    /// alphabet only, its digest value being a delegated external concern.
    pub fn parse(s: &str) -> (r: Result<QubicId, WireError>)
        ensures
            text_well_formed(s.spec_bytes()) ==> (r matches Ok(id) && id@ == key_bytes_of_text(
                s.spec_bytes(),
            )),
            !text_well_formed(s.spec_bytes()) ==> r == Err::<QubicId, WireError>(
                WireError::InvalidIdentity,
            ),
    {
        let bytes = s.as_bytes();
        if bytes.len() != 60 {
            return Err(WireError::InvalidIdentity);
        }
        let mut i: usize = 0;
        while i < 60
            invariant
                i <= 60,
                bytes@.len() == 60,
                bytes@ == s.spec_bytes(),
                forall|j: int| 0 <= j < i ==> 65 <= #[trigger] bytes@[j] < 91,
            decreases 60 - i,
        {
            let c = bytes[i];
            if c < 65 || c > 90 {
                return Err(WireError::InvalidIdentity);
            }
            i += 1;
        }
        proof {
            vstd::bytes::lemma_auto_spec_u64_to_from_le_bytes();
        }
        let v0 = read_limb(bytes, 0, 14);
        if v0 > 0xffff_ffff_ffff_ffff {
            return Err(WireError::InvalidIdentity);
        }
        let v1 = read_limb(bytes, 14, 14);
        if v1 > 0xffff_ffff_ffff_ffff {
            return Err(WireError::InvalidIdentity);
        }
        let v2 = read_limb(bytes, 28, 14);
        if v2 > 0xffff_ffff_ffff_ffff {
            return Err(WireError::InvalidIdentity);
        }
        let v3 = read_limb(bytes, 42, 14);
        if v3 > 0xffff_ffff_ffff_ffff {
            return Err(WireError::InvalidIdentity);
        }
        let mut out: Vec<u8> = Vec::new();
        crate::packed::U64::from_native(v0 as u64).write_to(&mut out);
        crate::packed::U64::from_native(v1 as u64).write_to(&mut out);
        crate::packed::U64::from_native(v2 as u64).write_to(&mut out);
        crate::packed::U64::from_native(v3 as u64).write_to(&mut out);
        proof {
            assert(out@ =~= key_bytes_of_text(bytes@));
        }
        let mut buf: [u8; 32] = vstd::array::array_fill_for_copy_types(0u8);
        let mut i2: usize = 0;
        while i2 < 32
            invariant
                i2 <= 32,
                out@.len() == 32,
                out@ == key_bytes_of_text(s.spec_bytes()),
                forall|j: int| 0 <= j < i2 ==> buf@[j] == out@[j],
            decreases 32 - i2,
        {
            buf[i2] = out[i2];
            i2 += 1;
        }
        let r = QubicId(buf);
        proof {
            assert(r@ =~= key_bytes_of_text(s.spec_bytes()));
        }
        Ok(r)
    }

    /// The 64-bit limb stored little-endian at byte offset `start`.
    fn limb_at(&self, start: usize) -> (r: u64)
        requires
            start + 8 <= 32,
        ensures
            r == spec_u64_from_le_bytes(self@.subrange(start as int, start as int + 8)),
    {
        let mut limb: Vec<u8> = Vec::new();
        let mut i: usize = 0;
        while i < 8
            invariant
                i <= 8,
                start + 8 <= 32,
                limb@ =~= self@.subrange(start as int, start as int + i as int),
            decreases 8 - i,
        {
            limb.push(self.0[start + i]);
            i += 1;
        }
        u64_from_le_bytes(limb.as_slice())
    }

    /// Renders the 56-letter key part of the canonical text. The full
    /// canonical form appends a 4-letter digest computed by the delegated
    /// hashing capability.
    pub fn render_key(&self) -> (r: String)
        ensures
            r@ == key_chars(self@),
    {
        proof {
            vstd::bytes::lemma_auto_spec_u64_to_from_le_bytes();
            lemma_limb_digits_are_letters(spec_u64_from_le_bytes(self@.subrange(0, 8)) as nat, 14);
            lemma_limb_digits_are_letters(spec_u64_from_le_bytes(self@.subrange(8, 16)) as nat, 14);
            lemma_limb_digits_are_letters(
                spec_u64_from_le_bytes(self@.subrange(16, 24)) as nat,
                14,
            );
            lemma_limb_digits_are_letters(
                spec_u64_from_le_bytes(self@.subrange(24, 32)) as nat,
                14,
            );
        }
        let mut digits: Vec<u8> = Vec::new();
        let v0 = self.limb_at(0);
        let v1 = self.limb_at(8);
        let v2 = self.limb_at(16);
        let v3 = self.limb_at(24);
        push_limb(v0, 14, &mut digits);
        push_limb(v1, 14, &mut digits);
        push_limb(v2, 14, &mut digits);
        push_limb(v3, 14, &mut digits);
        proof {
            assert(digits@ =~= key_digit_bytes(self@));
            assert(forall|j: int| 0 <= j < digits@.len() ==> 65 <= #[trigger] digits@[j] < 91)
                by {
                assert(digits@ =~= key_digit_bytes(self@));
            }
        }
        let s = crate::packed::ascii_vec_to_string(digits);
        proof {
            assert(s@ =~= key_chars(self@));
        }
        s
    }
}

/// Reads `k` base-26 digit letters starting at `start`, least significant
/// first.
fn read_limb(b: &[u8], start: usize, k: usize) -> (r: u128)
    requires
        start + k <= b@.len(),
        k <= 14,
        forall|i: int| start <= i < start + k ==> 65 <= #[trigger] b@[i] < 91,
    ensures
        r == limb_value(b@.subrange(start as int, start as int + k as int)),
        r < pow26(k as nat),
    decreases k,
{
    let ghost s = b@.subrange(start as int, start as int + k as int);
    if k == 0 {
        proof {
            assert(s.len() == 0);
        }
        0
    } else {
        let d = (b[start] - 65) as u128;
        let rest = read_limb(b, start + 1, k - 1);
        proof {
            lemma_pow26_monotone((k - 1) as nat, 13);
            assert(pow26(13) * 26 == pow26(14));
            assert(pow26(14) < u128::MAX) by {
                reveal_with_fuel(pow26, 15);
            }
            assert(s.drop_first() =~= b@.subrange(start as int + 1, start as int + k as int));
            assert(26 * rest <= 26 * (pow26((k - 1) as nat) - 1)) by (nonlinear_arith)
                requires
                    rest < pow26((k - 1) as nat),
            ;
        }
        d + 26 * rest
    }
}

/// Appends the `k` base-26 digit letters of `v`, least significant first.
fn push_limb(v: u64, k: usize, out: &mut Vec<u8>)
    ensures
        final(out)@ == old(out)@ + limb_digit_bytes(v as nat, k as nat),
    decreases k,
{
    if k == 0 {
        proof {
            assert(old(out)@ + limb_digit_bytes(v as nat, 0) =~= old(out)@);
        }
    } else {
        let d: u8 = 65 + (v % 26) as u8;
        out.push(d);
        push_limb(v / 26, k - 1, out);
        proof {
            assert(out@ =~= old(out)@ + limb_digit_bytes(v as nat, k as nat));
        }
    }
}



/// Canonical text round trip: rendering an identity's 56 key letters and
/// appending any 4 alphabet-valid digest letters gives a well-formed text
/// that parses back to exactly the same 32 key bytes.
pub proof fn lemma_identity_text_round_trip(idb: Seq<u8>, suffix: Seq<u8>)
    requires
        idb.len() == 32,
        suffix.len() == 4,
        all_letters(suffix),
    ensures
        text_well_formed(key_digit_bytes(idb) + suffix),
        key_bytes_of_text(key_digit_bytes(idb) + suffix) == idb,
{
    vstd::bytes::lemma_auto_spec_u64_to_from_le_bytes();
    let v0 = spec_u64_from_le_bytes(idb.subrange(0, 8));
    let v1 = spec_u64_from_le_bytes(idb.subrange(8, 16));
    let v2 = spec_u64_from_le_bytes(idb.subrange(16, 24));
    let v3 = spec_u64_from_le_bytes(idb.subrange(24, 32));
    lemma_limb_digits_are_letters(v0 as nat, 14);
    lemma_limb_digits_are_letters(v1 as nat, 14);
    lemma_limb_digits_are_letters(v2 as nat, 14);
    lemma_limb_digits_are_letters(v3 as nat, 14);
    assert(pow26(14) > u64::MAX) by {
        reveal_with_fuel(pow26, 15);
    }
    lemma_limb_round_trip(v0 as nat, 14);
    lemma_limb_round_trip(v1 as nat, 14);
    lemma_limb_round_trip(v2 as nat, 14);
    lemma_limb_round_trip(v3 as nat, 14);
    let b = key_digit_bytes(idb) + suffix;
    assert(b.len() == 60);
    assert(all_letters(b)) by {
        assert forall|i: int| 0 <= i < b.len() implies 65 <= #[trigger] b[i] < 91 by {
            if i < 14 {
                assert(b[i] == limb_digit_bytes(v0 as nat, 14)[i]);
            } else if i < 28 {
                assert(b[i] == limb_digit_bytes(v1 as nat, 14)[i - 14]);
            } else if i < 42 {
                assert(b[i] == limb_digit_bytes(v2 as nat, 14)[i - 28]);
            } else if i < 56 {
                assert(b[i] == limb_digit_bytes(v3 as nat, 14)[i - 42]);
            } else {
                assert(b[i] == suffix[i - 56]);
            }
        }
    }
    assert(b.subrange(0, 14) =~= limb_digit_bytes(v0 as nat, 14));
    assert(b.subrange(14, 28) =~= limb_digit_bytes(v1 as nat, 14));
    assert(b.subrange(28, 42) =~= limb_digit_bytes(v2 as nat, 14));
    assert(b.subrange(42, 56) =~= limb_digit_bytes(v3 as nat, 14));
    assert(key_bytes_of_text(b) =~= idb);
}

/// The backing byte count of a `QubicId` is fixed.
pub broadcast proof fn lemma_qubic_id_byte_len(x: QubicId)
    ensures
        (#[trigger] x@).len() == 32,
{
}

} // verus!
