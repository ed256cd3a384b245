use crate::errors::WireError;
use vstd::prelude::*;
use vstd::string::StrSliceExecFns;
use vstd::string::StringSliceAdditionalSpecFns;

verus! {

broadcast use vstd::array::group_array_axioms;
// ---------------------------------------------------------------------------
// Bounded ASCII text buffer.
// ---------------------------------------------------------------------------
/// `s` copied left-aligned into a buffer of `n` bytes, the rest zero-filled.
pub open spec fn padded_bytes(s: Seq<u8>, n: nat) -> Seq<u8>
    recommends
        s.len() <= n,
{
    s + Seq::new((n - s.len()) as nat, |_i: int| 0u8)
}

/// The characters a buffer renders to: every non-zero byte, in order, as the
/// character with the same code point. Zero bytes are skipped wherever they
/// occur, not only in the trailing run; a name with an embedded zero after a
/// non-zero byte would render shorter than it is stored. That rule is kept
/// as-is for wire compatibility with existing consumers.
pub open spec fn rendered_chars(b: Seq<u8>) -> Seq<char> {
    b.filter(|x: u8| x != 0).map(|_i, x: u8| x as char)
}

/// Relies on String::push: appends exactly the one character.
#[verifier::external_body]
fn push_char(s: &mut String, c: char)
    ensures
        final(s)@ == old(s)@.push(c),
{
    s.push(c);
}

/// A fixed-capacity ASCII name of exactly `N` stored bytes. Construction
/// only accepts ASCII text of byte length at most `N` and zero-fills the
/// remainder.
#[derive(Clone, Copy, PartialEq, Eq, Hash, Debug)]
pub struct AssetName<const N: usize>([u8; N]);

impl<const N: usize> View for AssetName<N> {
    type V = Seq<u8>;

    closed spec fn view(&self) -> Seq<u8> {
        self.0@
    }
}

impl<const N: usize> AssetName<N> {
    pub open spec fn wf(self) -> bool {
        self@.len() == N
    }

    /// Parses a string into the buffer: the bytes are copied left-aligned
    /// and the remainder is zero-filled. Text longer than `N` bytes is
    /// rejected with `LengthError`; non-ASCII text with `EncodingError`.
    pub fn parse(s: &str) -> (r: Result<AssetName<N>, WireError>)
        ensures
            s.spec_bytes().len() > N ==> r == Err::<AssetName<N>, WireError>(
                WireError::LengthError { expected: N, found: s.spec_bytes().len() as usize },
            ),
            s.spec_bytes().len() <= N && !vstd::string::is_ascii(s) ==> r == Err::<
                AssetName<N>,
                WireError,
            >(WireError::EncodingError),
            s.spec_bytes().len() <= N && vstd::string::is_ascii(s) ==> (r matches Ok(a) && a@
                == padded_bytes(s.spec_bytes(), N as nat) && a.wf()),
    {
        let bytes = s.as_bytes();
        if bytes.len() > N {
            return Err(WireError::LengthError { expected: N, found: bytes.len() });
        }
        if !s.is_ascii() {
            return Err(WireError::EncodingError);
        }
        let mut buf: [u8; N] = vstd::array::array_fill_for_copy_types(0u8);
        let mut i: usize = 0;
        while i < bytes.len()
            invariant
                i <= bytes@.len() <= N,
                buf@.len() == N,
                forall|j: int| 0 <= j < i ==> buf@[j] == bytes@[j],
                forall|j: int| i <= j < N ==> buf@[j] == 0u8,
            decreases bytes@.len() - i,
        {
            buf[i] = bytes[i];
            i += 1;
        }
        let r = AssetName(buf);
        proof {
            assert(r@ =~= padded_bytes(s.spec_bytes(), N as nat));
        }
        Ok(r)
    }

    /// Renders the buffer: appends every non-zero byte as a character,
    /// skipping zero bytes wherever they occur.
    pub fn render(&self) -> (r: String)
        ensures
            r@ == rendered_chars(self@),
    {
        let mut out = String::new();
        let mut i: usize = 0;
        while i < N
            invariant
                i <= N,
                self@.len() == N,
                out@ == rendered_chars(self@.take(i as int)),
            decreases N - i,
        {
            let ghost pre = self@.take(i as int);
            let ghost cur = self@.take((i + 1) as int);
            proof {
                assert(cur.drop_last() =~= pre);
                reveal_with_fuel(Seq::filter, 2);
                assert(cur.filter(|x: u8| x != 0) == if self@[i as int] != 0 {
                    pre.filter(|x: u8| x != 0).push(self@[i as int])
                } else {
                    pre.filter(|x: u8| x != 0)
                });
            }
            let b = self.byte_at(i);
            if b != 0 {
                push_char(&mut out, b as char);
                proof {
                    assert(out@ =~= rendered_chars(cur));
                }
            } else {
                proof {
                    assert(out@ =~= rendered_chars(cur));
                }
            }
            i += 1;
        }
        proof {
            assert(self@.take(N as int) =~= self@);
        }
        out
    }

    /// The stored byte at position `i`.
    pub fn byte_at(&self, i: usize) -> (r: u8)
        requires
            i < N,
        ensures
            r == self@[i as int],
    {
        self.0[i]
    }

    /// Appends the `N` stored bytes to `out`.
    pub fn write_to(&self, out: &mut Vec<u8>)
        ensures
            final(out)@ == old(out)@ + self@,
    {
        let mut i: usize = 0;
        while i < N
            invariant
                i <= N,
                self@.len() == N,
                out@ == old(out)@ + self@.take(i as int),
            decreases N - i,
        {
            out.push(self.0[i]);
            proof {
                assert(old(out)@ + self@.take((i + 1) as int) =~= (old(out)@ + self@.take(
                    i as int,
                )).push(self@[i as int]));
            }
            i += 1;
        }
        proof {
            assert(self@.take(N as int) =~= self@);
        }
    }

    /// Reads `N` bytes starting at `start`.
    pub fn read_from(b: &Vec<u8>, start: usize) -> (r: AssetName<N>)
        requires
            start + N <= b@.len(),
        ensures
            r@ =~= b@.subrange(start as int, start as int + N as int),
            r.wf(),
    {
        let n = b.len();
        let mut buf: [u8; N] = vstd::array::array_fill_for_copy_types(0u8);
        let mut i: usize = 0;
        while i < N
            invariant
                i <= N,
                n == b@.len(),
                start + N <= b@.len(),
                buf@.len() == N,
                forall|j: int| 0 <= j < i ==> buf@[j] == b@[start + j],
            decreases N - i,
        {
            buf[i] = b[start + i];
            i += 1;
        }
        let r = AssetName(buf);
        proof {
            assert(r@ =~= b@.subrange(start as int, start as int + N as int));
        }
        r
    }
}


/// The backing byte count of an `AssetName` is fixed by its type.
pub broadcast proof fn lemma_asset_name_byte_len<const N: usize>(x: AssetName<N>)
    ensures
        (#[trigger] x@).len() == N,
{
}


/// No byte passes the zero filter in an all-zero run.
proof fn lemma_filter_zeros(z: Seq<u8>)
    requires
        forall|i: int| 0 <= i < z.len() ==> #[trigger] z[i] == 0,
    ensures
        z.filter(|x: u8| x != 0) == Seq::<u8>::empty(),
    decreases z.len(),
{
    reveal(Seq::filter);
    if z.len() > 0 {
        lemma_filter_zeros(z.drop_last());
    }
}

/// Every byte passes the zero filter when none is zero.
proof fn lemma_filter_all_nonzero(s: Seq<u8>)
    requires
        forall|i: int| 0 <= i < s.len() ==> #[trigger] s[i] != 0,
    ensures
        s.filter(|x: u8| x != 0) == s,
    decreases s.len(),
{
    reveal(Seq::filter);
    if s.len() > 0 {
        lemma_filter_all_nonzero(s.drop_last());
        assert(s.drop_last().push(s.last()) =~= s);
    }
}

/// Parse-then-render round trip: a text of non-zero ASCII bytes, stored
/// left-aligned in a zero-filled buffer of any sufficient capacity, renders
/// back to exactly those bytes' characters.
pub proof fn lemma_parse_render_round_trip(s: Seq<u8>, n: nat)
    requires
        s.len() <= n,
        forall|i: int| 0 <= i < s.len() ==> 0 < #[trigger] s[i] < 128,
    ensures
        rendered_chars(padded_bytes(s, n)) == s.map(|_i, x: u8| x as char),
{
    let zeros = Seq::new((n - s.len()) as nat, |_i: int| 0u8);
    Seq::filter_distributes_over_add(s, zeros, |x: u8| x != 0);
    lemma_filter_zeros(zeros);
    lemma_filter_all_nonzero(s);
    assert(padded_bytes(s, n).filter(|x: u8| x != 0) =~= s);
    assert(rendered_chars(padded_bytes(s, n)) =~= s.map(|_i, x: u8| x as char));
}

} // verus!
