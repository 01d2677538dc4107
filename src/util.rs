//! Small text and byte helpers shared by the parsers and the key loaders.
use vstd::prelude::*;
use vstd::string::StringSliceAdditionalSpecFns;

verus! {

broadcast use vstd::utf8::encode_utf8_decode_utf8;

/// `s` without its leading and trailing Unicode whitespace.
pub uninterp spec fn trimmed(s: Seq<char>) -> Seq<char>;

/// The lowercase form of `s`, by Unicode case mapping.
pub uninterp spec fn lowercase(s: Seq<char>) -> Seq<char>;

/// Relies on `str::trim`: whitespace is removed from both ends.
#[verifier::external_body]
pub(crate) fn trim_str(s: &str) -> (r: &str)
    ensures
        r@ == trimmed(s@),
{
    s.trim()
}

/// Relies on `str::to_lowercase`: the result depends on the characters alone.
#[verifier::external_body]
pub(crate) fn to_lower(s: &str) -> (r: String)
    ensures
        r@ == lowercase(s@),
{
    s.to_lowercase()
}

/// Whether two strings hold the same characters.
pub fn str_eq(a: &str, b: &str) -> (r: bool)
    ensures
        r == (a@ == b@),
{
    let x = a.as_bytes();
    let y = b.as_bytes();
    if x.len() != y.len() {
        proof {
            assert(x@ != y@);
        }
        return false;
    }
    let mut i: usize = 0;
    while i < x.len()
        invariant
            x@ == a.spec_bytes(),
            y@ == b.spec_bytes(),
            x@.len() == y@.len(),
            i <= x@.len(),
            forall|j: int| 0 <= j < i ==> x@[j] == y@[j],
        decreases x@.len() - i,
    {
        if x[i] != y[i] {
            proof {
                assert(x@[i as int] != y@[i as int]);
                assert(x@ != y@);
            }
            return false;
        }
        i = i + 1;
    }
    proof {
        assert(x@ =~= y@);
        vstd::utf8::encode_utf8_decode_utf8(a@);
        vstd::utf8::encode_utf8_decode_utf8(b@);
    }
    true
}

/// Whether `b` is ASCII whitespace: space, tab, line feed, form feed or carriage return.
pub open spec fn is_space_byte(b: u8) -> bool {
    b == 0x20u8 || b == 0x09u8 || b == 0x0au8 || b == 0x0cu8 || b == 0x0du8
}

/// `s` without its trailing ASCII whitespace.
pub open spec fn trim_trailing_space(s: Seq<u8>) -> Seq<u8>
    decreases s.len(),
{
    if s.len() > 0 && is_space_byte(s.last()) {
        trim_trailing_space(s.drop_last())
    } else {
        s
    }
}

/// The length of `s` once its trailing ASCII whitespace is removed.
pub fn trailing_space_cut(s: &[u8]) -> (n: usize)
    ensures
        n <= s@.len(),
        s@.subrange(0, n as int) == trim_trailing_space(s@),
{
    let mut n = s.len();
    proof {
        assert(s@.subrange(0, n as int) =~= s@);
    }
    while n > 0 && (s[n - 1] == 0x20u8 || s[n - 1] == 0x09u8 || s[n - 1] == 0x0au8 || s[n - 1]
        == 0x0cu8 || s[n - 1] == 0x0du8)
        invariant
            n <= s@.len(),
            trim_trailing_space(s@.subrange(0, n as int)) == trim_trailing_space(s@),
        decreases n,
    {
        proof {
            assert(s@.subrange(0, n as int).drop_last() =~= s@.subrange(0, n - 1));
        }
        n = n - 1;
    }
    n
}

} // verus!

verus! {

/// The first `N` bytes of `source`, as an array.
pub fn prefix_array<const N: usize>(source: &[u8]) -> (r: [u8; N])
    requires
        source@.len() >= N,
    ensures
        r@ == source@.subrange(0, N as int),
{
    let mut out = [0u8; N];
    let mut i: usize = 0;
    while i < N
        invariant
            source@.len() >= N,
            i <= N,
            out@.len() == N,
            forall|j: int| 0 <= j < i ==> out@[j] == source@[j],
        decreases N - i,
    {
        out[i] = source[i];
        i = i + 1;
    }
    proof {
        assert(out@ =~= source@.subrange(0, N as int));
    }
    out
}

} // verus!
