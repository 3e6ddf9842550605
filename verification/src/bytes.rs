//! Little-endian integers and fixed-width byte runs, as mathematics and as code.

use vstd::prelude::*;

verus! {

/// The 16-bit integer stored little-endian in the first two bytes of `s`.
pub open spec fn le_u16(s: Seq<u8>) -> u16
    recommends
        s.len() >= 2,
{
    (s[0] as int + 256 * (s[1] as int)) as u16
}

/// The 32-bit integer stored little-endian in the first four bytes of `s`.
pub open spec fn le_u32(s: Seq<u8>) -> u32
    recommends
        s.len() >= 4,
{
    (s[0] as int + 256 * (s[1] as int) + 65536 * (s[2] as int) + 16777216 * (s[3] as int)) as u32
}

/// The two bytes that store `x` little-endian.
pub open spec fn le_bytes_u16(x: u16) -> Seq<u8> {
    seq![(x % 256) as u8, (x / 256) as u8]
}

/// The four bytes that store `x` little-endian.
pub open spec fn le_bytes_u32(x: u32) -> Seq<u8> {
    seq![
        (x % 256) as u8,
        ((x / 256) % 256) as u8,
        ((x / 65536) % 256) as u8,
        (x / 16777216) as u8,
    ]
}

/// The array of `N` bytes whose elements are those of `s`.
pub open spec fn array_of<const N: usize>(s: Seq<u8>) -> [u8; N]
    recommends
        s.len() == N,
{
    choose|a: [u8; N]| a@ == s
}

proof fn lemma_array_prefix<const N: usize>(s: Seq<u8>, k: nat)
    requires
        s.len() == N,
        k <= N,
    ensures
        exists|a: [u8; N]| a@.subrange(0, k as int) == s.subrange(0, k as int),
    decreases k,
{
    if k == 0 {
        let a: [u8; N] = vstd::array::spec_array_fill_for_copy_type::<u8, N>(0u8);
        assert(a@.subrange(0, 0) =~= s.subrange(0, 0));
    } else {
        lemma_array_prefix::<N>(s, (k - 1) as nat);
        let p: [u8; N] = choose|a: [u8; N]| a@.subrange(0, k - 1) == s.subrange(0, k - 1);
        let a: [u8; N] = vstd::array::spec_array_update(p, k - 1, s[k - 1]);
        assert(a@ == p@.update(k - 1, s[k - 1]));
        assert forall|i: int| 0 <= i < k implies a@[i] == s[i] by {
            if i < k - 1 {
                assert(p@.subrange(0, k - 1)[i] == s.subrange(0, k - 1)[i]);
            }
        }
        assert(a@.subrange(0, k as int) =~= s.subrange(0, k as int));
    }
}

/// `array_of` is exact on sequences of the right length.
pub proof fn lemma_array_of<const N: usize>(s: Seq<u8>)
    requires
        s.len() == N,
    ensures
        array_of::<N>(s)@ == s,
{
    lemma_array_prefix::<N>(s, N as nat);
    let a: [u8; N] = choose|a: [u8; N]| a@.subrange(0, N as int) == s.subrange(0, N as int);
    assert(a@ =~= a@.subrange(0, N as int));
    assert(s =~= s.subrange(0, N as int));
}

proof fn lemma_split_256(q: int, r: int)
    by (nonlinear_arith)
    requires
        0 <= r < 256,
    ensures
        (256 * q + r) / 256 == q,
        (256 * q + r) % 256 == r,
{
}

/// Writing a 16-bit integer and reading it back gives the integer; reading
/// two bytes and writing the result back gives the bytes.
pub proof fn lemma_le_u16(x: u16, s: Seq<u8>)
    requires
        s.len() == 2,
    ensures
        le_bytes_u16(x).len() == 2,
        le_u16(le_bytes_u16(x)) == x,
        le_bytes_u16(le_u16(s)) == s,
{
    lemma_split_256(s[1] as int, s[0] as int);
    assert(le_bytes_u16(le_u16(s)) =~= s);
    assert(x == x % 256 + 256 * (x / 256)) by (bit_vector);
}

/// Writing a 32-bit integer and reading it back gives the integer; reading
/// four bytes and writing the result back gives the bytes.
pub proof fn lemma_le_u32(x: u32, s: Seq<u8>)
    requires
        s.len() == 4,
    ensures
        le_bytes_u32(x).len() == 4,
        le_u32(le_bytes_u32(x)) == x,
        le_bytes_u32(le_u32(s)) == s,
{
    let (a, b, c, d) = (s[0] as int, s[1] as int, s[2] as int, s[3] as int);
    let v = le_u32(s) as int;
    assert(v == 256 * (b + 256 * c + 65536 * d) + a);
    lemma_split_256(b + 256 * c + 65536 * d, a);
    assert(v / 256 == 256 * (c + 256 * d) + b);
    lemma_split_256(c + 256 * d, b);
    assert(v / 65536 == v / 256 / 256) by (nonlinear_arith);
    lemma_split_256(d, c);
    assert(v / 16777216 == v / 65536 / 256) by (nonlinear_arith);
    assert(le_bytes_u32(le_u32(s)) =~= s);
    assert(x == x % 256 + 256 * ((x / 256) % 256) + 65536 * ((x / 65536) % 256) + 16777216 * (x
        / 16777216)) by (bit_vector);
    assert((x / 256) % 256 < 256 && (x / 65536) % 256 < 256 && x / 16777216 < 256)
        by (bit_vector);
}

/// An array is the array of its own elements.
pub proof fn lemma_array_of_view<const N: usize>(a: [u8; N])
    ensures
        array_of::<N>(a@) == a,
{
    lemma_array_of::<N>(a@);
    assert(array_of::<N>(a@) =~= a);
}

/// Copies the `N` bytes of `src` that start at `start` into an array.
pub(crate) fn take_array<const N: usize>(src: &[u8], start: usize) -> (out: [u8; N])
    requires
        start + N <= src@.len(),
    ensures
        out@ == src@.subrange(start as int, start + N),
{
    let mut out: [u8; N] = [0u8; N];
    let mut i: usize = 0;
    while i < N
        invariant
            i <= N,
            start + N <= src.len(),
            forall|j: int| 0 <= j < i ==> out@[j] == src@[start + j],
        decreases N - i,
    {
        out[i] = src[start + i];
        i += 1;
    }
    assert(out@ =~= src@.subrange(start as int, start + N));
    out
}

} // verus!
