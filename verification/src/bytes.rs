use vstd::prelude::*;

verus! {

/// `256` to the power `n`.
pub open spec fn pow256(n: nat) -> nat
    decreases n,
{
    if n == 0 {
        1
    } else {
        256 * pow256((n - 1) as nat)
    }
}

/// The `n` lowest bytes of `x`, least significant first (little-endian).
pub open spec fn le_bytes(x: nat, n: nat) -> Seq<u8>
    decreases n,
{
    if n == 0 {
        Seq::empty()
    } else {
        seq![(x % 256) as u8] + le_bytes(x / 256, (n - 1) as nat)
    }
}

/// The number that the little-endian bytes `s` stand for.
pub open spec fn le_value(s: Seq<u8>) -> nat
    decreases s.len(),
{
    if s.len() == 0 {
        0
    } else {
        s[0] as nat + 256 * le_value(s.drop_first())
    }
}

/// The 2 little-endian bytes of `x`.
pub open spec fn le_bytes_u16(x: u16) -> Seq<u8> {
    le_bytes(x as nat, 2)
}

/// The 4 little-endian bytes of `x`.
pub open spec fn le_bytes_u32(x: u32) -> Seq<u8> {
    le_bytes(x as nat, 4)
}

/// The 8 little-endian bytes of `x`.
pub open spec fn le_bytes_u64(x: u64) -> Seq<u8> {
    le_bytes(x as nat, 8)
}

/// `n` little-endian bytes hold any number below `256^n`, and read back to it.
pub proof fn lemma_le_bytes_value(x: nat, n: nat)
    requires
        x < pow256(n),
    ensures
        le_bytes(x, n).len() == n,
        le_value(le_bytes(x, n)) == x,
    decreases n,
{
    if n > 0 {
        let p = pow256((n - 1) as nat);
        assert(x / 256 < p) by (nonlinear_arith)
            requires
                x < 256 * p,
        ;
        lemma_le_bytes_value(x / 256, (n - 1) as nat);
        assert(le_bytes(x, n).drop_first() =~= le_bytes(x / 256, (n - 1) as nat));
    }
}

/// The widths of `u16`, `u32` and `u64` in bytes bound their values.
pub proof fn lemma_pow256_widths()
    ensures
        pow256(2) == 0x1_0000,
        pow256(4) == 0x1_0000_0000,
        pow256(8) == 0x1_0000_0000_0000_0000,
{
    reveal_with_fuel(pow256, 9);
}

/// Any byte sequence is the little-endian image of the number it stands for: that number is
/// below `256^len`, and writing it back in as many bytes gives the same bytes.
pub proof fn lemma_le_value_bytes(s: Seq<u8>)
    ensures
        le_value(s) < pow256(s.len()),
        le_bytes(le_value(s), s.len()) == s,
    decreases s.len(),
{
    if s.len() > 0 {
        let rest = s.drop_first();
        lemma_le_value_bytes(rest);
        let w = le_value(rest);
        let p = pow256(rest.len());
        let b = s[0] as nat;
        let v = le_value(s);
        assert(v == b + 256 * w);
        assert(v < 256 * p) by (nonlinear_arith)
            requires
                v == b + 256 * w,
                b < 256,
                w < p,
        ;
        assert(v % 256 == b && v / 256 == w) by (nonlinear_arith)
            requires
                v == b + 256 * w,
                b < 256,
        ;
        assert(le_bytes(v, s.len()) == seq![(v % 256) as u8] + le_bytes(v / 256, rest.len()));
        assert(le_bytes(v, s.len()) =~= s);
    }
}

/// Four bytes are the little-endian image of the `u32` they stand for.
pub proof fn lemma_le_bytes_u32_of_value(s: Seq<u8>)
    requires
        s.len() == 4,
    ensures
        le_value(s) < 0x1_0000_0000,
        le_bytes_u32(le_value(s) as u32) == s,
{
    lemma_le_value_bytes(s);
    lemma_pow256_widths();
}

/// The 2 bytes of a `u16` read back to the number.
pub proof fn lemma_le_u16_roundtrip(x: u16)
    ensures
        le_bytes_u16(x).len() == 2,
        le_value(le_bytes_u16(x)) == x,
{
    lemma_pow256_widths();
    lemma_le_bytes_value(x as nat, 2);
}

/// The 4 bytes of a `u32` read back to the number.
pub proof fn lemma_le_u32_roundtrip(x: u32)
    ensures
        le_bytes_u32(x).len() == 4,
        le_value(le_bytes_u32(x)) == x,
{
    lemma_pow256_widths();
    lemma_le_bytes_value(x as nat, 4);
}

/// The 8 bytes of a `u64` read back to the number.
pub proof fn lemma_le_u64_roundtrip(x: u64)
    ensures
        le_bytes_u64(x).len() == 8,
        le_value(le_bytes_u64(x)) == x,
{
    lemma_pow256_widths();
    lemma_le_bytes_value(x as nat, 8);
}

/// The `N` lowest bytes of `x`, little-endian.
fn le_array<const N: usize>(x: u64) -> (r: [u8; N])
    ensures
        r@ == le_bytes(x as nat, N as nat),
{
    let mut r = [0u8; N];
    let mut v: u64 = x;
    let mut i: usize = 0;
    assert(r@.subrange(0, 0) =~= Seq::<u8>::empty());
    while i < N
        invariant
            i <= N,
            r@.len() == N,
            r@.subrange(0, i as int) + le_bytes(v as nat, (N - i) as nat) == le_bytes(x as nat, N as nat),
        decreases N - i,
    {
        let ghost prev = r@.subrange(0, i as int);
        assert(le_bytes(v as nat, (N - i) as nat) == seq![(v % 256) as u8] + le_bytes(
            (v / 256) as nat,
            (N - i - 1) as nat,
        ));
        r[i] = (v % 256) as u8;
        assert(r@.subrange(0, i + 1) =~= prev + seq![(v % 256) as u8]);
        assert(prev + seq![(v % 256) as u8] + le_bytes((v / 256) as nat, (N - i - 1) as nat)
            =~= prev + (seq![(v % 256) as u8] + le_bytes((v / 256) as nat, (N - i - 1) as nat)));
        v = v / 256;
        i = i + 1;
    }
    assert(r@.subrange(0, N as int) =~= r@);
    assert(le_bytes(v as nat, 0) =~= Seq::<u8>::empty());
    assert(r@ + Seq::<u8>::empty() =~= r@);
    r
}

/// `x` as 2 little-endian bytes (what `u16::to_le_bytes` gives).
pub fn u16_le(x: u16) -> (r: [u8; 2])
    ensures
        r@ == le_bytes_u16(x),
{
    le_array::<2>(x as u64)
}

/// `x` as 4 little-endian bytes (what `u32::to_le_bytes` gives).
pub fn u32_le(x: u32) -> (r: [u8; 4])
    ensures
        r@ == le_bytes_u32(x),
{
    le_array::<4>(x as u64)
}

/// `x` as 8 little-endian bytes (what `u64::to_le_bytes` gives).
pub fn u64_le(x: u64) -> (r: [u8; 8])
    ensures
        r@ == le_bytes_u64(x),
{
    le_array::<8>(x)
}

/// The `u32` whose little-endian bytes are the 4 bytes of `s` (what `u32::from_le_bytes`
/// gives).
pub fn u32_from_le(s: &[u8]) -> (r: u32)
    requires
        s@.len() == 4,
    ensures
        r == le_value(s@),
{
    proof {
        reveal_with_fuel(le_value, 5);
        assert(s@.drop_first() =~= seq![s@[1], s@[2], s@[3]]);
        assert(s@.drop_first().drop_first() =~= seq![s@[2], s@[3]]);
        assert(s@.drop_first().drop_first().drop_first() =~= seq![s@[3]]);
        assert(s@.drop_first().drop_first().drop_first().drop_first() =~= Seq::<u8>::empty());
    }
    s[0] as u32 + 0x100 * (s[1] as u32) + 0x1_0000 * (s[2] as u32) + 0x100_0000 * (s[3] as u32)
}

/// Copies `src` into `buf` starting at position `at`, leaving the rest of `buf` as it was.
pub(crate) fn write_at<const N: usize>(buf: &mut [u8; N], at: usize, src: &[u8])
    requires
        at + src@.len() <= N,
    ensures
        final(buf)@ == old(buf)@.subrange(0, at as int) + src@ + old(buf)@.subrange(
            at + src@.len(),
            N as int,
        ),
{
    let mut i: usize = 0;
    while i < src.len()
        invariant
            at + src@.len() <= N,
            i <= src@.len(),
            buf@.len() == N,
            forall|j: int| 0 <= j < at ==> buf@[j] == old(buf)@[j],
            forall|j: int| at + src@.len() <= j < N ==> buf@[j] == old(buf)@[j],
            forall|j: int| 0 <= j < i ==> buf@[at + j] == src@[j],
            forall|j: int| at + i <= j < at + src@.len() ==> buf@[j] == old(buf)@[j],
        decreases src@.len() - i,
    {
        buf[at + i] = src[i];
        i = i + 1;
    }
    assert(buf@ =~= old(buf)@.subrange(0, at as int) + src@ + old(buf)@.subrange(
        at + src@.len(),
        N as int,
    ));
}

} // verus!
