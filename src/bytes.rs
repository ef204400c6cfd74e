//! Fixed-width integers as byte strings, and byte-string comparison.
use vstd::prelude::*;

verus! {

pub open spec fn pow256(n: nat) -> nat
    decreases n,
{
    if n == 0 {
        1
    } else {
        256 * pow256((n - 1) as nat)
    }
}

/// The byte string read as a big-endian unsigned integer.
pub open spec fn be_value(s: Seq<u8>) -> nat
    decreases s.len(),
{
    if s.len() == 0 {
        0
    } else {
        s[0] as nat * pow256((s.len() - 1) as nat) + be_value(s.subrange(1, s.len() as int))
    }
}

/// `n` written big-endian in `width` bytes (reduced modulo 256^width).
pub open spec fn be_bytes(n: nat, width: nat) -> Seq<u8>
    decreases width,
{
    if width == 0 {
        Seq::empty()
    } else {
        be_bytes(n / 256, (width - 1) as nat).push((n % 256) as u8)
    }
}

/// `n` written little-endian in `width` bytes (reduced modulo 256^width).
pub open spec fn le_bytes(n: nat, width: nat) -> Seq<u8>
    decreases width,
{
    if width == 0 {
        Seq::empty()
    } else {
        seq![(n % 256) as u8] + le_bytes(n / 256, (width - 1) as nat)
    }
}

/// The byte string read as a little-endian unsigned integer.
pub open spec fn le_value(s: Seq<u8>) -> nat
    decreases s.len(),
{
    if s.len() == 0 {
        0
    } else {
        s[0] as nat + 256 * le_value(s.subrange(1, s.len() as int))
    }
}

proof fn lemma_be_value_bound(s: Seq<u8>)
    ensures
        be_value(s) < pow256(s.len()),
    decreases s.len(),
{
    if s.len() > 0 {
        let t = s.subrange(1, s.len() as int);
        lemma_be_value_bound(t);
        let p = pow256(t.len());
        assert(s[0] as nat * p + be_value(t) < 256 * p) by (nonlinear_arith)
            requires
                s[0] < 256,
                be_value(t) < p,
        ;
    }
}

/// Two strings of one length that agree before `i` and differ at `i` are
/// ordered, as big-endian integers, by their bytes at `i`.
proof fn lemma_be_value_first_difference(a: Seq<u8>, b: Seq<u8>, i: int)
    requires
        a.len() == b.len(),
        0 <= i < a.len(),
        a.subrange(0, i) == b.subrange(0, i),
        a[i] > b[i],
    ensures
        be_value(a) > be_value(b),
    decreases i,
{
    let ta = a.subrange(1, a.len() as int);
    let tb = b.subrange(1, b.len() as int);
    let p = pow256(ta.len());
    if i == 0 {
        lemma_be_value_bound(tb);
        assert(a[0] as nat * p + be_value(ta) > b[0] as nat * p + be_value(tb)) by (nonlinear_arith)
            requires
                a[0] > b[0],
                be_value(tb) < p,
        ;
    } else {
        assert(a[0] == a.subrange(0, i)[0]);
        assert(b[0] == b.subrange(0, i)[0]);
        assert(ta.subrange(0, i - 1) =~= a.subrange(0, i).subrange(1, i));
        assert(tb.subrange(0, i - 1) =~= b.subrange(0, i).subrange(1, i));
        lemma_be_value_first_difference(ta, tb, i - 1);
    }
}

/// On strings of one length, equal big-endian values mean equal strings.
pub proof fn lemma_be_value_injective(a: Seq<u8>, b: Seq<u8>)
    requires
        a.len() == b.len(),
        be_value(a) == be_value(b),
    ensures
        a == b,
{
    if !(a =~= b) {
        let i = choose|i: int| 0 <= i < a.len() && a[i] != b[i];
        lemma_first_difference(a, b, i);
    }
}

proof fn lemma_first_difference(a: Seq<u8>, b: Seq<u8>, k: int)
    requires
        a.len() == b.len(),
        0 <= k < a.len(),
        a[k] != b[k],
    ensures
        be_value(a) != be_value(b),
    decreases k,
{
    if exists|j: int| 0 <= j < k && a[j] != b[j] {
        let j = choose|j: int| 0 <= j < k && a[j] != b[j];
        lemma_first_difference(a, b, j);
    } else {
        assert(a.subrange(0, k) =~= b.subrange(0, k));
        if a[k] > b[k] {
            lemma_be_value_first_difference(a, b, k);
        } else {
            lemma_be_value_first_difference(b, a, k);
        }
    }
}

/// Whether `a`, read as a big-endian integer, is at least `b`.
pub fn be_ge(a: &[u8; 32], b: &[u8; 32]) -> (r: bool)
    ensures
        r == (be_value(a@) >= be_value(b@)),
{
    let mut i: usize = 0;
    while i < 32
        invariant
            0 <= i <= 32,
            a@.len() == 32,
            b@.len() == 32,
            a@.subrange(0, i as int) == b@.subrange(0, i as int),
        decreases 32 - i,
    {
        if a[i] != b[i] {
            proof {
                if a@[i as int] > b@[i as int] {
                    lemma_be_value_first_difference(a@, b@, i as int);
                } else {
                    lemma_be_value_first_difference(b@, a@, i as int);
                }
            }
            return a[i] > b[i];
        }
        assert(a@.subrange(0, i + 1) =~= a@.subrange(0, i as int).push(a@[i as int]));
        assert(b@.subrange(0, i + 1) =~= b@.subrange(0, i as int).push(b@[i as int]));
        i = i + 1;
    }
    assert(a@ =~= a@.subrange(0, 32));
    assert(b@ =~= b@.subrange(0, 32));
    true
}

/// Whether two 32-byte strings are equal.
pub fn bytes_eq(a: &[u8; 32], b: &[u8; 32]) -> (r: bool)
    ensures
        r == (a@ == b@),
{
    let mut i: usize = 0;
    while i < 32
        invariant
            0 <= i <= 32,
            a@.len() == 32,
            b@.len() == 32,
            forall|j: int| 0 <= j < i ==> a@[j] == b@[j],
        decreases 32 - i,
    {
        if a[i] != b[i] {
            return false;
        }
        i = i + 1;
    }
    assert(a@ =~= b@);
    true
}

/// Whether two 64-byte strings are equal.
pub fn key_eq(a: &[u8; 64], b: &[u8; 64]) -> (r: bool)
    ensures
        r == (a@ == b@),
{
    let mut i: usize = 0;
    while i < 64
        invariant
            0 <= i <= 64,
            a@.len() == 64,
            b@.len() == 64,
            forall|j: int| 0 <= j < i ==> a@[j] == b@[j],
        decreases 64 - i,
    {
        if a[i] != b[i] {
            return false;
        }
        i = i + 1;
    }
    assert(a@ =~= b@);
    true
}

/// `amount` written big-endian in 32 bytes.
pub fn amount_bytes(amount: u64) -> (r: [u8; 32])
    ensures
        r@ == be_bytes(amount as nat, 32),
{
    let mut result: [u8; 32] = [0; 32];
    let mut v: u64 = amount;
    let mut i: usize = 0;
    while i < 32
        invariant
            0 <= i <= 32,
            result@.len() == 32,
            be_bytes(amount as nat, 32) == be_bytes(v as nat, (32 - i) as nat) + result@.subrange(
                32 - i,
                32,
            ),
        decreases 32 - i,
    {
        let ghost old_suffix = result@.subrange(32 - i, 32);
        let ghost old_v = v;
        result[31 - i] = (v % 256) as u8;
        v = v / 256;
        proof {
            assert(result@.subrange(32 - (i + 1), 32) =~= seq![(old_v % 256) as u8] + old_suffix);
            assert(be_bytes(old_v as nat, (32 - i) as nat) == be_bytes(v as nat, (32 - (i + 1)) as nat).push(
                (old_v % 256) as u8,
            ));
            assert(be_bytes(v as nat, (32 - (i + 1)) as nat).push((old_v % 256) as u8) + old_suffix
                =~= be_bytes(v as nat, (32 - (i + 1)) as nat) + (seq![(old_v % 256) as u8] + old_suffix));
        }
        i = i + 1;
    }
    assert(result@.subrange(0, 32) =~= result@);
    result
}

/// Writing back the little-endian value of a byte string gives the string.
pub proof fn lemma_le_bytes_of_value(s: Seq<u8>)
    ensures
        le_bytes(le_value(s), s.len()) == s,
    decreases s.len(),
{
    if s.len() > 0 {
        let t = s.subrange(1, s.len() as int);
        lemma_le_bytes_of_value(t);
        let x = le_value(s);
        assert(x % 256 == s[0] as nat && x / 256 == le_value(t)) by (nonlinear_arith)
            requires
                x == s[0] as nat + 256 * le_value(t),
                s[0] < 256,
        ;
        assert(seq![s[0]] + t =~= s);
    }
}

/// Appends `n` written little-endian in 8 bytes to `v`.
pub fn append_u64_le(v: &mut Vec<u8>, n: u64)
    ensures
        final(v)@ == old(v)@ + le_bytes(n as nat, 8),
{
    let mut x: u64 = n;
    let mut i: usize = 0;
    while i < 8
        invariant
            0 <= i <= 8,
            old(v)@ + le_bytes(n as nat, 8) == v@ + le_bytes(x as nat, (8 - i) as nat),
        decreases 8 - i,
    {
        let ghost before = v@;
        let ghost old_x = x;
        v.push((x % 256) as u8);
        x = x / 256;
        assert(le_bytes(old_x as nat, (8 - i) as nat) == seq![(old_x % 256) as u8] + le_bytes(
            x as nat,
            (8 - (i + 1)) as nat,
        ));
        assert(before + (seq![(old_x % 256) as u8] + le_bytes(x as nat, (8 - (i + 1)) as nat)) =~= v@
            + le_bytes(x as nat, (8 - (i + 1)) as nat));
        i = i + 1;
    }
    assert(v@ + le_bytes(x as nat, 0) =~= v@);
}

/// The 32 bytes of `s` from `start`.
pub fn read_array32(s: &[u8], start: usize) -> (r: [u8; 32])
    requires
        start + 32 <= s@.len(),
    ensures
        r@ == s@.subrange(start as int, start + 32),
{
    let len = s.len();
    let mut r: [u8; 32] = [0; 32];
    let mut i: usize = 0;
    while i < 32
        invariant
            0 <= i <= 32,
            start + 32 <= s@.len(),
            len == s@.len(),
            forall|j: int| 0 <= j < i ==> r@[j] == s@[start + j],
        decreases 32 - i,
    {
        r[i] = s[start + i];
        i = i + 1;
    }
    assert(r@ =~= s@.subrange(start as int, start + 32));
    r
}

/// The 64 bytes of `s` from `start`.
pub fn read_array64(s: &[u8], start: usize) -> (r: [u8; 64])
    requires
        start + 64 <= s@.len(),
    ensures
        r@ == s@.subrange(start as int, start + 64),
{
    let len = s.len();
    let mut r: [u8; 64] = [0; 64];
    let mut i: usize = 0;
    while i < 64
        invariant
            0 <= i <= 64,
            start + 64 <= s@.len(),
            len == s@.len(),
            forall|j: int| 0 <= j < i ==> r@[j] == s@[start + j],
        decreases 64 - i,
    {
        r[i] = s[start + i];
        i = i + 1;
    }
    assert(r@ =~= s@.subrange(start as int, start + 64));
    r
}

/// Appends the bytes of `s` to `v`.
pub fn append_bytes(v: &mut Vec<u8>, s: &[u8])
    ensures
        final(v)@ == old(v)@ + s@,
{
    let mut i: usize = 0;
    while i < s.len()
        invariant
            0 <= i <= s@.len(),
            v@ == old(v)@ + s@.subrange(0, i as int),
        decreases s@.len() - i,
    {
        v.push(s[i]);
        assert(s@.subrange(0, i + 1) =~= s@.subrange(0, i as int).push(s@[i as int]));
        i = i + 1;
    }
    assert(s@.subrange(0, s@.len() as int) =~= s@);
}

/// The little-endian `u64` held by `s[start..start + 8]`.
pub fn read_u64_le(s: &[u8], start: usize) -> (r: u64)
    requires
        start + 8 <= s@.len(),
    ensures
        r as nat == le_value(s@.subrange(start as int, start + 8)),
{
    let n = s.len();
    let mut v: u64 = 0;
    let mut i: usize = 8;
    while i > 0
        invariant
            0 <= i <= 8,
            start + 8 <= s@.len(),
            n == s@.len(),
            v as nat == le_value(s@.subrange(start + i, start + 8)),
            v < pow256((8 - i) as nat),
        decreases i,
    {
        let ghost t = s@.subrange(start + i, start + 8);
        let ghost u = s@.subrange(start + i - 1, start + 8);
        assert(u.subrange(1, u.len() as int) =~= t);
        let b = s[start + i - 1];
        proof {
            reveal_with_fuel(pow256, 9);
            assert(pow256((8 - (i - 1)) as nat) == 256 * pow256((8 - i) as nat));
            assert(pow256((8 - i) as nat) <= pow256(7));
            assert(b as nat + 256 * (v as nat) < 256 * pow256((8 - i) as nat)) by (nonlinear_arith)
                requires
                    b < 256,
                    v < pow256((8 - i) as nat),
            ;
        }
        v = b as u64 + 256 * v;
        i = i - 1;
    }
    v
}

} // verus!
