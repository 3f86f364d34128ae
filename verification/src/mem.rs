use vstd::prelude::*;

verus! {

/// `buf` after the `n` bytes at `src` have been copied to `dest`: the bytes
/// at `dest .. dest + n` are those that stood at `src .. src + n` before,
/// and every other byte is unchanged.
pub open spec fn moved(buf: Seq<u8>, dest: int, src: int, n: int) -> Seq<u8> {
    Seq::new(buf.len(), |k: int| if dest <= k < dest + n { buf[src + k - dest] } else { buf[k] })
}

/// `dest` after its first `n` bytes have been overwritten with those of `src`.
pub open spec fn copied(dest: Seq<u8>, src: Seq<u8>, n: int) -> Seq<u8> {
    Seq::new(dest.len(), |k: int| if k < n { src[k] } else { dest[k] })
}

/// `dest` after its first `n` bytes have been set to `byte`.
pub open spec fn filled(dest: Seq<u8>, byte: u8, n: int) -> Seq<u8> {
    Seq::new(dest.len(), |k: int| if k < n { byte } else { dest[k] })
}

/// The result of comparing `a` and `b` byte by byte: the difference
/// `a[k] - b[k]` at the first index `k` where they differ, or 0 where they
/// agree on all of their first `n` bytes.
pub open spec fn compared(a: Seq<u8>, b: Seq<u8>, n: nat) -> int
    decreases n,
{
    if n == 0 {
        0
    } else if a[0] != b[0] {
        a[0] - b[0]
    } else {
        compared(a.drop_first(), b.drop_first(), (n - 1) as nat)
    }
}

/// Copies the first `n` bytes of `src` over the first `n` bytes of `dest`.
pub fn memcpy(dest: &mut [u8], src: &[u8], n: usize)
    requires
        n <= old(dest)@.len(),
        n <= src@.len(),
    ensures
        final(dest)@ == copied(old(dest)@, src@, n as int),
        final(dest)@.len() == old(dest)@.len(),
        forall|k: int| 0 <= k < n ==> #[trigger] final(dest)@[k] == src@[k],
        forall|k: int| n <= k < old(dest)@.len() ==> #[trigger] final(dest)@[k] == old(dest)@[k],
{
    let mut i: usize = 0;
    while i < n
        invariant
            i <= n,
            n <= dest@.len(),
            n <= src@.len(),
            dest@.len() == old(dest)@.len(),
            forall|k: int| 0 <= k < i ==> dest@[k] == src@[k],
            forall|k: int| i <= k < dest@.len() ==> dest@[k] == old(dest)@[k],
        decreases n - i,
    {
        dest[i] = src[i];
        i = i + 1;
    }
    assert(dest@ =~= copied(old(dest)@, src@, n as int));
}

/// Copies the `n` bytes of `buf` that start at `src` to the place that
/// starts at `dest`, as though through a temporary buffer: the two ranges
/// may overlap.
pub fn memmove(buf: &mut [u8], dest: usize, src: usize, n: usize)
    requires
        dest + n <= old(buf)@.len(),
        src + n <= old(buf)@.len(),
    ensures
        final(buf)@ == moved(old(buf)@, dest as int, src as int, n as int),
        final(buf)@.len() == old(buf)@.len(),
        forall|k: int| 0 <= k < n ==> #[trigger] final(buf)@[dest + k] == old(buf)@[src + k],
        forall|k: int|
            0 <= k < old(buf)@.len() && !(dest <= k < dest + n) ==> #[trigger] final(buf)@[k] == old(buf)@[k],
{
    let ghost orig = buf@;
    let len = buf.len();
    if dest < src {
        let mut i: usize = 0;
        while i < n
            invariant
                dest < src,
                i <= n,
                dest + n <= orig.len(),
                src + n <= orig.len(),
                len == orig.len(),
                buf@.len() == orig.len(),
                forall|k: int| dest <= k < dest + i ==> buf@[k] == orig[src + k - dest],
                forall|k: int| 0 <= k < buf@.len() && !(dest <= k < dest + i) ==> buf@[k] == orig[k],
            decreases n - i,
        {
            let b = buf[src + i];
            buf[dest + i] = b;
            i = i + 1;
        }
    } else {
        let mut i: usize = n;
        while i > 0
            invariant
                dest >= src,
                i <= n,
                dest + n <= orig.len(),
                src + n <= orig.len(),
                len == orig.len(),
                buf@.len() == orig.len(),
                forall|k: int| dest + i <= k < dest + n ==> buf@[k] == orig[src + k - dest],
                forall|k: int| 0 <= k < buf@.len() && !(dest + i <= k < dest + n) ==> buf@[k] == orig[k],
            decreases i,
        {
            i = i - 1;
            let b = buf[src + i];
            buf[dest + i] = b;
        }
    }
    assert(buf@ =~= moved(orig, dest as int, src as int, n as int));
}

/// Sets the first `n` bytes of `dest` to the low byte of `c`.
pub fn memset(dest: &mut [u8], c: i32, n: usize)
    requires
        n <= old(dest)@.len(),
    ensures
        final(dest)@ == filled(old(dest)@, c as u8, n as int),
        final(dest)@.len() == old(dest)@.len(),
        forall|k: int| 0 <= k < n ==> #[trigger] final(dest)@[k] == c as u8,
        forall|k: int| n <= k < old(dest)@.len() ==> #[trigger] final(dest)@[k] == old(dest)@[k],
{
    let byte = c as u8;
    let mut i: usize = 0;
    while i < n
        invariant
            i <= n,
            n <= dest@.len(),
            dest@.len() == old(dest)@.len(),
            forall|k: int| 0 <= k < i ==> dest@[k] == byte,
            forall|k: int| i <= k < dest@.len() ==> dest@[k] == old(dest)@[k],
        decreases n - i,
    {
        dest[i] = byte;
        i = i + 1;
    }
    assert(dest@ =~= filled(old(dest)@, byte, n as int));
}

proof fn lemma_compared_equal_prefix(a: Seq<u8>, b: Seq<u8>, i: nat, n: nat)
    requires
        i <= n,
        n <= a.len(),
        n <= b.len(),
        forall|k: int| 0 <= k < i ==> a[k] == b[k],
    ensures
        compared(a, b, n) == compared(a.skip(i as int), b.skip(i as int), (n - i) as nat),
    decreases i,
{
    if i > 0 {
        assert(a[0] == b[0]);
        lemma_compared_equal_prefix(a.drop_first(), b.drop_first(), (i - 1) as nat, (n - 1) as nat);
        assert(a.drop_first().skip(i - 1) =~= a.skip(i as int));
        assert(b.drop_first().skip(i - 1) =~= b.skip(i as int));
    } else {
        assert(a.skip(0) =~= a);
        assert(b.skip(0) =~= b);
    }
}

/// The comparison of the first `n` bytes of `a` and `b`.
pub open spec fn bytes_compared(a: Seq<u8>, b: Seq<u8>, n: usize) -> int {
    compared(a, b, n as nat)
}

/// Where the first `i` bytes agree and those at `i` differ, the comparison
/// is the difference of the bytes at `i`: the first byte of `a` less that
/// of `b`, so that `a` compares below `b` exactly when its byte is smaller.
pub proof fn law_compare_first_difference(a: Seq<u8>, b: Seq<u8>, i: usize, n: usize)
    requires
        i < n,
        n <= a.len(),
        n <= b.len(),
        forall|k: int| 0 <= k < i ==> a[k] == b[k],
        a[i as int] != b[i as int],
    ensures
        bytes_compared(a, b, n) == a[i as int] - b[i as int],
{
    lemma_compared_equal_prefix(a, b, i as nat, n as nat);
    assert(a.skip(i as int)[0] == a[i as int]);
    assert(b.skip(i as int)[0] == b[i as int]);
}

/// Where the first `n` bytes agree, the comparison is 0.
proof fn lemma_no_difference(a: Seq<u8>, b: Seq<u8>, n: usize)
    requires
        n <= a.len(),
        n <= b.len(),
        forall|k: int| 0 <= k < n ==> a[k] == b[k],
    ensures
        bytes_compared(a, b, n) == 0,
{
    lemma_compared_equal_prefix(a, b, n as nat, n as nat);
}

/// The difference of two bytes, as a signed number.
fn byte_difference(x: u8, y: u8) -> (r: i32)
    ensures
        r == x - y,
{
    x as i32 - y as i32
}

/// Compares the first `n` bytes of `a` and `b`: the difference of the first
/// pair of bytes that differ, or 0 where all `n` pairs are equal.
pub fn memcmp(a: &[u8], b: &[u8], n: usize) -> (r: i32)
    requires
        n <= a@.len(),
        n <= b@.len(),
    ensures
        r == bytes_compared(a@, b@, n),
        (forall|k: int| 0 <= k < n ==> a@[k] == b@[k]) ==> r == 0,
        forall|i: int|
            0 <= i < n && a@[i] != b@[i] && (forall|k: int| 0 <= k < i ==> a@[k] == b@[k])
                ==> r == a@[i] - b@[i],
{
    let mut i: usize = 0;
    while i < n
        invariant
            i <= n,
            n <= a@.len(),
            n <= b@.len(),
            forall|k: int| 0 <= k < i ==> a@[k] == b@[k],
        decreases n - i,
    {
        let av = a[i];
        let bv = b[i];
        if av != bv {
            proof {
                law_compare_first_difference(a@, b@, i, n);
            }
            return byte_difference(av, bv);
        }
        i = i + 1;
    }
    proof {
        lemma_no_difference(a@, b@, n);
    }
    0
}

/// Comparing two byte strings gives 0 exactly where their first `n` bytes
/// agree.
pub proof fn law_compare_zero_iff_equal(a: Seq<u8>, b: Seq<u8>, n: usize)
    requires
        n <= a.len(),
        n <= b.len(),
    ensures
        bytes_compared(a, b, n) == 0 <==> (forall|k: int| 0 <= k < n ==> a[k] == b[k]),
{
    lemma_compared_zero_iff_equal(a, b, n as nat);
}

proof fn lemma_compared_zero_iff_equal(a: Seq<u8>, b: Seq<u8>, n: nat)
    requires
        n <= a.len(),
        n <= b.len(),
    ensures
        compared(a, b, n) == 0 <==> (forall|k: int| 0 <= k < n ==> a[k] == b[k]),
    decreases n,
{
    if n > 0 {
        lemma_compared_zero_iff_equal(a.drop_first(), b.drop_first(), (n - 1) as nat);
        if a[0] == b[0] {
            assert((forall|k: int| 0 <= k < n ==> a[k] == b[k]) <==> (forall|k: int|
                0 <= k < n - 1 ==> a.drop_first()[k] == b.drop_first()[k])) by {
                if forall|k: int| 0 <= k < n - 1 ==> a.drop_first()[k] == b.drop_first()[k] {
                    assert forall|k: int| 0 <= k < n implies a[k] == b[k] by {
                        if k > 0 {
                            assert(a.drop_first()[k - 1] == b.drop_first()[k - 1]);
                        }
                    }
                }
            }
        }
    }
}

/// Comparing `a` with `b` gives the negation of comparing `b` with `a`.
pub proof fn law_compare_antisymmetric(a: Seq<u8>, b: Seq<u8>, n: usize)
    requires
        n <= a.len(),
        n <= b.len(),
    ensures
        bytes_compared(a, b, n) == -bytes_compared(b, a, n),
{
    lemma_compared_antisymmetric(a, b, n as nat);
}

proof fn lemma_compared_antisymmetric(a: Seq<u8>, b: Seq<u8>, n: nat)
    requires
        n <= a.len(),
        n <= b.len(),
    ensures
        compared(a, b, n) == -compared(b, a, n),
    decreases n,
{
    if n > 0 {
        lemma_compared_antisymmetric(a.drop_first(), b.drop_first(), (n - 1) as nat);
    }
}

/// After the first `n` bytes of `src` are copied into `dest`, the two
/// compare equal over those `n` bytes.
pub proof fn law_copy_then_compare(dest: Seq<u8>, src: Seq<u8>, n: usize)
    requires
        n <= dest.len(),
        n <= src.len(),
    ensures
        bytes_compared(copied(dest, src, n as int), src, n) == 0,
{
    law_compare_zero_iff_equal(copied(dest, src, n as int), src, n);
}

/// Moving bytes onto the place they already stand leaves the buffer as it
/// was.
pub proof fn law_move_in_place(buf: Seq<u8>, at: int, n: int)
    ensures
        moved(buf, at, at, n) == buf,
{
    assert(moved(buf, at, at, n) =~= buf);
}

/// Where the source and the destination do not overlap, moving bytes
/// within a buffer copies them: the destination then compares equal to
/// what the source held.
pub proof fn law_move_disjoint_copies(buf: Seq<u8>, dest: int, src: int, n: int)
    requires
        0 <= dest,
        0 <= src,
        0 <= n,
        dest + n <= buf.len(),
        src + n <= buf.len(),
        dest + n <= src || src + n <= dest,
    ensures
        moved(buf, dest, src, n).subrange(dest, dest + n) == buf.subrange(src, src + n),
        moved(buf, dest, src, n).subrange(src, src + n) == buf.subrange(src, src + n),
{
    assert(moved(buf, dest, src, n).subrange(dest, dest + n) =~= buf.subrange(src, src + n));
    assert(moved(buf, dest, src, n).subrange(src, src + n) =~= buf.subrange(src, src + n));
}

} // verus!
