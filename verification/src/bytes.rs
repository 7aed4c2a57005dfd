//! Fixed-size byte arrays: cutting a part out, writing a part in, comparing.

use vstd::prelude::*;

verus! {

/// The `N` bytes of `source` that start at `at`.
pub fn read_from<const N: usize>(source: &[u8], at: usize) -> (data: [u8; N])
    requires
        at + N <= source@.len(),
    ensures
        data@ == source@.subrange(at as int, at + N),
{
    let mut data: [u8; N] = [0u8; N];
    let mut i: usize = 0;
    while i < N
        invariant
            i <= N,
            at + N <= source@.len(),
            forall|j: int| 0 <= j < i ==> data@[j] == source@[at + j],
        decreases N - i,
    {
        assert(at + i < source.len());
        data[i] = source[at + i];
        i += 1;
    }
    data
}

/// Puts `part` into `buffer`, from `at` on, and leaves the other bytes as they are.
pub fn write_at<const N: usize>(buffer: &mut [u8; N], at: usize, part: &[u8])
    requires
        at + part@.len() <= N,
    ensures
        final(buffer)@ == old(buffer)@.take(at as int) + part@ + old(buffer)@.skip(
            at + part@.len(),
        ),
{
    let ghost before = buffer@;
    let mut i: usize = 0;
    while i < part.len()
        invariant
            i <= part@.len(),
            at + part@.len() <= N,
            before.len() == N,
            forall|j: int|
                0 <= j < N ==> buffer@[j] == (if at <= j < at + i {
                    part@[j - at]
                } else {
                    before[j]
                }),
        decreases part@.len() - i,
    {
        buffer[at + i] = part[i];
        i += 1;
    }
    assert(buffer@ =~= before.take(at as int) + part@ + before.skip(at + part@.len()));
}

/// Whether two arrays hold the same bytes.
pub fn same_bytes<const N: usize>(a: &[u8; N], b: &[u8; N]) -> (same: bool)
    ensures
        same == (a@ == b@),
{
    let mut i: usize = 0;
    while i < N
        invariant
            i <= N,
            forall|j: int| 0 <= j < i ==> a@[j] == b@[j],
        decreases N - i,
    {
        if a[i] != b[i] {
            assert(a@[i as int] != b@[i as int]);
            return false;
        }
        i += 1;
    }
    assert(a@ =~= b@);
    true
}

/// Two arrays that hold the same bytes are the same array.
pub proof fn bytes_determine_array<const N: usize>(a: [u8; N], b: [u8; N])
    requires
        a@ == b@,
    ensures
        a == b,
{
    assert forall|i: int| 0 <= i < N implies a[i] == b[i] by {
        assert(a@[i] == b@[i]);
    }
    assert(a =~= b);
}

/// The number that `bytes` spell, most significant byte first.
pub open spec fn big_endian(bytes: Seq<u8>) -> nat
    decreases bytes.len(),
{
    if bytes.len() == 0 {
        0
    } else {
        256 * big_endian(bytes.drop_last()) + bytes.last() as nat
    }
}

} // verus!
