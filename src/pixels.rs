//! The pixel interleaver: builds one RGBA8 buffer out of two of equal length.

use vstd::prelude::*;

verus! {

/// Whether byte `j` of an interleaved buffer comes from the first source.
/// Pixel `k` occupies bytes `4k .. 4k+4`; even pixels come from the first
/// source, odd pixels from the second.
pub open spec fn takes_first(j: int) -> bool {
    (j / 4) % 2 == 0
}

/// The interleaving of `a` and `b`, byte by byte.
pub open spec fn interleaved(a: Seq<u8>, b: Seq<u8>) -> Seq<u8> {
    Seq::new(a.len(), |j: int| if takes_first(j) { a[j] } else { b[j] })
}

/// Copies the bytes `start ..= end` of `vec` into a new vector; the range
/// is empty when `start > end`.
pub fn set_rgba(vec: &Vec<u8>, start: usize, end: usize) -> (rgba: Vec<u8>)
    requires
        start > end || end < vec.len(),
    ensures
        rgba@ == if start <= end {
            vec@.subrange(start as int, end + 1)
        } else {
            Seq::<u8>::empty()
        },
{
    let mut rgba: Vec<u8> = Vec::new();
    if start > end {
        return rgba;
    }
    let mut i: usize = start;
    while i <= end
        invariant
            start <= i <= end + 1,
            end < vec.len(),
            rgba@ == vec@.subrange(start as int, i as int),
        decreases end + 1 - i,
    {
        rgba.push(vec[i]);
        i += 1;
    }
    rgba
}

/// Overwrites the four bytes of `buf` that start at `at` with `rgba`.
fn splice_pixel(buf: &mut Vec<u8>, at: usize, rgba: &Vec<u8>)
    requires
        at + 4 <= old(buf).len(),
        rgba@.len() == 4,
    ensures
        final(buf)@.len() == old(buf)@.len(),
        forall|j: int| 0 <= j < at ==> final(buf)@[j] == old(buf)@[j],
        forall|j: int| at <= j < at + 4 ==> final(buf)@[j] == rgba@[j - at],
{
    buf[at] = rgba[0];
    buf[at + 1] = rgba[1];
    buf[at + 2] = rgba[2];
    buf[at + 3] = rgba[3];
}

/// Interleaves two RGBA8 buffers of equal length: pixel 0 comes from `vec1`,
/// and after it every pixel at a byte offset divisible by 8 comes from `vec1`,
/// every other pixel from `vec2`. The net effect is that even pixels come
/// from `vec1` and odd pixels from `vec2`; the first pixel is still handled
/// on its own, as the offset rule is stated for the pixels after it.
pub fn alternate_pixels(vec1: Vec<u8>, vec2: Vec<u8>) -> (combined: Vec<u8>)
    requires
        vec1@.len() == vec2@.len(),
        vec1@.len() % 4 == 0,
    ensures
        combined@ == interleaved(vec1@, vec2@),
{
    let len = vec1.len();
    let mut combine_data: Vec<u8> = vec![0u8; len];
    let mut i: usize = 0;

    if len >= 4 {
        let rgba = set_rgba(&vec1, i, i + 3);
        splice_pixel(&mut combine_data, i, &rgba);
        i += 4;
    }

    while i < len
        invariant
            len == vec1@.len(),
            len == vec2@.len(),
            len % 4 == 0,
            combine_data@.len() == len,
            i % 4 == 0,
            i <= len,
            forall|j: int| 0 <= j < i ==> combine_data@[j] == interleaved(vec1@, vec2@)[j],
        decreases len - i,
    {
        let rgba = if i % 8 == 0 {
            set_rgba(&vec1, i, i + 3)
        } else {
            set_rgba(&vec2, i, i + 3)
        };
        splice_pixel(&mut combine_data, i, &rgba);
        assert forall|j: int| i <= j < i + 4 implies takes_first(j) == (i % 8 == 0) by {
            assert(j / 4 == i / 4);
        }
        i += 4;
    }
    assert(combine_data@ =~= interleaved(vec1@, vec2@));
    combine_data
}

/// The interleaving keeps the length of its inputs, takes its first pixel
/// from the first buffer, and takes every later pixel `k` from the first
/// buffer when `k` is even and from the second when `k` is odd.
pub proof fn lemma_interleave_pixels(a: Seq<u8>, b: Seq<u8>)
    requires
        a.len() == b.len(),
        a.len() % 4 == 0,
    ensures
        interleaved(a, b).len() == a.len(),
        a.len() >= 4 ==> interleaved(a, b).subrange(0, 4) == a.subrange(0, 4),
        forall|k: int|
            1 <= k < a.len() / 4 ==> #[trigger] interleaved(a, b).subrange(4 * k, 4 * k + 4) == if k % 2 == 0 {
                a.subrange(4 * k, 4 * k + 4)
            } else {
                b.subrange(4 * k, 4 * k + 4)
            },
{
    let r = interleaved(a, b);
    if a.len() >= 4 {
        assert(r.subrange(0, 4) =~= a.subrange(0, 4));
    }
    assert forall|k: int| 1 <= k < a.len() / 4 implies #[trigger] r.subrange(4 * k, 4 * k + 4) == if k % 2 == 0 {
        a.subrange(4 * k, 4 * k + 4)
    } else {
        b.subrange(4 * k, 4 * k + 4)
    } by {
        assert forall|j: int| 4 * k <= j < 4 * k + 4 implies #[trigger] takes_first(j) == (k % 2 == 0) by {
            assert(j / 4 == k);
        }
        if k % 2 == 0 {
            assert(r.subrange(4 * k, 4 * k + 4) =~= a.subrange(4 * k, 4 * k + 4));
        } else {
            assert(r.subrange(4 * k, 4 * k + 4) =~= b.subrange(4 * k, 4 * k + 4));
        }
    }
}

/// Interleaving is not symmetric: for any two different buffers of equal
/// length, swapping the arguments changes the result.
pub proof fn lemma_interleave_not_symmetric(a: Seq<u8>, b: Seq<u8>)
    requires
        a.len() == b.len(),
        a != b,
    ensures
        interleaved(a, b) != interleaved(b, a),
{
    if forall|j: int| 0 <= j < a.len() ==> a[j] == b[j] {
        assert(a =~= b);
    }
    let j = choose|j: int| 0 <= j < a.len() && a[j] != b[j];
    assert(interleaved(a, b)[j] != interleaved(b, a)[j]);
}

} // verus!
