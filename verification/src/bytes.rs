//! Byte stores with absorbing bounds: reads beyond the end yield zero and
//! writes beyond the end are dropped, so malformed accesses never fail.

use vstd::prelude::*;

verus! {

/// Byte `j` of the store; zero beyond its end.
pub open spec fn byte_at(s: Seq<u8>, j: int) -> u8 {
    if 0 <= j < s.len() {
        s[j]
    } else {
        0
    }
}

/// The store after writing `data` at `start`: bytes inside the window take
/// the new value, bytes outside keep theirs, and window bytes beyond the end
/// of the store are dropped.
pub open spec fn bytes_written(s: Seq<u8>, start: int, data: Seq<u8>) -> Seq<u8> {
    Seq::new(
        s.len(),
        |j: int|
            if start <= j < start + data.len() {
                data[j - start]
            } else {
                s[j]
            },
    )
}

/// The little-endian 32-bit word spanning bytes `4*i .. 4*i + 4` of the
/// store.
pub open spec fn word_at(s: Seq<u8>, i: int) -> u32 {
    (byte_at(s, 4 * i) + byte_at(s, 4 * i + 1) * 0x100 + byte_at(s, 4 * i + 2) * 0x10000 + byte_at(
        s,
        4 * i + 3,
    ) * 0x1000000) as u32
}

/// Reads byte `base + rel`; zero when that is outside the store.
pub fn peek(v: &Vec<u8>, base: usize, rel: usize) -> (r: u8)
    ensures
        r == byte_at(v@, base + rel),
{
    if base < v.len() && rel < v.len() - base {
        v[base + rel]
    } else {
        0
    }
}

/// Writes byte `base + rel` when that is inside the store; absorbed
/// otherwise.
pub fn poke(v: &mut Vec<u8>, base: usize, rel: usize, b: u8)
    ensures
        final(v)@ == (if base + rel < old(v)@.len() {
            old(v)@.update(base + rel, b)
        } else {
            old(v)@
        }),
{
    if base < v.len() && rel < v.len() - base {
        v.set(base + rel, b);
    }
}

/// Appends a copy of `src` to `dst`.
pub fn extend_bytes(dst: &mut Vec<u8>, src: &Vec<u8>)
    ensures
        final(dst)@ == old(dst)@ + src@,
{
    let mut i: usize = 0;
    while i < src.len()
        invariant
            i <= src@.len(),
            dst@ == old(dst)@ + src@.take(i as int),
        decreases src@.len() - i,
    {
        dst.push(src[i]);
        proof {
            assert(dst@ =~= old(dst)@ + src@.take(i as int + 1));
        }
        i += 1;
    }
    proof {
        assert(old(dst)@ + src@.take(src@.len() as int) =~= old(dst)@ + src@);
    }
}

/// Appends a copy of `src` to `dst`.
pub fn extend_ranges(dst: &mut Vec<(u64, u64)>, src: &Vec<(u64, u64)>)
    ensures
        final(dst)@ == old(dst)@ + src@,
{
    let mut i: usize = 0;
    while i < src.len()
        invariant
            i <= src@.len(),
            dst@ == old(dst)@ + src@.take(i as int),
        decreases src@.len() - i,
    {
        dst.push(src[i]);
        proof {
            assert(dst@ =~= old(dst)@ + src@.take(i as int + 1));
        }
        i += 1;
    }
    proof {
        assert(old(dst)@ + src@.take(src@.len() as int) =~= old(dst)@ + src@);
    }
}

} // verus!
