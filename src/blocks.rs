use vstd::prelude::*;
use vstd::arithmetic::div_mod::{
    lemma_fundamental_div_mod, lemma_mod_multiples_basic, lemma_mod_pos_bound,
};

verus! {

/// The part of one device block that a byte transfer touches.
#[derive(Clone, Copy, Debug, PartialEq, Eq, Structural)]
pub struct Segment {
    /// Index of the block on the device.
    pub block: u64,
    /// First byte of the block that is touched.
    pub start: usize,
    /// Number of bytes touched.
    pub len: usize,
    /// Where those bytes sit in the caller's buffer.
    pub buf_off: usize,
}

/// The segment lies inside one block of `bs` bytes and maps buffer offset
/// `buf_off` to device offset `pos + buf_off`.
pub open spec fn segment_placed(s: Segment, pos: nat, bs: nat) -> bool {
    &&& s.len > 0
    &&& s.start + s.len <= bs
    &&& s.block * bs + s.start == pos + s.buf_off
}

/// `segs` cuts the device range `[pos, pos + len)` at block boundaries, in
/// order: the first segment begins at buffer offset 0, each next one where the
/// previous ended, every one but the first at the start of its block, every
/// one but the last at the end of its block, and the last ends at `len`.
pub open spec fn segments_cover(segs: Seq<Segment>, pos: nat, len: nat, bs: nat) -> bool {
    &&& (segs.len() == 0 <==> len == 0)
    &&& forall|i: int| 0 <= i < segs.len() ==> segment_placed(#[trigger] segs[i], pos, bs)
    &&& forall|i: int| 0 < i < segs.len() ==> (#[trigger] segs[i]).start == 0
    &&& forall|i: int|
        0 <= i < segs.len() - 1 ==> (#[trigger] segs[i]).start + segs[i].len == bs
            && segs[i + 1].buf_off == segs[i].buf_off + segs[i].len
    &&& segs.len() > 0 ==> segs[0].buf_off == 0 && segs.last().buf_off + segs.last().len == len
}

/// Splits a transfer of `len` bytes at device offset `pos` into the parts of
/// the blocks of `block_size` bytes that it touches.
pub fn block_segments(pos: u64, len: usize, block_size: usize) -> (r: Vec<Segment>)
    requires
        block_size > 0,
        pos + len <= u64::MAX,
    ensures
        segments_cover(r@, pos as nat, len as nat, block_size as nat),
{
    let bs: u64 = block_size as u64;
    let mut segs: Vec<Segment> = Vec::new();
    let mut done: usize = 0;
    while done < len
        invariant
            done <= len,
            pos + len <= u64::MAX,
            bs == block_size,
            bs > 0,
            segs.len() == 0 <==> done == 0,
            forall|i: int|
                0 <= i < segs.len() ==> segment_placed(#[trigger] segs@[i], pos as nat, bs as nat),
            forall|i: int| 0 < i < segs.len() ==> (#[trigger] segs@[i]).start == 0,
            forall|i: int|
                0 <= i < segs.len() - 1 ==> (#[trigger] segs@[i]).start + segs@[i].len == bs
                    && segs@[i + 1].buf_off == segs@[i].buf_off + segs@[i].len,
            segs.len() > 0 ==> segs@[0].buf_off == 0 && segs@.last().buf_off + segs@.last().len
                == done,
            segs.len() > 0 && done < len ==> segs@.last().start + segs@.last().len == bs,
        decreases len - done,
    {
        let at: u64 = pos + done as u64;
        let block: u64 = at / bs;
        let start: u64 = at % bs;
        proof {
            lemma_fundamental_div_mod(at as int, bs as int);
            lemma_mod_pos_bound(at as int, bs as int);
            assert(block * bs + start == at) by (nonlinear_arith)
                requires
                    at == bs * (at / bs) + at % bs,
                    block == at / bs,
                    start == at % bs,
            ;
            if segs.len() > 0 {
                let p = segs@.last();
                assert(at == (p.block + 1) * bs) by (nonlinear_arith)
                    requires
                        p.block * bs + p.start == pos + p.buf_off,
                        p.start + p.len == bs,
                        at == pos + p.buf_off + p.len,
                ;
                lemma_mod_multiples_basic(p.block + 1, bs as int);
            }
        }
        let room: usize = (bs - start) as usize;
        let rest: usize = len - done;
        let n: usize = if room < rest {
            room
        } else {
            rest
        };
        let seg = Segment { block, start: start as usize, len: n, buf_off: done };
        segs.push(seg);
        done = done + n;
    }
    segs
}

/// A segment that covers only part of its block must be written by reading
/// the block, changing the covered bytes, and writing the block back.
pub fn needs_merge(seg: &Segment, block_size: usize) -> (r: bool)
    ensures
        r == (seg.start != 0 || seg.len != block_size),
{
    seg.start != 0 || seg.len != block_size
}

/// Copies `n` bytes of `src` from `src_off` over `dst` at `dst_off`, keeping
/// the other bytes of `dst`.
pub fn splice_bytes(dst: &mut Vec<u8>, dst_off: usize, src: &[u8], src_off: usize, n: usize)
    requires
        dst_off + n <= old(dst).len(),
        src_off + n <= src.len(),
    ensures
        final(dst).len() == old(dst).len(),
        forall|i: int|
            0 <= i < final(dst).len() ==> #[trigger] final(dst)@[i] == if dst_off <= i < dst_off
                + n {
                src@[src_off + i - dst_off]
            } else {
                old(dst)@[i]
            },
{
    let mut k: usize = 0;
    while k < n
        invariant
            k <= n,
            dst_off + n <= dst.len(),
            src_off + n <= src.len(),
            dst.len() == old(dst).len(),
            forall|i: int|
                0 <= i < dst.len() ==> #[trigger] dst@[i] == if dst_off <= i < dst_off + k {
                    src@[src_off + i - dst_off]
                } else {
                    old(dst)@[i]
                },
        decreases n - k,
    {
        dst.set(dst_off + k, src[src_off + k]);
        k = k + 1;
    }
}

} // verus!
