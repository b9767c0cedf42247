//! Generic buffer operations of the per-frame pipeline.
//!
//! The pipeline moves samples between fixed-size buffers in a handful of
//! shapes: two frames concatenated into an analysis window, a history
//! buffer shifted left by one frame, a window gathered at a pitch lag, and
//! a 2:1 decimation.  The element type is generic; the sample kernels
//! instantiate these with their sample type.

use vstd::prelude::*;

verus! {

/// The smallest of three lengths.
pub open spec fn spec_min3(a: int, b: int, c: int) -> int {
    if a <= b && a <= c {
        a
    } else if b <= c {
        b
    } else {
        c
    }
}

/// Zips three sequences into one sequence of triples, as long as the
/// shortest input.
pub fn zip3<A: Copy, B: Copy, C: Copy>(xs: &Vec<A>, ys: &Vec<B>, zs: &Vec<C>) -> (r: Vec<
    (A, B, C),
>)
    ensures
        r@.len() == spec_min3(xs@.len() as int, ys@.len() as int, zs@.len() as int),
        forall|i: int| 0 <= i < r@.len() ==> r@[i] == (xs@[i], ys@[i], zs@[i]),
{
    let mut r: Vec<(A, B, C)> = Vec::new();
    let mut i: usize = 0;
    while i < xs.len() && i < ys.len() && i < zs.len()
        invariant
            i <= xs@.len(),
            i <= ys@.len(),
            i <= zs@.len(),
            i < spec_min3(xs@.len() as int, ys@.len() as int, zs@.len() as int) + 1,
            r@.len() == i,
            forall|k: int| 0 <= k < i ==> r@[k] == (xs@[k], ys@[k], zs@[k]),
        decreases xs@.len() - i,
    {
        r.push((xs[i], ys[i], zs[i]));
        i = i + 1;
    }
    r
}

/// Concatenates two buffers: the saved previous frame followed by the
/// current one forms the analysis window.
pub fn concat_frames<T: Copy>(first: &Vec<T>, second: &Vec<T>) -> (r: Vec<T>)
    requires
        first@.len() + second@.len() <= usize::MAX,
    ensures
        r@ == first@ + second@,
{
    let mut r: Vec<T> = Vec::new();
    let mut i: usize = 0;
    while i < first.len()
        invariant
            i <= first@.len(),
            r@ == first@.subrange(0, i as int),
        decreases first@.len() - i,
    {
        r.push(first[i]);
        assert(r@ =~= first@.subrange(0, i + 1));
        i = i + 1;
    }
    let mut j: usize = 0;
    while j < second.len()
        invariant
            j <= second@.len(),
            r@ == first@ + second@.subrange(0, j as int),
        decreases second@.len() - j,
    {
        r.push(second[j]);
        assert(r@ =~= first@ + second@.subrange(0, j + 1));
        j = j + 1;
    }
    assert(r@ =~= first@ + second@);
    r
}

/// Shifts a history buffer left by the length of `input` and appends
/// `input` at the end; the buffer keeps its length and afterwards holds
/// the most recent samples in order.
pub fn shift_in<T: Copy>(buf: &mut Vec<T>, input: &Vec<T>)
    requires
        input@.len() <= old(buf)@.len(),
    ensures
        final(buf)@.len() == old(buf)@.len(),
        final(buf)@ == old(buf)@.skip(input@.len() as int) + input@,
{
    let n = buf.len();
    let m = input.len();
    let mut i: usize = 0;
    while i < n - m
        invariant
            m == input@.len(),
            n == buf@.len(),
            m <= n,
            i <= n - m,
            buf@.len() == old(buf)@.len(),
            forall|k: int| 0 <= k < i ==> buf@[k] == old(buf)@[k + m],
            forall|k: int| i <= k < n ==> buf@[k] == old(buf)@[k],
        decreases n - m - i,
    {
        let v = buf[i + m];
        buf[i] = v;
        i = i + 1;
    }
    let mut j: usize = 0;
    while j < m
        invariant
            m == input@.len(),
            n == buf@.len(),
            m <= n,
            j <= m,
            buf@.len() == old(buf)@.len(),
            forall|k: int| 0 <= k < n - m ==> buf@[k] == old(buf)@[k + m],
            forall|k: int| 0 <= k < j ==> buf@[n - m + k] == input@[k],
        decreases m - j,
    {
        buf[n - m + j] = input[j];
        j = j + 1;
    }
    assert(buf@ =~= old(buf)@.skip(m as int) + input@);
}

/// Copies `len` consecutive elements starting at `start`: the window of
/// pitch history aligned at the found pitch lag.
pub fn gather<T: Copy>(xs: &Vec<T>, start: usize, len: usize) -> (r: Vec<T>)
    requires
        start + len <= xs@.len(),
    ensures
        r@ == xs@.subrange(start as int, start as int + len as int),
{
    let n = xs.len();
    let mut r: Vec<T> = Vec::new();
    let mut i: usize = 0;
    while i < len
        invariant
            i <= len,
            start + len <= n,
            n == xs@.len(),
            r@ == xs@.subrange(start as int, start as int + i as int),
        decreases len - i,
    {
        r.push(xs[start + i]);
        assert(r@ =~= xs@.subrange(start as int, start as int + i + 1));
        i = i + 1;
    }
    r
}

/// Keeps every second element, starting with the first: the stride-2
/// decimation of the coarse pitch search.
pub fn decimate2<T: Copy>(xs: &Vec<T>, len: usize) -> (r: Vec<T>)
    requires
        len == 0 || 2 * (len - 1) < xs@.len(),
    ensures
        r@.len() == len,
        forall|i: int| 0 <= i < len ==> r@[i] == xs@[2 * i],
{
    let n = xs.len();
    let mut r: Vec<T> = Vec::new();
    let mut i: usize = 0;
    while i < len
        invariant
            i <= len,
            len == 0 || 2 * (len - 1) < n,
            n == xs@.len(),
            r@.len() == i,
            forall|k: int| 0 <= k < i ==> r@[k] == xs@[2 * k],
        decreases len - i,
    {
        r.push(xs[2 * i]);
        i = i + 1;
    }
    r
}

} // verus!
