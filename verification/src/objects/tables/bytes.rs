//! Byte-buffer operations shared by the table memories.

use vstd::prelude::*;

use super::{filled, read_into, spliced, zeros};

verus! {

/// `n` zero octets.
pub fn zeroed(n: usize) -> (r: Vec<u8>)
    ensures
        r@ == zeros(n as nat),
{
    let mut v: Vec<u8> = Vec::new();
    let mut i: usize = 0;
    while i < n
        invariant
            i <= n,
            v@ == zeros(i as nat),
        decreases n - i,
    {
        v.push(0);
        i = i + 1;
        assert(v@ =~= zeros(i as nat));
    }
    v
}

/// Copy `data` into `v` at `offset`, dropping what falls past the end.
pub fn write_at(v: &mut Vec<u8>, offset: usize, data: &[u8])
    ensures
        final(v)@ == spliced(old(v)@, offset as int, data@),
{
    let n = data.len();
    let mut i: usize = 0;
    while i < n && offset < v.len() && i < v.len() - offset
        invariant
            i <= n,
            n == data@.len(),
            v@.len() == old(v)@.len(),
            v@ == spliced(old(v)@, offset as int, data@.take(i as int)),
        decreases n - i,
    {
        v.set(offset + i, data[i]);
        i = i + 1;
        assert(v@ =~= spliced(old(v)@, offset as int, data@.take(i as int)));
    }
    assert(v@ =~= spliced(old(v)@, offset as int, data@));
}

/// Copy the octets of `v` from `offset` on over `out`, as far as `v` reaches.
pub fn read_at(v: &[u8], offset: usize, out: &mut [u8])
    ensures
        final(out)@ == read_into(v@, offset as int, old(out)@),
{
    let n = out.len();
    let mut i: usize = 0;
    while i < n && offset < v.len() && i < v.len() - offset
        invariant
            i <= n,
            n == out@.len(),
            out@.len() == old(out)@.len(),
            i > 0 ==> offset + i <= v@.len(),
            forall|k: int| 0 <= k < i ==> out@[k] == v@[offset + k],
            forall|k: int| i <= k < n ==> out@[k] == old(out)@[k],
        decreases n - i,
    {
        out[i] = v[offset + i];
        i = i + 1;
    }
    assert(out@ =~= read_into(v@, offset as int, old(out)@));
}

/// Set the octets of `v` in `from..to` to `val`.
pub fn fill_range(v: &mut Vec<u8>, from: usize, to: usize, val: u8)
    requires
        from <= to <= old(v)@.len(),
    ensures
        final(v)@ == Seq::new(
            old(v)@.len(),
            |i: int| if from <= i && i < to { val } else { old(v)@[i] },
        ),
{
    let mut i: usize = from;
    while i < to
        invariant
            from <= i <= to,
            to <= v@.len(),
            v@.len() == old(v)@.len(),
            v@ == Seq::new(
                old(v)@.len(),
                |k: int| if from <= k && k < i { val } else { old(v)@[k] },
            ),
        decreases to - i,
    {
        v.set(i, val);
        i = i + 1;
        assert(v@ =~= Seq::new(
            old(v)@.len(),
            |k: int| if from <= k && k < i { val } else { old(v)@[k] },
        ));
    }
}

/// Set the first `n` octets of `v` to `val`.
pub fn fill_prefix_of(v: &mut Vec<u8>, n: usize, val: u8)
    requires
        n <= old(v)@.len(),
    ensures
        final(v)@ == filled(old(v)@, n as int, val),
{
    fill_range(v, 0, n, val);
    assert(v@ =~= filled(old(v)@, n as int, val));
}

} // verus!
