//! Splitting a range of positions into consecutive pieces of one size.
use vstd::prelude::*;

verus! {

/// Pieces `[start, end)` that cover `0..len` in order, each of `size`
/// bytes but the last, which is shorter or equal and never empty.
pub open spec fn chunks_spec(r: Seq<(usize, usize)>, len: int, size: int) -> bool {
    &&& (len == 0 <==> r.len() == 0)
    &&& r.len() > 0 ==> r[0].0 == 0 && r.last().1 == len
    &&& forall|k: int| 0 <= k < r.len() - 1 ==> (#[trigger] r[k]).1 == r[k + 1].0
    &&& forall|k: int| 0 <= k < r.len() - 1 ==> (#[trigger] r[k]).1 - r[k].0 == size
    &&& r.len() > 0 ==> 0 < r.last().1 - r.last().0 <= size
}

/// Splits `0..len` into pieces of `size`.
pub fn chunk_bounds(len: usize, size: usize) -> (r: Vec<(usize, usize)>)
    requires
        size > 0,
    ensures
        chunks_spec(r@, len as int, size as int),
{
    let mut out: Vec<(usize, usize)> = Vec::new();
    let mut start: usize = 0;
    while start < len
        invariant
            start <= len,
            size > 0,
            out@.len() == 0 ==> start == 0,
            out@.len() > 0 ==> out@[0].0 == 0 && out@.last().1 == start,
            forall|k: int| 0 <= k < out@.len() - 1 ==> (#[trigger] out@[k]).1 == out@[k + 1].0,
            forall|k: int| 0 <= k < out@.len() - 1 ==> (#[trigger] out@[k]).1 - out@[k].0 == size,
            out@.len() > 0 ==> 0 < out@.last().1 - out@.last().0 <= size,
            out@.len() > 0 && start < len ==> out@.last().1 - out@.last().0 == size,
        decreases len - start,
    {
        let end = if len - start > size { start + size } else { len };
        let ghost before = out@;
        out.push((start, end));
        assert forall|k: int| 0 <= k < out@.len() - 1 implies (#[trigger] out@[k]).1 == out@[k + 1].0 by {
            if k < before.len() - 1 {
                assert(out@[k] == before[k] && out@[k + 1] == before[k + 1]);
            } else {
                assert(out@[k] == before.last());
            }
        }
        assert forall|k: int| 0 <= k < out@.len() - 1 implies (#[trigger] out@[k]).1 - out@[k].0 == size by {
            assert(out@[k] == before[k]);
        }
        start = end;
    }
    out
}

} // verus!
