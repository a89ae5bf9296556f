use vstd::prelude::*;
use crate::rope_store::{line_count_of, TextRope};

verus! {

/// The line identifiers `0, 1, ..., n - 1`, one per line.
pub open spec fn line_ids(n: nat) -> Seq<usize> {
    Seq::new(n, |i: int| i as usize)
}

/// The line index of a rope: one identifier per line, counted from zero.
/// Always built whole from the rope.
pub fn rebuild(rope: &TextRope) -> (r: Vec<usize>)
    ensures
        r@ == line_ids(line_count_of(rope@)),
{
    let n = rope.line_count();
    let mut ids: Vec<usize> = Vec::new();
    let mut i: usize = 0;
    while i < n
        invariant
            i <= n,
            ids@ == line_ids(i as nat),
        decreases n - i,
    {
        ids.push(i);
        i = i + 1;
        assert(ids@ =~= line_ids(i as nat));
    }
    assert(ids@ =~= line_ids(n as nat));
    ids
}

} // verus!
