//! Small vector helpers shared by the store and the state snapshot.

use vstd::prelude::*;

verus! {

/// Moves every element of `src` onto the end of `dst`, in order.
pub fn append_all<T>(dst: &mut Vec<T>, src: Vec<T>)
    ensures
        final(dst)@ == old(dst)@ + src@,
{
    let ghost dst0 = old(dst)@;
    let ghost src0 = src@;
    let mut src = src;
    let ghost mut consumed: int = 0;
    proof {
        assert(dst0 + src0.take(0) =~= dst0);
        assert(src0.skip(0) =~= src0);
    }
    while src.len() > 0
        invariant
            0 <= consumed <= src0.len(),
            src@ == src0.skip(consumed),
            dst@ == dst0 + src0.take(consumed),
        decreases src@.len(),
    {
        let entry = src.remove(0);
        dst.push(entry);
        proof {
            assert(src0.skip(consumed)[0] == src0[consumed]);
            assert(src0.skip(consumed).remove(0) =~= src0.skip(consumed + 1));
            assert(dst0 + src0.take(consumed + 1) =~= (dst0 + src0.take(consumed)).push(
                src0[consumed],
            ));
            consumed = consumed + 1;
        }
    }
    proof {
        assert(src0.take(consumed) =~= src0);
    }
}

} // verus!
