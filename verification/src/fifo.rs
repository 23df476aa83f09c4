//! Runs of first-in first-out steps: what goes in at the back comes out at
//! the front, nothing lost, nothing added, in order.
use vstd::prelude::*;

verus! {

/// The parts one after the other.
pub open spec fn concat_all<T>(parts: Seq<Seq<T>>) -> Seq<T>
    decreases parts.len(),
{
    if parts.len() == 0 {
        Seq::empty()
    } else {
        concat_all(parts.drop_last()) + parts.last()
    }
}

/// Step `i` turns the contents `contents[i]` into `contents[i + 1]`,
/// taking `ins[i]` in at the back and giving `outs[i]` out at the front.
pub open spec fn fifo_steps<T>(contents: Seq<Seq<T>>, ins: Seq<Seq<T>>, outs: Seq<Seq<T>>) -> bool {
    &&& contents.len() == ins.len() + 1
    &&& outs.len() == ins.len()
    &&& forall|i: int| 0 <= i < ins.len() ==> #[trigger] contents[i] + ins[i] == outs[i] + contents[i + 1]
}

/// Over a run of such steps, what was there at the start followed by all
/// that went in equals all that came out followed by what is left.
pub proof fn lemma_fifo_steps<T>(contents: Seq<Seq<T>>, ins: Seq<Seq<T>>, outs: Seq<Seq<T>>)
    requires
        fifo_steps(contents, ins, outs),
    ensures
        contents[0] + concat_all(ins) == concat_all(outs) + contents.last(),
    decreases ins.len(),
{
    if ins.len() == 0 {
        assert(contents[0] + concat_all(ins) =~= concat_all(outs) + contents.last());
    } else {
        let n = ins.len() - 1;
        let c2 = contents.drop_last();
        let i2 = ins.drop_last();
        let o2 = outs.drop_last();
        assert forall|i: int| 0 <= i < i2.len() implies #[trigger] c2[i] + i2[i] == o2[i] + c2[i
            + 1] by {
            assert(contents[i] + ins[i] == outs[i] + contents[i + 1]);
        }
        lemma_fifo_steps(c2, i2, o2);
        let a = contents[0];
        let ci = concat_all(i2);
        let co = concat_all(o2);
        assert(contents[n] + ins[n] == outs[n] + contents[n + 1]);
        assert(a + ci == co + contents[n]);
        assert(a + (ci + ins[n]) =~= (a + ci) + ins[n]);
        assert((co + contents[n]) + ins[n] =~= co + (contents[n] + ins[n]));
        assert(co + (outs[n] + contents[n + 1]) =~= (co + outs[n]) + contents[n + 1]);
        assert(concat_all(ins) == ci + ins[n]);
        assert(concat_all(outs) == co + outs[n]);
    }
}

/// The same, up to step `j`: the contents before step `j`.
pub proof fn lemma_fifo_prefix<T>(
    contents: Seq<Seq<T>>,
    ins: Seq<Seq<T>>,
    outs: Seq<Seq<T>>,
    j: int,
)
    requires
        fifo_steps(contents, ins, outs),
        0 <= j <= ins.len(),
    ensures
        contents[0] + concat_all(ins.take(j)) == concat_all(outs.take(j)) + contents[j],
{
    let c = contents.take(j + 1);
    let i2 = ins.take(j);
    let o2 = outs.take(j);
    assert forall|i: int| 0 <= i < i2.len() implies #[trigger] c[i] + i2[i] == o2[i] + c[i + 1] by {
        assert(contents[i] + ins[i] == outs[i] + contents[i + 1]);
    }
    lemma_fifo_steps(c, i2, o2);
}

} // verus!
