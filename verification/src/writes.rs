//! Sequences of writes to the store, and what a reader can see after them.
//!
//! A host may write parameters at any time between two reads. The store is
//! a plain value that one owner changes at a time, so every history it can
//! go through is a sequence of single writes. The lemmas here say what a
//! read returns after any such sequence.

use vstd::prelude::*;
use crate::params::{valid_index, PARAM_COUNT};

verus! {

/// One write: the parameter it addresses and the bits it stores.
pub struct Write {
    pub index: i32,
    pub bits: u32,
}

/// Every write of the sequence addresses a parameter.
pub open spec fn valid_writes(writes: Seq<Write>) -> bool {
    forall|k: int| 0 <= k < writes.len() ==> valid_index(#[trigger] writes[k].index as int)
}

/// No write of the sequence addresses the parameter at `index`.
pub open spec fn untouched(writes: Seq<Write>, index: int) -> bool {
    forall|k: int| 0 <= k < writes.len() ==> #[trigger] writes[k].index != index
}

/// The values held after the writes were applied, in order, to `start`.
pub open spec fn after_writes(start: Seq<u32>, writes: Seq<Write>) -> Seq<u32>
    decreases writes.len(),
{
    if writes.len() == 0 {
        start
    } else {
        after_writes(start, writes.drop_last()).update(
            writes.last().index as int,
            writes.last().bits,
        )
    }
}

/// One more write changes the one parameter it addresses, in the values
/// that the earlier writes left: this is what a call of
/// `ParamStore::set_value` does to the store's view.
pub proof fn lemma_after_one_more(start: Seq<u32>, writes: Seq<Write>, next: Write)
    ensures
        after_writes(start, writes.push(next)) == after_writes(start, writes).update(
            next.index as int,
            next.bits,
        ),
{
    assert(writes.push(next).drop_last() == writes);
}

/// Writes never add or remove a parameter.
pub proof fn lemma_after_writes_len(start: Seq<u32>, writes: Seq<Write>)
    requires
        start.len() == PARAM_COUNT,
        valid_writes(writes),
    ensures
        after_writes(start, writes).len() == start.len(),
    decreases writes.len(),
{
    if writes.len() > 0 {
        lemma_after_writes_len(start, writes.drop_last());
    }
}

/// A parameter that no write addresses still holds its start value,
/// however many writes went to the other parameters.
pub proof fn lemma_untouched_keeps_value(start: Seq<u32>, writes: Seq<Write>, index: int)
    requires
        start.len() == PARAM_COUNT,
        valid_writes(writes),
        valid_index(index),
        untouched(writes, index),
    ensures
        after_writes(start, writes)[index] == start[index],
    decreases writes.len(),
{
    if writes.len() > 0 {
        let earlier = writes.drop_last();
        lemma_after_writes_len(start, earlier);
        lemma_untouched_keeps_value(start, earlier, index);
        assert(writes[writes.len() - 1].index != index);
    }
}

/// The parameter at `index` holds the bits of the last write that
/// addressed it.
pub proof fn lemma_last_write_wins(start: Seq<u32>, writes: Seq<Write>, k: int, index: int)
    requires
        start.len() == PARAM_COUNT,
        valid_writes(writes),
        valid_index(index),
        0 <= k < writes.len(),
        writes[k].index == index,
        forall|j: int| k < j < writes.len() ==> #[trigger] writes[j].index != index,
    ensures
        after_writes(start, writes)[index] == writes[k].bits,
    decreases writes.len(),
{
    let earlier = writes.drop_last();
    lemma_after_writes_len(start, earlier);
    if k < writes.len() - 1 {
        assert(writes[writes.len() - 1].index != index);
        lemma_last_write_wins(start, earlier, k, index);
    }
}

/// Whatever was written and in whatever order, a read returns a value that
/// was put there whole: the start value, or the bits of one of the writes
/// to that parameter.
pub proof fn lemma_read_sees_a_written_value(start: Seq<u32>, writes: Seq<Write>, index: int)
    requires
        start.len() == PARAM_COUNT,
        valid_writes(writes),
        valid_index(index),
    ensures
        after_writes(start, writes)[index] == start[index] || exists|k: int|
            0 <= k < writes.len() && #[trigger] writes[k].index == index && writes[k].bits
                == after_writes(start, writes)[index],
    decreases writes.len(),
{
    if writes.len() > 0 {
        let earlier = writes.drop_last();
        let last: int = writes.len() - 1;
        lemma_after_writes_len(start, earlier);
        if writes[last].index == index {
            assert(writes[last].bits == after_writes(start, writes)[index]);
        } else {
            lemma_read_sees_a_written_value(start, earlier, index);
            if after_writes(start, earlier)[index] != start[index] {
                let k: int = choose|k: int|
                    0 <= k < earlier.len() && #[trigger] earlier[k].index == index
                        && earlier[k].bits == after_writes(start, earlier)[index];
                assert(writes[k].index == index);
            }
        }
    }
}

} // verus!
