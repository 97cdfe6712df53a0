use vstd::prelude::*;

use crate::record::{registry_wf, with_count, ReferenceRecord};
use crate::runtime::RuntimeView;

verus! {

/// Refcount conservation, as a state invariant: at every well-formed state,
/// a record's underlying global handle is live exactly while its count is
/// positive — so the handle is never gone while shares remain, and once the
/// count has reached zero the handle is gone and stays gone.  Together with
/// the release contracts (the slot dies only in the step from count 1 to 0,
/// and only given an attached context; the detached last release changes
/// nothing and hands the share back) this says the handle is deleted exactly
/// once, only after the count reaches zero, and only from an attached
/// thread.
pub proof fn lemma_refcount_conservation(
    reg: Seq<ReferenceRecord>,
    rt: RuntimeView,
    i: int,
)
    requires
        registry_wf(reg, rt),
        0 <= i < reg.len(),
    ensures
        reg[i].count > 0 <==> rt.refs[reg[i].handle.raw as int].live,
        reg[i].count == 0 ==> !rt.refs[reg[i].handle.raw as int].live,
{
}

/// Cross-scope consistency: cloning a share (count up by one) and later
/// releasing that clone while others remain (count back down by one) leaves
/// the registry exactly as it was — the original share is untouched and
/// fully usable.
pub proof fn lemma_clone_release_restores(reg: Seq<ReferenceRecord>, i: int)
    requires
        0 <= i < reg.len(),
        reg[i].count < u64::MAX,
    ensures
        with_count(with_count(reg, i, (reg[i].count + 1) as u64), i, reg[i].count) == reg,
{
    assert(with_count(with_count(reg, i, (reg[i].count + 1) as u64), i, reg[i].count) =~= reg);
}

/// The running total after a sequence of unit increments (`true`) and unit
/// decrements (`false`), applied in order.
pub open spec fn net_count(start: int, ops: Seq<bool>) -> int
    decreases ops.len(),
{
    if ops.len() == 0 {
        start
    } else {
        net_count(start, ops.drop_last()) + if ops.last() {
            1int
        } else {
            -1int
        }
    }
}

/// How many of the operations are increments.
pub open spec fn count_incs(ops: Seq<bool>) -> int
    decreases ops.len(),
{
    if ops.len() == 0 {
        0int
    } else {
        count_incs(ops.drop_last()) + if ops.last() {
            1int
        } else {
            0int
        }
    }
}

/// No lost updates: after any interleaving of N unit increments and M unit
/// decrements of a shared count, the net value is the mathematical sum
/// `start + N - M` — it depends only on how many operations of each kind
/// ran, never on their order.  This is the guarantee the shared reference
/// count (and the counter scenario built on it) relies on.
pub proof fn lemma_interleaving_nets_to_sum(start: int, ops: Seq<bool>)
    ensures
        net_count(start, ops) == start + count_incs(ops) - (ops.len() - count_incs(ops)),
    decreases ops.len(),
{
    if ops.len() > 0 {
        lemma_interleaving_nets_to_sum(start, ops.drop_last());
    }
}

} // verus!
