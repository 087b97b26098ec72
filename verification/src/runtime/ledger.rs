//! The ledger of a memory tracker: one entry per allocation it handed out, in
//! the order they were made. A live allocation's entry holds its current size;
//! a released one's entry is `None`.

use vstd::prelude::*;

verus! {

/// Bytes that one ledger entry contributes to the count.
pub open spec fn entry_bytes(entry: Option<nat>) -> nat {
    match entry {
        Some(bytes) => bytes,
        None => 0,
    }
}

/// Sum of the sizes of the live allocations in `ledger`.
pub open spec fn total(ledger: Seq<Option<nat>>) -> nat
    decreases ledger.len(),
{
    if ledger.len() == 0 {
        0
    } else {
        total(ledger.drop_last()) + entry_bytes(ledger.last())
    }
}

/// A new entry adds its size to the sum.
pub proof fn lemma_total_push(ledger: Seq<Option<nat>>, entry: Option<nat>)
    ensures
        total(ledger.push(entry)) == total(ledger) + entry_bytes(entry),
{
    assert(ledger.push(entry).drop_last() =~= ledger);
}

/// Replacing one entry changes the sum by the difference of the two entries.
pub proof fn lemma_total_update(ledger: Seq<Option<nat>>, i: int, entry: Option<nat>)
    requires
        0 <= i < ledger.len(),
    ensures
        total(ledger.update(i, entry)) == total(ledger) - entry_bytes(ledger[i]) + entry_bytes(
            entry,
        ),
    decreases ledger.len(),
{
    let updated = ledger.update(i, entry);
    if i == ledger.len() - 1 {
        assert(updated.drop_last() =~= ledger.drop_last());
    } else {
        assert(updated.drop_last() =~= ledger.drop_last().update(i, entry));
        lemma_total_update(ledger.drop_last(), i, entry);
    }
}

/// No entry exceeds the sum.
pub proof fn lemma_entry_within_total(ledger: Seq<Option<nat>>, i: int)
    requires
        0 <= i < ledger.len(),
    ensures
        entry_bytes(ledger[i]) <= total(ledger),
    decreases ledger.len(),
{
    if i < ledger.len() - 1 {
        lemma_entry_within_total(ledger.drop_last(), i);
    }
}

/// A ledger whose allocations were all released sums to zero.
pub proof fn lemma_total_all_released(ledger: Seq<Option<nat>>)
    requires
        forall|i: int| 0 <= i < ledger.len() ==> #[trigger] ledger[i] is None,
    ensures
        total(ledger) == 0,
    decreases ledger.len(),
{
    if ledger.len() > 0 {
        let rest = ledger.drop_last();
        assert forall|i: int| 0 <= i < rest.len() implies #[trigger] rest[i] is None by {
            assert(rest[i] == ledger[i]);
        }
        lemma_total_all_released(rest);
        assert(ledger[ledger.len() - 1] is None);
    }
}

} // verus!
