//! Accounting of host-owned memory attributed to a runtime, and the
//! per-runtime memory report.
//!
//! A tracker keeps the count of attributed bytes. Every allocation it hands
//! out is entered in its ledger; resizing an allocation moves the count by the
//! difference, and releasing it takes its bytes out again. The count is always
//! the sum of the sizes of the live allocations.

use vstd::prelude::*;

use crate::qjs;
use crate::runtime::ledger::{
    lemma_entry_within_total, lemma_total_all_released, lemma_total_push,
    lemma_total_update, total,
};

verus! {

/// Sets `*bytes` to `update(*bytes)`.
fn update_bytes(bytes: &mut usize, update: impl Fn(usize) -> usize)
    requires
        update.requires((*old(bytes),)),
    ensures
        update.ensures((*old(bytes),), *final(bytes)),
{
    let current = *bytes;
    let next = update(current);
    *bytes = next;
}

/// The count of host-owned bytes attributed to one runtime.
pub struct ExternalMemoryTracker {
    bytes: usize,
    ledger: Ghost<Seq<Option<nat>>>,
    identity: Ghost<int>,
}

impl View for ExternalMemoryTracker {
    type V = nat;

    /// The number of bytes currently attributed.
    closed spec fn view(&self) -> nat {
        self.bytes as nat
    }
}

impl ExternalMemoryTracker {
    /// One entry per allocation handed out, in order: `Some` of its current
    /// size while it lives, `None` once released.
    pub closed spec fn ledger(&self) -> Seq<Option<nat>> {
        self.ledger@
    }

    /// A ghost tag that every allocation made by this tracker carries too.
    /// Its value is hidden from callers: it does not tell trackers apart, but
    /// no caller can show that two trackers share a tag, so an allocation can
    /// only be resized or released into the tracker that made it.
    pub closed spec fn identity(&self) -> int {
        self.identity@
    }

    /// The count is the sum of the sizes of the live allocations, and fits
    /// in a `usize`.
    pub open spec fn wf(&self) -> bool {
        &&& self@ == total(self.ledger())
        &&& self@ <= usize::MAX
    }

    /// `allocation` was handed out by this tracker and is still live.
    pub open spec fn attributes(&self, allocation: ExternalMemoryAllocation) -> bool {
        &&& allocation.owner() == self.identity()
        &&& allocation.id() < self.ledger().len()
        &&& self.ledger()[allocation.id() as int] == Some(allocation@)
    }

    /// A tracker with nothing attributed.
    pub fn new() -> (tracker: Self)
        ensures
            tracker.wf(),
            tracker@ == 0,
            tracker.ledger() == Seq::<Option<nat>>::empty(),
    {
        ExternalMemoryTracker { bytes: 0, ledger: Ghost(Seq::empty()), identity: Ghost(arbitrary()) }
    }

    /// Attributes `bytes` more bytes and returns the account that holds them.
    pub fn allocate(&mut self, bytes: usize) -> (allocation: ExternalMemoryAllocation)
        requires
            old(self).wf(),
            old(self)@ + bytes <= usize::MAX,
        ensures
            final(self).wf(),
            final(self)@ == old(self)@ + bytes,
            final(self).ledger() == old(self).ledger().push(Some(bytes as nat)),
            allocation@ == bytes,
            allocation.id() == old(self).ledger().len(),
            allocation.owner() == old(self).identity(),
            final(self).identity() == old(self).identity(),
            final(self).attributes(allocation),
    {
        self.add(bytes);
        let ghost id = self.ledger@.len();
        proof {
            lemma_total_push(self.ledger@, Some(bytes as nat));
        }
        self.ledger = Ghost(self.ledger@.push(Some(bytes as nat)));
        ExternalMemoryAllocation { bytes, id: Ghost(id), owner: Ghost(self.identity@) }
    }

    /// The number of bytes currently attributed.
    pub fn bytes(&self) -> (bytes: usize)
        ensures
            bytes == self@,
    {
        self.bytes
    }

    fn add(&mut self, bytes: usize)
        requires
            old(self)@ + bytes <= usize::MAX,
        ensures
            final(self)@ == old(self)@ + bytes,
            final(self).ledger() == old(self).ledger(),
            final(self).identity() == old(self).identity(),
    {
        let update = |current: usize| -> (next: usize)
            requires
                current + bytes <= usize::MAX,
            ensures
                next == current + bytes,
            { current + bytes };
        update_bytes(&mut self.bytes, update);
    }

    fn subtract(&mut self, bytes: usize)
        requires
            bytes <= old(self)@,
        ensures
            final(self)@ == old(self)@ - bytes,
            final(self).ledger() == old(self).ledger(),
            final(self).identity() == old(self).identity(),
    {
        let update = |current: usize| -> (next: usize)
            requires
                bytes <= current,
            ensures
                next == current - bytes,
            { current - bytes };
        update_bytes(&mut self.bytes, update);
    }
}

impl Default for ExternalMemoryTracker {
    fn default() -> (tracker: Self)
        ensures
            tracker.wf(),
            tracker@ == 0,
            tracker.ledger() == Seq::<Option<nat>>::empty(),
    {
        Self::new()
    }
}

/// An account for memory owned by a host resource on behalf of a runtime.
///
/// Keep this value alongside the allocation it represents, and release it
/// into its tracker when the allocation goes away: that removes its bytes
/// from the tracker's count.
#[must_use]
pub struct ExternalMemoryAllocation {
    bytes: usize,
    id: Ghost<nat>,
    owner: Ghost<int>,
}

impl View for ExternalMemoryAllocation {
    type V = nat;

    /// The number of bytes attributed to this allocation.
    closed spec fn view(&self) -> nat {
        self.bytes as nat
    }
}

impl ExternalMemoryAllocation {
    /// The position of this allocation in its tracker's ledger.
    pub closed spec fn id(&self) -> nat {
        self.id@
    }

    /// The identity of the tracker that made this allocation.
    pub closed spec fn owner(&self) -> int {
        self.owner@
    }

    /// Return the number of bytes currently attributed to this allocation.
    pub fn bytes(&self) -> (bytes: usize)
        ensures
            bytes == self@,
    {
        self.bytes
    }

    /// Update the attributed size after the host allocation changes.
    pub fn resize(&mut self, tracker: &mut ExternalMemoryTracker, bytes: usize)
        requires
            old(tracker).wf(),
            old(tracker).attributes(*old(self)),
            old(tracker)@ - old(self)@ + bytes <= usize::MAX,
        ensures
            final(tracker).wf(),
            final(tracker)@ == old(tracker)@ - old(self)@ + bytes,
            final(tracker).ledger() == old(tracker).ledger().update(
                old(self).id() as int,
                Some(bytes as nat),
            ),
            final(self)@ == bytes,
            final(self).id() == old(self).id(),
            final(self).owner() == old(self).owner(),
            final(tracker).identity() == old(tracker).identity(),
            final(tracker).attributes(*final(self)),
    {
        proof {
            lemma_entry_within_total(tracker.ledger@, self.id@ as int);
            lemma_total_update(tracker.ledger@, self.id@ as int, Some(bytes as nat));
        }
        if bytes > self.bytes {
            tracker.add(bytes - self.bytes);
        } else {
            tracker.subtract(self.bytes - bytes);
        }
        self.bytes = bytes;
        tracker.ledger = Ghost(tracker.ledger@.update(self.id@ as int, Some(bytes as nat)));
    }

    /// Ends this account: its bytes leave the tracker's count.
    pub fn release(self, tracker: &mut ExternalMemoryTracker)
        requires
            old(tracker).wf(),
            old(tracker).attributes(self),
        ensures
            final(tracker).wf(),
            final(tracker)@ == old(tracker)@ - self@,
            final(tracker).ledger() == old(tracker).ledger().update(self.id() as int, None),
            final(tracker).identity() == old(tracker).identity(),
    {
        proof {
            lemma_entry_within_total(tracker.ledger@, self.id@ as int);
            lemma_total_update(tracker.ledger@, self.id@ as int, None);
        }
        tracker.subtract(self.bytes);
        tracker.ledger = Ghost(tracker.ledger@.update(self.id@ as int, None));
    }
}

/// A live allocation never holds more than its tracker counts, so taking it
/// out again cannot go below zero.
pub proof fn attributed_within_count(
    tracker: ExternalMemoryTracker,
    allocation: ExternalMemoryAllocation,
)
    requires
        tracker.wf(),
        tracker.attributes(allocation),
    ensures
        allocation@ <= tracker@,
{
    lemma_entry_within_total(tracker.ledger(), allocation.id() as int);
}

/// Once every allocation a tracker handed out has been released, its count is
/// back to zero.
pub proof fn all_released_counts_zero(tracker: ExternalMemoryTracker)
    requires
        tracker.wf(),
        forall|i: int| 0 <= i < tracker.ledger().len() ==> #[trigger] tracker.ledger()[i] is None,
    ensures
        tracker@ == 0,
{
    lemma_total_all_released(tracker.ledger());
}

/// Allocating `bytes` and then releasing that allocation leaves the count as
/// it was.
pub proof fn release_undoes_allocate(
    before: ExternalMemoryTracker,
    after: ExternalMemoryTracker,
    bytes: nat,
)
    requires
        before.wf(),
        after.wf(),
        after.ledger() == before.ledger().push(Some(bytes)).update(
            before.ledger().len() as int,
            None,
        ),
    ensures
        after@ == before@,
{
    let grown = before.ledger().push(Some(bytes));
    lemma_total_push(before.ledger(), Some(bytes));
    lemma_total_update(grown, before.ledger().len() as int, None);
}

/// Resizing an allocation and then resizing it back to its former size
/// leaves the tracker as it was.
pub proof fn resize_back_restores(
    before: ExternalMemoryTracker,
    after: ExternalMemoryTracker,
    allocation: ExternalMemoryAllocation,
    bytes: nat,
)
    requires
        before.wf(),
        after.wf(),
        before.attributes(allocation),
        after.ledger() == before.ledger().update(allocation.id() as int, Some(bytes)).update(
            allocation.id() as int,
            Some(allocation@),
        ),
    ensures
        after@ == before@,
        after.ledger() == before.ledger(),
{
    assert(after.ledger() =~= before.ledger());
}

/// What a release takes out of the count does not depend on the sizes the
/// allocation had before: resizing and then releasing leaves the count that
/// releasing at once would have left.
pub proof fn release_after_resize(
    before: ExternalMemoryTracker,
    after: ExternalMemoryTracker,
    allocation: ExternalMemoryAllocation,
    bytes: nat,
)
    requires
        before.wf(),
        after.wf(),
        before.attributes(allocation),
        after.ledger() == before.ledger().update(allocation.id() as int, Some(bytes)).update(
            allocation.id() as int,
            None,
        ),
    ensures
        after@ == before@ - allocation@,
        after.ledger() == before.ledger().update(allocation.id() as int, None),
{
    let i = allocation.id() as int;
    assert(after.ledger() =~= before.ledger().update(i, None));
    lemma_total_update(before.ledger(), i, None);
}

/// A point-in-time, per-runtime memory report.
///
/// All contexts belonging to the same runtime are included because they share
/// one allocator, atom table, class table, and job queue.
///
/// `engine.malloc_size` is the memory reserved through the QuickJS allocator.
/// `external_bytes` contains host allocations explicitly attributed to this
/// runtime. These two values do not overlap, so `total_attributed_bytes` can
/// add them. Other `engine` size fields are QuickJS's structural estimates
/// and must not be added to the total.
#[derive(Clone, Copy, Debug)]
#[must_use]
pub struct RuntimeMemoryUsage {
    /// The detailed report produced by `JS_ComputeMemoryUsage`.
    pub engine: qjs::JSMemoryUsage,
    /// Host-owned bytes registered against this runtime.
    pub external_bytes: usize,
    /// Whether `engine.malloc_size` includes allocator usable-size reporting.
    pub allocator_usable_size_available: bool,
}

/// The allocator's reserved bytes as a `usize`: the reported size where it is
/// representable, zero where it is negative or too large.
pub open spec fn allocator_bytes_of(malloc_size: i64) -> nat {
    if 0 <= malloc_size <= usize::MAX {
        malloc_size as nat
    } else {
        0
    }
}

/// The sum of the two counts, held at `usize::MAX` where it would exceed it.
pub open spec fn saturating_total(allocator: nat, external: nat) -> nat {
    if allocator + external <= usize::MAX {
        allocator + external
    } else {
        usize::MAX as nat
    }
}

impl RuntimeMemoryUsage {
    /// Bytes currently reserved through the QuickJS allocator.
    ///
    /// Check `allocator_usable_size_available` before treating this as
    /// a complete allocator total. The default allocator cannot report usable
    /// sizes on every target.
    pub fn allocator_bytes(&self) -> (bytes: usize)
        ensures
            bytes == allocator_bytes_of(self.engine.malloc_size),
            0 <= self.engine.malloc_size <= usize::MAX ==> bytes == self.engine.malloc_size,
            self.engine.malloc_size < 0 ==> bytes == 0,
            self.engine.malloc_size > usize::MAX ==> bytes == 0,
    {
        let converted: Result<usize, core::num::TryFromIntError> = self.engine.malloc_size.try_into();
        match converted {
            Ok(bytes) => bytes,
            Err(_) => 0,
        }
    }

    /// QuickJS allocator bytes plus explicitly attributed host allocations.
    pub fn total_attributed_bytes(&self) -> (bytes: usize)
        ensures
            bytes == saturating_total(
                allocator_bytes_of(self.engine.malloc_size),
                self.external_bytes as nat,
            ),
            bytes >= self.external_bytes,
            bytes >= allocator_bytes_of(self.engine.malloc_size),
            0 <= self.engine.malloc_size <= usize::MAX && self.engine.malloc_size
                + self.external_bytes <= usize::MAX ==> bytes == self.engine.malloc_size
                + self.external_bytes,
            0 <= self.engine.malloc_size <= usize::MAX && self.engine.malloc_size
                + self.external_bytes > usize::MAX ==> bytes == usize::MAX,
            !(0 <= self.engine.malloc_size <= usize::MAX) ==> bytes == self.external_bytes,
    {
        self.allocator_bytes().saturating_add(self.external_bytes)
    }
}

/// The allocator's bytes are the reported size whenever a `usize` can hold
/// it, and zero for a negative size or one too large for a `usize`.
pub proof fn allocator_bytes_of_reported_size(malloc_size: i64)
    ensures
        0 <= malloc_size <= usize::MAX ==> allocator_bytes_of(malloc_size) == malloc_size,
        malloc_size < 0 ==> allocator_bytes_of(malloc_size) == 0,
        malloc_size > usize::MAX ==> allocator_bytes_of(malloc_size) == 0,
        allocator_bytes_of(malloc_size) <= usize::MAX,
{
}

/// The two counts do not overlap: the total is their exact sum whenever it
/// fits in a `usize`, and `usize::MAX` otherwise. With nothing external
/// attributed it is the allocator count alone; with an empty allocator it is
/// the external count alone; it never falls below either part nor exceeds
/// their sum.
pub proof fn saturating_total_is_the_sum(allocator: nat, external: nat)
    requires
        allocator <= usize::MAX,
        external <= usize::MAX,
    ensures
        allocator + external <= usize::MAX ==> saturating_total(allocator, external) == allocator
            + external,
        allocator + external > usize::MAX ==> saturating_total(allocator, external)
            == usize::MAX,
        external == 0 ==> saturating_total(allocator, external) == allocator,
        allocator == 0 ==> saturating_total(allocator, external) == external,
        saturating_total(allocator, external) <= allocator + external,
        saturating_total(allocator, external) >= allocator,
        saturating_total(allocator, external) >= external,
{
}

/// What the report's total is, from its raw fields: the reported allocator
/// size plus the external bytes when the size is representable and the sum
/// fits, `usize::MAX` when it does not fit, and the external bytes alone
/// when the allocator size cannot be represented.
pub proof fn total_attributed_bytes_of_report(usage: RuntimeMemoryUsage)
    ensures
        ({
            let m = usage.engine.malloc_size;
            let e = usage.external_bytes;
            let total = saturating_total(allocator_bytes_of(m), e as nat);
            &&& 0 <= m <= usize::MAX && m + e <= usize::MAX ==> total == m + e
            &&& 0 <= m <= usize::MAX && m + e > usize::MAX ==> total == usize::MAX
            &&& !(0 <= m <= usize::MAX) ==> total == e
            &&& e == 0 && 0 <= m <= usize::MAX ==> total == m
        }),
{
}

} // verus!
