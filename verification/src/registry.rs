//! Slot bookkeeping for plugged targets: the map from bus-assigned slot
//! number to target metadata, capacity enforcement, deterministic
//! lowest-free-slot allocation, and the teardown sweep that hands back
//! every still-registered slot exactly once.
//!
//! The registry itself is single-threaded state; the surrounding client
//! holds it under one lock and never keeps that lock across a blocking
//! bus call.

use vstd::prelude::*;

verus! {

use vstd::set_lib::{lemma_int_range, lemma_len_subset, lemma_subset_equality, set_int_range};
use crate::errors::ClientError;
use crate::target::Target;

/// The lowest free slot number that is at least `cand`, or `None` when
/// every candidate from `cand` up to the capacity is occupied. Allocation
/// scans candidates in ascending order, so slot assignment is deterministic
/// and a released slot is reused before any higher unused one.
pub open spec fn spec_lowest_free_from(r: TargetRegistry, cand: int) -> Option<u32>
    decreases r.spec_max_targets() + 1 - cand,
{
    if cand < 1 || cand > r.spec_max_targets() {
        None
    } else if !r.spec_contains(cand as u32) {
        Some(cand as u32)
    } else {
        spec_lowest_free_from(r, cand + 1)
    }
}

/// The slot an allocation on `r` would claim: the lowest free one.
pub open spec fn spec_lowest_free(r: TargetRegistry) -> Option<u32> {
    spec_lowest_free_from(r, 1)
}

/// A found lowest free slot lies between the first candidate and the
/// capacity, and is indeed free.
pub proof fn lemma_lowest_free_in_range(r: TargetRegistry, cand: int, k: u32)
    requires
        spec_lowest_free_from(r, cand) == Some(k),
    ensures
        cand <= k <= r.spec_max_targets(),
        !r.spec_contains(k),
    decreases r.spec_max_targets() + 1 - cand,
{
    if cand < 1 || cand > r.spec_max_targets() {
        assert(false);
    } else if !r.spec_contains(cand as u32) {
    } else {
        lemma_lowest_free_in_range(r, cand + 1, k);
    }
}

/// The registry of live targets: one record per plugged slot, plus the
/// configured capacity. Slot numbers run from 1 to `max_targets` and are
/// unique while live.
pub struct TargetRegistry {
    /// One record per live slot, in insertion order.
    pub targets: Vec<Target>,
    /// The configured capacity.
    pub max_targets: u32,
}

impl TargetRegistry {
    /// The stored target records, in insertion order.
    pub open spec fn targets_view(self) -> Seq<Target> {
        self.targets@
    }

    /// The live slot numbers, in insertion order.
    pub open spec fn slots(self) -> Seq<u32> {
        self.targets@.map_values(|t: Target| t.serial_no)
    }

    /// The configured capacity.
    pub open spec fn spec_max_targets(self) -> u32 {
        self.max_targets
    }

    /// Well-formedness: live slot numbers are unique and each lies in
    /// `[1, max_targets]`.
    pub open spec fn wf(self) -> bool {
        &&& self.slots().no_duplicates()
        &&& forall|i: int|
            0 <= i < self.slots().len() ==> 1 <= #[trigger] self.slots()[i]
                && self.slots()[i] <= self.spec_max_targets()
    }

    /// Whether the slot with this serial number is live.
    pub open spec fn spec_contains(self, serial_no: u32) -> bool {
        self.slots().contains(serial_no)
    }

    /// An empty registry with the given capacity.
    pub fn new(max_targets: u32) -> (r: Self)
        ensures
            r.wf(),
            r.slots() == Seq::<u32>::empty(),
            r.spec_max_targets() == max_targets,
    {
        let r = TargetRegistry { targets: Vec::new(), max_targets };
        proof {
            assert(r.slots() =~= Seq::<u32>::empty());
        }
        r
    }

    /// Returns the configured capacity.
    pub fn max_targets(&self) -> (r: u32)
        ensures
            r == self.spec_max_targets(),
    {
        self.max_targets
    }

    /// Returns how many slots are live.
    pub fn len(&self) -> (r: usize)
        ensures
            r == self.slots().len(),
    {
        self.targets.len()
    }

    /// Returns whether the slot with this serial number is live.
    pub fn contains_slot(&self, serial_no: u32) -> (r: bool)
        ensures
            r == self.spec_contains(serial_no),
    {
        let mut i: usize = 0;
        while i < self.targets.len()
            invariant
                i <= self.targets@.len(),
                forall|j: int| 0 <= j < i ==> self.slots()[j] != serial_no,
            decreases self.targets@.len() - i,
        {
            if self.targets[i].serial_no == serial_no {
                proof {
                    assert(self.slots()[i as int] == serial_no);
                }
                return true;
            }
            i = i + 1;
        }
        proof {
            assert forall|j: int| 0 <= j < self.slots().len() implies self.slots()[j]
                != serial_no by {}
        }
        false
    }

    /// Returns the lowest free slot number that is at least `start`, or
    /// `None` when every candidate up to the capacity is occupied. The
    /// surrounding plug loop starts at 1 and, when the bus refuses a
    /// candidate, resumes one past it.
    pub fn next_free_slot(&self, start: u32) -> (r: Option<u32>)
        requires
            start >= 1,
        ensures
            r == spec_lowest_free_from(*self, start as int),
    {
        if start > self.max_targets {
            return None;
        }
        let mut cand: u32 = start;
        loop
            invariant
                1 <= start,
                start <= cand <= self.spec_max_targets(),
                spec_lowest_free_from(*self, start as int) == spec_lowest_free_from(
                    *self,
                    cand as int,
                ),
            decreases self.spec_max_targets() - cand,
        {
            if !self.contains_slot(cand) {
                return Some(cand);
            }
            if cand == self.max_targets {
                proof {
                    assert(spec_lowest_free_from(*self, cand as int + 1) is None);
                }
                return None;
            }
            cand = cand + 1;
        }
    }

    /// Records a freshly plugged target under its slot number. The caller
    /// picked the slot with [`TargetRegistry::next_free_slot`] and the bus
    /// accepted the plug, so the slot is in range and not yet live.
    pub fn record_target(&mut self, target: Target)
        requires
            old(self).wf(),
            1 <= target.serial_no,
            target.serial_no <= old(self).spec_max_targets(),
            !old(self).spec_contains(target.serial_no),
        ensures
            final(self).wf(),
            final(self).spec_max_targets() == old(self).spec_max_targets(),
            final(self).targets_view() == old(self).targets_view().push(target),
            final(self).slots() == old(self).slots().push(target.serial_no),
            final(self).spec_contains(target.serial_no),
            forall|s: u32|
                s != target.serial_no ==> final(self).spec_contains(s) == old(self).spec_contains(
                    s,
                ),
    {
        let ghost pre = *self;
        self.targets.push(target);
        proof {
            assert(self.slots() =~= pre.slots().push(target.serial_no));
            let post = self.slots();
            assert forall|i: int, j: int| 0 <= i < j < post.len() implies post[i] != post[j] by {
                if j < post.len() - 1 {
                    assert(pre.slots().no_duplicates());
                } else {
                    assert(post[j] == target.serial_no);
                    assert(pre.slots().contains(post[i]) == false || post[i] != target.serial_no);
                    assert(pre.slots()[i] == post[i]);
                }
            }
            assert(post.no_duplicates());
            assert(post.contains(target.serial_no)) by {
                assert(post[post.len() - 1] == target.serial_no);
            }
            assert forall|s: u32| s != target.serial_no implies final(self).spec_contains(s)
                == pre.spec_contains(s) by {
                if post.contains(s) {
                    let w = choose|w: int| 0 <= w < post.len() && post[w] == s;
                    assert(w < post.len() - 1);
                    assert(pre.slots()[w] == s);
                }
                if pre.slots().contains(s) {
                    let w = choose|w: int| 0 <= w < pre.slots().len() && pre.slots()[w] == s;
                    assert(post[w] == s);
                }
            }
        }
    }

    /// Removes the slot from the registry if it is present and reports
    /// whether it was: the caller issues the driver unplug exactly when the
    /// removal fired, so concurrent explicit-unplug and drop-based unplug
    /// collapse into one real driver call. Removing an absent slot is a
    /// no-op, not an error.
    pub fn release(&mut self, serial_no: u32) -> (r: bool)
        requires
            old(self).wf(),
        ensures
            final(self).wf(),
            final(self).spec_max_targets() == old(self).spec_max_targets(),
            r == old(self).spec_contains(serial_no),
            !final(self).spec_contains(serial_no),
            forall|s: u32|
                s != serial_no ==> final(self).spec_contains(s) == old(self).spec_contains(s),
            r ==> final(self).slots().len() == old(self).slots().len() - 1,
            !r ==> *final(self) == *old(self),
    {
        let ghost pre = *self;
        let mut i: usize = 0;
        while i < self.targets.len()
            invariant
                *self == pre,
                pre == *old(self),
                pre.wf(),
                i <= pre.slots().len(),
                forall|j: int| 0 <= j < i ==> pre.slots()[j] != serial_no,
            decreases pre.slots().len() - i,
        {
            if self.targets[i].serial_no == serial_no {
                proof {
                    assert(pre.slots()[i as int] == serial_no);
                }
                self.targets.remove(i);
                proof {
                    assert(self.slots() =~= pre.slots().remove(i as int));
                    let post = self.slots();
                    assert forall|a: int, b: int| 0 <= a < b < post.len() implies post[a]
                        != post[b] by {
                        assert(pre.slots().no_duplicates());
                        if b < i {
                            assert(post[a] == pre.slots()[a] && post[b] == pre.slots()[b]);
                        } else if a < i {
                            assert(post[a] == pre.slots()[a] && post[b] == pre.slots()[b + 1]);
                        } else {
                            assert(post[a] == pre.slots()[a + 1] && post[b] == pre.slots()[b + 1]);
                        }
                    }
                    assert(post.no_duplicates());
                    assert forall|w: int| 0 <= w < post.len() implies post[w] != serial_no by {
                        if w < i {
                            assert(post[w] == pre.slots()[w]);
                        } else {
                            assert(post[w] == pre.slots()[w + 1]);
                            assert(pre.slots().no_duplicates());
                        }
                    }
                    assert(!post.contains(serial_no));
                    assert forall|s: u32| s != serial_no implies post.contains(s)
                        == pre.spec_contains(s) by {
                        if post.contains(s) {
                            let w = choose|w: int| 0 <= w < post.len() && post[w] == s;
                            if w < i {
                                assert(pre.slots()[w] == s);
                            } else {
                                assert(pre.slots()[w + 1] == s);
                            }
                        }
                        if pre.slots().contains(s) {
                            let w = choose|w: int|
                                0 <= w < pre.slots().len() && pre.slots()[w] == s;
                            if w < i {
                                assert(post[w] == s);
                            } else {
                                assert(w != i);
                                assert(post[w - 1] == s);
                            }
                        }
                    }
                }
                return true;
            }
            i = i + 1;
        }
        proof {
            assert forall|j: int| 0 <= j < pre.slots().len() implies pre.slots()[j]
                != serial_no by {}
            assert(!pre.spec_contains(serial_no));
        }
        false
    }

    /// Clears the registry and hands back every slot that was still live,
    /// each exactly once: the teardown path issues one best-effort unplug
    /// per returned slot and must finish even if every one of them fails,
    /// so failures feed nothing back into this sweep.
    pub fn drain_for_teardown(&mut self) -> (r: Vec<u32>)
        requires
            old(self).wf(),
        ensures
            final(self).wf(),
            final(self).spec_max_targets() == old(self).spec_max_targets(),
            final(self).slots() == Seq::<u32>::empty(),
            r@ == old(self).slots(),
            r@.no_duplicates(),
    {
        let ghost pre = *self;
        let mut out: Vec<u32> = Vec::new();
        let mut i: usize = 0;
        while i < self.targets.len()
            invariant
                *self == pre,
                i <= pre.slots().len(),
                out@ == pre.slots().subrange(0, i as int),
            decreases pre.slots().len() - i,
        {
            out.push(self.targets[i].serial_no);
            i = i + 1;
            assert(out@ =~= pre.slots().subrange(0, i as int));
        }
        self.targets.clear();
        proof {
            assert(out@ =~= pre.slots());
            assert(self.slots() =~= Seq::<u32>::empty());
        }
        out
    }

    /// Allocates the lowest free slot for `target`, records it and returns
    /// it; callers see slot 1, 2, ... in order on an empty registry. Fails
    /// with the capacity error exactly when every slot up to the capacity
    /// is occupied, and then changes nothing. This is the happy path of a
    /// plug: when the bus refuses a candidate slot instead, the caller
    /// resumes with [`TargetRegistry::next_free_slot`] one past it.
    pub fn allocate(&mut self, target: Target) -> (r: Result<u32, ClientError>)
        requires
            old(self).wf(),
        ensures
            final(self).wf(),
            final(self).spec_max_targets() == old(self).spec_max_targets(),
            match r {
                Ok(k) => {
                    &&& spec_lowest_free(*old(self)) == Some(k)
                    &&& !old(self).spec_contains(k)
                    &&& final(self).spec_contains(k)
                    &&& 1 <= k <= old(self).spec_max_targets()
                    &&& final(self).targets_view() == old(self).targets_view().push(
                        Target { serial_no: k, ..target },
                    )
                    &&& forall|s: u32|
                        s != k ==> final(self).spec_contains(s) == old(self).spec_contains(s)
                },
                Err(e) => {
                    &&& e == ClientError::NoFreeSlot
                    &&& spec_lowest_free(*old(self)) is None
                    &&& *final(self) == *old(self)
                },
            },
    {
        match self.next_free_slot(1) {
            Some(k) => {
                let recorded = Target {
                    kind: target.kind,
                    serial_no: k,
                    vendor_id: target.vendor_id,
                    product_id: target.product_id,
                };
                proof {
                    lemma_lowest_free_in_range(*self, 1, k);
                }
                self.record_target(recorded);
                Ok(k)
            },
            None => Err(ClientError::NoFreeSlot),
        }
    }

    /// Confirms that the slot is still live, as every mutating handle
    /// operation does before touching the bus; a missing slot is the
    /// "target no longer exists" liveness error, never a silent success.
    pub fn check_target_alive(&self, serial_no: u32) -> (r: Result<(), ClientError>)
        ensures
            r == spec_check_target_alive(*self, serial_no),
    {
        if self.contains_slot(serial_no) {
            Ok(())
        } else {
            Err(ClientError::TargetDoesNotExist(serial_no))
        }
    }
}

/// What the aliveness check answers on a given registry: success while the
/// slot is live, the "target no longer exists" error once it is not.
pub open spec fn spec_check_target_alive(r: TargetRegistry, serial_no: u32) -> Result<
    (),
    ClientError,
> {
    if r.spec_contains(serial_no) {
        Ok(())
    } else {
        Err(ClientError::TargetDoesNotExist(serial_no))
    }
}

/// How one release call moves the registry: it fires (and the caller
/// unplugs at the driver) exactly when the slot was still live, and
/// afterwards the slot is live no more while every other slot is untouched.
pub open spec fn spec_release_transition(
    pre: TargetRegistry,
    post: TargetRegistry,
    fired: bool,
    serial_no: u32,
) -> bool {
    &&& fired == pre.spec_contains(serial_no)
    &&& !post.spec_contains(serial_no)
    &&& forall|s: u32| s != serial_no ==> post.spec_contains(s) == pre.spec_contains(s)
}

/// Scanning candidates below `cand` finds nothing free, so the scan from 1
/// and the scan from `cand` agree.
pub proof fn lemma_lowest_free_skip(r: TargetRegistry, cand: int)
    requires
        1 <= cand <= r.spec_max_targets() + 1,
        forall|s: u32| 1 <= s < cand ==> r.spec_contains(s),
    ensures
        spec_lowest_free(r) == spec_lowest_free_from(r, cand),
    decreases cand,
{
    if cand > 1 {
        lemma_lowest_free_skip(r, cand - 1);
        assert((cand - 1) as u32 == cand - 1);
        assert(r.spec_contains((cand - 1) as u32));
        assert(spec_lowest_free_from(r, cand - 1) == spec_lowest_free_from(r, cand));
    }
}

/// A free slot at `s` bounds the scan: starting anywhere at or below `s`,
/// the lowest free slot exists and is at most `s`.
pub proof fn lemma_lowest_free_bounded(r: TargetRegistry, cand: int, s: u32)
    requires
        1 <= cand,
        cand <= s,
        s <= r.spec_max_targets(),
        !r.spec_contains(s),
    ensures
        spec_lowest_free_from(r, cand) matches Some(j) && j <= s,
    decreases s - cand,
{
    if cand == s {
        assert(spec_lowest_free_from(r, cand) == Some(s));
    } else if !r.spec_contains(cand as u32) {
        assert(spec_lowest_free_from(r, cand) == Some(cand as u32));
    } else {
        lemma_lowest_free_bounded(r, cand + 1, s);
    }
}

/// Slot allocation is deterministic: on an empty registry with any capacity
/// the first allocation claims slot 1.
pub proof fn lemma_first_allocation(r: TargetRegistry)
    requires
        r.wf(),
        r.slots().len() == 0,
        r.spec_max_targets() >= 1,
    ensures
        spec_lowest_free(r) == Some(1u32),
{
    assert(!r.spec_contains(1u32));
}

/// Slot allocation is deterministic: while exactly the slots below `k` are
/// live, the next allocation claims `k`, so sequential successful plugs on
/// an empty registry see 1, 2, 3, ... in order.
pub proof fn lemma_sequential_allocation(r: TargetRegistry, k: u32)
    requires
        r.wf(),
        1 <= k <= r.spec_max_targets(),
        forall|s: u32| r.spec_contains(s) == (1 <= s < k),
    ensures
        spec_lowest_free(r) == Some(k),
{
    lemma_lowest_free_skip(r, k as int);
    assert(!r.spec_contains(k));
}

/// Lowest-free-wins reuse: after a live slot `k` is released, the next
/// allocation claims `k` or a lower slot, never a higher unused one.
pub proof fn lemma_release_reuses_slot(
    pre: TargetRegistry,
    post: TargetRegistry,
    fired: bool,
    k: u32,
)
    requires
        pre.wf(),
        post.wf(),
        pre.spec_contains(k),
        post.spec_max_targets() == pre.spec_max_targets(),
        spec_release_transition(pre, post, fired, k),
    ensures
        spec_lowest_free(post) matches Some(j) && j <= k,
{
    let w = choose|w: int| 0 <= w < pre.slots().len() && pre.slots()[w] == k;
    assert(1 <= k <= pre.spec_max_targets());
    lemma_lowest_free_bounded(post, 1, k);
}

/// The live slot numbers of a well-formed registry, as a set of integers.
spec fn slot_int_set(r: TargetRegistry) -> Set<int> {
    r.slots().map_values(|x: u32| x as int).to_set()
}

/// The live slots fit inside the capacity interval, so a registry never
/// holds more than `max_targets` entries.
pub proof fn lemma_capacity_bound(r: TargetRegistry)
    requires
        r.wf(),
    ensures
        r.slots().len() <= r.spec_max_targets(),
{
    let s = r.slots();
    let si = s.map_values(|x: u32| x as int);
    assert(si.no_duplicates()) by {
        assert forall|i: int, j: int|
            (0 <= i < si.len() && 0 <= j < si.len() && i != j) implies si[i] != si[j] by {
            assert(s[i] != s[j]);
        }
    }
    si.unique_seq_to_set();
    let range = set_int_range(1, r.spec_max_targets() + 1);
    lemma_int_range(1, r.spec_max_targets() + 1);
    assert(si.to_set().subset_of(range)) by {
        assert forall|v: int| si.to_set().contains(v) implies range.contains(v) by {
            let w = choose|w: int| 0 <= w < si.len() && si[w] == v;
            assert(1 <= s[w] <= r.spec_max_targets());
        }
    }
    lemma_len_subset(si.to_set(), range);
}

/// Allocating beyond capacity fails: once the registry holds `max_targets`
/// live slots, every candidate is occupied and no free slot exists, so an
/// allocation reports the capacity error and adds nothing.
pub proof fn lemma_full_registry_has_no_free_slot(r: TargetRegistry)
    requires
        r.wf(),
        r.slots().len() == r.spec_max_targets(),
    ensures
        spec_lowest_free(r) is None,
{
    let s = r.slots();
    let si = s.map_values(|x: u32| x as int);
    assert(si.no_duplicates()) by {
        assert forall|i: int, j: int|
            (0 <= i < si.len() && 0 <= j < si.len() && i != j) implies si[i] != si[j] by {
            assert(s[i] != s[j]);
        }
    }
    si.unique_seq_to_set();
    let range = set_int_range(1, r.spec_max_targets() + 1);
    lemma_int_range(1, r.spec_max_targets() + 1);
    assert(si.to_set().subset_of(range)) by {
        assert forall|v: int| si.to_set().contains(v) implies range.contains(v) by {
            let w = choose|w: int| 0 <= w < si.len() && si[w] == v;
            assert(1 <= s[w] <= r.spec_max_targets());
        }
    }
    lemma_len_subset(si.to_set(), range);
    lemma_subset_equality(si.to_set(), range);
    assert forall|c: u32| 1 <= c <= r.spec_max_targets() implies r.spec_contains(c) by {
        assert(range.contains(c as int));
        assert(si.to_set().contains(c as int));
        let w = choose|w: int| 0 <= w < si.len() && si[w] == c as int;
        assert(s[w] == c);
    }
    lemma_lowest_free_skip(r, r.spec_max_targets() + 1);
}

/// Dropping every handle to a slot unplugs it exactly once: a release can
/// only fire while the slot is live, and afterwards it is live no more, so
/// of two successive releases of one slot at most the first fires.
pub proof fn lemma_unplug_exactly_once(
    r0: TargetRegistry,
    r1: TargetRegistry,
    r2: TargetRegistry,
    fired1: bool,
    fired2: bool,
    serial_no: u32,
)
    requires
        spec_release_transition(r0, r1, fired1, serial_no),
        spec_release_transition(r1, r2, fired2, serial_no),
    ensures
        !fired2,
        !(fired1 && fired2),
{
}

/// A stale handle fails loudly: once a slot has been released, the
/// aliveness check that guards every handle operation answers the "target
/// no longer exists" error for it, never success.
pub proof fn lemma_stale_handle_fails(
    pre: TargetRegistry,
    post: TargetRegistry,
    fired: bool,
    serial_no: u32,
)
    requires
        spec_release_transition(pre, post, fired, serial_no),
    ensures
        spec_check_target_alive(post, serial_no) == Result::<(), ClientError>::Err(
            ClientError::TargetDoesNotExist(serial_no),
        ),
{
}

} // verus!
