use crate::error::{FatalError, ReflectionError};
use crate::script_ref::{ScriptRef, StoreState};
use crate::validity::{after_acquire, after_release};
use crate::wrappers::{ScriptReference, WrappedValue};
use vstd::prelude::*;

verus! {

/// The store after the value behind `handle` has been rewritten to each of
/// `values` in turn, as successive mutable accesses through one wrapper do.
pub open spec fn rewritten<T>(store: StoreState<T>, handle: ScriptRef, values: Seq<T>) -> StoreState<
    T,
>
    decreases values.len(),
{
    if values.len() == 0 {
        store
    } else {
        rewritten(store, handle, values.drop_last()).with_value(handle, values.last())
    }
}

/// Mutations through one wrapper take effect in call order and touch nothing
/// else: after any run of them the value is what the last one left, every
/// call started from what the call before it left, and the validity lock, the
/// ownership and all other slots are as they were at the start.
pub proof fn lemma_mutations_in_order<T>(store: StoreState<T>, handle: ScriptRef, values: Seq<T>)
    requires
        store.resolves(handle),
    ensures
        rewritten(store, handle, values).resolves(handle),
        values.len() == 0 ==> rewritten(store, handle, values) == store,
        values.len() > 0 ==> rewritten(store, handle, values) == store.with_value(
            handle,
            values.last(),
        ),
        forall|k: int|
            0 < k <= values.len() ==> (#[trigger] rewritten(store, handle, values.take(k))).slot(
                handle,
            ).value == values[k - 1],
    decreases values.len(),
{
    if values.len() > 0 {
        let head = values.drop_last();
        lemma_mutations_in_order(store, handle, head);
        assert(rewritten(store, handle, values).slots =~= store.with_value(
            handle,
            values.last(),
        ).slots);
        assert forall|k: int| 0 < k <= values.len() implies (#[trigger] rewritten(
            store,
            handle,
            values.take(k),
        )).slot(handle).value == values[k - 1] by {
            if k < values.len() {
                assert(values.take(k) =~= head.take(k));
            } else {
                assert(values.take(k) =~= values);
            }
        }
    }
}

/// Two mutations through one wrapper, one after the other: the second
/// accessor starts from exactly the value that the first one left, and the
/// store after both differs from the store before them in that one value only.
pub proof fn lemma_mutations_do_not_interleave<
    T,
    G1,
    G2,
    F1: FnOnce(&mut T) -> G1,
    F2: FnOnce(&mut T) -> G2,
>(
    before: StoreState<T>,
    between: StoreState<T>,
    after: StoreState<T>,
    handle: ScriptRef,
    first: F1,
    first_out: G1,
    second: F2,
    second_out: G2,
)
    requires
        before.resolves(handle),
        between == before.with_value(handle, between.slot(handle).value),
        exists|target: &mut T|
            {
                &&& *target == before.slot(handle).value
                &&& *final(target) == between.slot(handle).value
                &&& call_ensures(first, (target,), first_out)
            },
        after == between.with_value(handle, after.slot(handle).value),
        exists|target: &mut T|
            {
                &&& *target == between.slot(handle).value
                &&& *final(target) == after.slot(handle).value
                &&& call_ensures(second, (target,), second_out)
            },
    ensures
        after == before.with_value(handle, after.slot(handle).value),
        exists|one: &mut T, two: &mut T|
            {
                &&& *one == before.slot(handle).value
                &&& *final(one) == *two
                &&& *final(two) == after.slot(handle).value
                &&& call_ensures(first, (one,), first_out)
                &&& call_ensures(second, (two,), second_out)
            },
{
    assert(after.slots =~= before.with_value(handle, after.slot(handle).value).slots);
}

/// One step in the life of a validity lock.
pub enum HoldEvent {
    /// Somebody tries to take a hold.
    Lock,
    /// Somebody tries to give a hold back.
    Unlock,
}

/// The holds taken less the holds given back over `events`.
pub open spec fn net_holds(events: Seq<HoldEvent>) -> int
    decreases events.len(),
{
    if events.len() == 0 {
        0
    } else {
        net_holds(events.drop_last()) + (match events.last() {
            HoldEvent::Lock => 1int,
            HoldEvent::Unlock => -1int,
        })
    }
}

/// No hold is given back before it was taken.
pub open spec fn never_overdrawn(events: Seq<HoldEvent>) -> bool {
    forall|k: int| 0 <= k <= events.len() ==> net_holds(#[trigger] events.take(k)) >= 0
}

/// The store after `events` have happened, in their order, to the validity
/// lock of the value behind `handle`.
pub open spec fn replay<T>(store: StoreState<T>, handle: ScriptRef, events: Seq<HoldEvent>)
    -> StoreState<T>
    decreases events.len(),
{
    if events.len() == 0 {
        store
    } else {
        let before = replay(store, handle, events.drop_last());
        match events.last() {
            HoldEvent::Lock => before.with_holders(
                handle,
                after_acquire(before.slot(handle).holders),
            ),
            HoldEvent::Unlock => before.with_holders(
                handle,
                after_release(before.slot(handle).holders),
            ),
        }
    }
}

/// Holds that are taken and given back in any order, none given back before
/// it was taken, add up: the lock ends with its holds at the start and the net
/// of the events, and nothing else in the store has changed.
pub proof fn lemma_holds_add_up<T>(store: StoreState<T>, handle: ScriptRef, events: Seq<HoldEvent>)
    requires
        store.resolves(handle),
        never_overdrawn(events),
        store.slot(handle).holders + events.len() <= usize::MAX,
    ensures
        0 <= store.slot(handle).holders + net_holds(events) <= store.slot(handle).holders
            + events.len(),
        replay(store, handle, events) == store.with_holders(
            handle,
            (store.slot(handle).holders + net_holds(events)) as nat,
        ),
    decreases events.len(),
{
    if events.len() == 0 {
        assert(store.slots =~= store.with_holders(handle, store.slot(handle).holders).slots);
    } else {
        let head = events.drop_last();
        assert forall|k: int| 0 <= k <= head.len() implies net_holds(#[trigger] head.take(k))
            >= 0 by {
            assert(head.take(k) =~= events.take(k));
        }
        lemma_holds_add_up(store, handle, head);
        assert(events.take(events.len() as int) =~= events);
        assert(replay(store, handle, events).slots =~= store.with_holders(
            handle,
            (store.slot(handle).holders + net_holds(events)) as nat,
        ).slots);
    }
}

/// Once every hold that was taken through references to an owned value has
/// been given back, the store is as if none had been taken, and the owner can
/// be torn down without the fatal condition.
pub proof fn lemma_released_holds_allow_teardown<T>(
    store: StoreState<T>,
    handle: ScriptRef,
    events: Seq<HoldEvent>,
)
    requires
        store.owns(handle),
        store.slot(handle).holders == 0,
        never_overdrawn(events),
        net_holds(events) == 0,
        events.len() <= usize::MAX,
    ensures
        replay(store, handle, events) == store,
        replay(store, handle, events).teardown_verdict(handle) is Ok,
{
    lemma_holds_add_up(store, handle, events);
    assert(store.slots =~= store.with_holders(handle, 0).slots);
}

/// While a hold that was taken through a reference to an owned value has not
/// been given back, tearing the owner down is the fatal condition.
pub proof fn lemma_active_hold_blocks_teardown<T>(store: StoreState<T>, handle: ScriptRef)
    requires
        store.owns(handle),
        store.slot(handle).holders < usize::MAX,
    ensures
        store.with_holders(
            handle,
            after_acquire(store.slot(handle).holders),
        ).teardown_verdict(handle) == Err::<(), FatalError>(
            FatalError::StillReferenced {
                index: handle.index,
                holders: (store.slot(handle).holders + 1) as usize,
            },
        ),
{
}

/// The clone of an owning wrapper is independent of its source: it stands in
/// a slot of its own, a later change of either value leaves the other as it
/// was, and tearing either down leaves the other in place.
pub proof fn lemma_owned_clone_is_independent<T>(
    store: StoreState<T>,
    source: ScriptRef,
    copy: T,
    later: T,
)
    requires
        store.wf(),
        store.resolves(source),
    ensures
        ({
            let clone = store.next_ref();
            let after = store.grown(copy, true);
            &&& clone != source
            &&& after.owns(clone)
            &&& after.slot(clone).value == copy
            &&& after.slot(clone).holders == 0
            &&& after.slot(source) == store.slot(source)
            &&& after.with_value(clone, later).slot(source) == store.slot(source)
            &&& after.with_value(source, later).slot(clone) == after.slot(clone)
            &&& after.vacated(clone).slot(source) == store.slot(source)
            &&& after.vacated(source).slot(clone) == after.slot(clone)
        }),
{
}

/// The clone of a reference shares its referent: both name the same slot, so
/// whatever is later written through one is what the other reads.
pub proof fn lemma_ref_clone_shares_referent<T: ScriptReference>(
    store: StoreState<T>,
    first: WrappedValue<T>,
    clone: WrappedValue<T>,
    later: T,
)
    requires
        !first.owned(),
        clone == WrappedValue::<T>::Ref(first.handle()),
        store.resolves(first.handle()),
    ensures
        !clone.owned(),
        clone.handle() == first.handle(),
        store.with_value(first.handle(), later).resolves(clone.handle()),
        store.with_value(first.handle(), later).slot(clone.handle()).value == later,
        store.with_value(clone.handle(), later).slot(first.handle()).value == later,
{
}

/// A reference whose referent is of another type than the store's never
/// resolves there: every access through it is a type mismatch.
pub proof fn lemma_type_mismatch_is_an_error<T>(store: StoreState<T>, handle: ScriptRef)
    requires
        handle.tag != store.tag,
    ensures
        !store.resolves(handle),
        store.fault(handle) == (ReflectionError::CannotDowncast {
            expected: store.tag,
            found: handle.tag,
        }),
{
}

} // verus!
