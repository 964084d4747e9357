use crate::error::{FatalError, ReflectionError, TypeTag};
use crate::validity::{after_acquire, after_release, ValidityLock};
use vstd::prelude::*;

verus! {

/// A reference capability to a value that lives in a [`Store`].
///
/// A reference is weak: it names a slot and does not keep the value in it
/// alive, nor does holding one count as a hold on the value's validity lock.
/// It is erased: it carries the tag of the type it was issued for, and every
/// access checks that tag against the store it is used on.
#[derive(Clone, Copy, Debug, PartialEq, Eq, Structural)]
pub struct ScriptRef {
    pub tag: TypeTag,
    pub index: usize,
}

/// What one occupied slot of a store holds.
pub struct SlotState<T> {
    /// The value itself.
    pub value: T,
    /// The holds on the value's validity lock.
    pub holders: nat,
    /// Whether a wrapper on the script side owns the value, rather than the host.
    pub script_owned: bool,
}

/// The mathematical content of a [`Store`]: its type tag and its slots, a
/// vacated slot being `None`.
pub struct StoreState<T> {
    pub tag: TypeTag,
    pub slots: Seq<Option<SlotState<T>>>,
}

impl<T> StoreState<T> {
    /// What holds of the content of every store: the slots can be counted in
    /// a machine word, and so can the holds on each of them.
    pub open spec fn wf(self) -> bool {
        &&& self.slots.len() <= usize::MAX
        &&& forall|i: int|
            0 <= i < self.slots.len() && self.slots[i] is Some ==> (#[trigger] self.slots[i])->0.holders
                <= usize::MAX
    }

    /// A reference resolves when it carries this store's tag and names an
    /// occupied slot.
    pub open spec fn resolves(self, handle: ScriptRef) -> bool {
        &&& handle.tag == self.tag
        &&& handle.index < self.slots.len()
        &&& self.slots[handle.index as int] is Some
    }

    /// The error that an access through a reference that does not resolve
    /// yields: a type mismatch where the tags differ, an invalid reference
    /// otherwise.
    pub open spec fn fault(self, handle: ScriptRef) -> ReflectionError {
        if handle.tag != self.tag {
            ReflectionError::CannotDowncast { expected: self.tag, found: handle.tag }
        } else {
            ReflectionError::InvalidReference { index: handle.index }
        }
    }

    /// The slot behind a reference that resolves.
    pub open spec fn slot(self, handle: ScriptRef) -> SlotState<T> {
        self.slots[handle.index as int]->0
    }

    /// Whether the reference resolves to a value that the script side owns.
    pub open spec fn owns(self, handle: ScriptRef) -> bool {
        self.resolves(handle) && self.slot(handle).script_owned
    }

    /// This store with the slot behind `handle` replaced.
    pub open spec fn put(self, handle: ScriptRef, slot: SlotState<T>) -> Self {
        StoreState { tag: self.tag, slots: self.slots.update(handle.index as int, Some(slot)) }
    }

    /// This store with another value behind `handle`, all else unchanged.
    pub open spec fn with_value(self, handle: ScriptRef, value: T) -> Self {
        self.put(
            handle,
            SlotState {
                value,
                holders: self.slot(handle).holders,
                script_owned: self.slot(handle).script_owned,
            },
        )
    }

    /// This store with another holder count behind `handle`, all else unchanged.
    pub open spec fn with_holders(self, handle: ScriptRef, holders: nat) -> Self {
        self.put(
            handle,
            SlotState {
                value: self.slot(handle).value,
                holders,
                script_owned: self.slot(handle).script_owned,
            },
        )
    }

    /// This store with the slot behind `handle` vacated.
    pub open spec fn vacated(self, handle: ScriptRef) -> Self {
        StoreState { tag: self.tag, slots: self.slots.update(handle.index as int, None) }
    }

    /// This store with one more slot at its end, holding `value` with no holds.
    pub open spec fn grown(self, value: T, script_owned: bool) -> Self {
        StoreState {
            tag: self.tag,
            slots: self.slots.push(Some(SlotState { value, holders: 0, script_owned })),
        }
    }

    /// What tearing down the owner of the value behind `handle` comes to: it
    /// succeeds when the script side owns the value and nobody holds its
    /// validity lock.
    pub open spec fn teardown_verdict(self, handle: ScriptRef) -> Result<(), FatalError> {
        if !self.owns(handle) {
            Err(FatalError::StorageMissing { index: handle.index })
        } else if self.slot(handle).holders > 0 {
            Err(
                FatalError::StillReferenced {
                    index: handle.index,
                    holders: self.slot(handle).holders as usize,
                },
            )
        } else {
            Ok(())
        }
    }

    /// The reference to the slot that the next `grown` adds.
    pub open spec fn next_ref(self) -> ScriptRef {
        ScriptRef { tag: self.tag, index: self.slots.len() as usize }
    }
}

struct Slot<T> {
    value: T,
    validity: ValidityLock,
    script_owned: bool,
}

/// Storage for the values of one host type that scripts can address.
///
/// Both the values that the host manages and the values that wrappers on the
/// script side own live here, each beside its validity lock. A slot is never
/// issued twice, so a reference to a destroyed value stays invalid for good.
pub struct Store<T> {
    tag: TypeTag,
    slots: Vec<Option<Slot<T>>>,
}

spec fn slot_view<T>(slot: Option<Slot<T>>) -> Option<SlotState<T>> {
    match slot {
        Some(s) => Some(
            SlotState { value: s.value, holders: s.validity.holders(), script_owned: s.script_owned },
        ),
        None => None,
    }
}

impl<T> View for Store<T> {
    type V = StoreState<T>;

    closed spec fn view(&self) -> StoreState<T> {
        StoreState {
            tag: self.tag,
            slots: Seq::new(self.slots@.len(), |i: int| slot_view(self.slots@[i])),
        }
    }
}

impl<T> Store<T> {
    /// An empty store for values of the type that `tag` stands for.
    pub fn new(tag: TypeTag) -> (store: Self)
        ensures
            store@.tag == tag,
            store@.slots.len() == 0,
    {
        Store { tag, slots: Vec::new() }
    }

    /// The content of a store is always well formed.
    pub proof fn view_wf(&self)
        ensures
            self@.wf(),
    {
        assert(self@.slots.len() == self.slots.len());
        assert forall|i: int| 0 <= i < self@.slots.len() && self@.slots[i] is Some implies (
        #[trigger] self@.slots[i])->0.holders <= usize::MAX by {
            self.slots@[i]->0.validity.holders_bounded();
        }
    }

    /// The tag of the type that this store holds.
    pub fn type_tag(&self) -> (tag: TypeTag)
        ensures
            tag == self@.tag,
    {
        self.tag
    }

    /// Checks the tag of a reference, and that it names a slot of this store,
    /// occupied or not.
    fn addresses(&self, handle: &ScriptRef) -> (r: Result<(), ReflectionError>)
        ensures
            r is Ok <==> handle.tag == self@.tag && handle.index < self@.slots.len(),
            r is Ok ==> handle.index < self.slots@.len(),
            r is Err ==> r->Err_0 == self@.fault(*handle) && !self@.resolves(*handle),
    {
        if handle.tag != self.tag {
            Err(ReflectionError::CannotDowncast { expected: self.tag, found: handle.tag })
        } else if handle.index >= self.slots.len() {
            Err(ReflectionError::InvalidReference { index: handle.index })
        } else {
            Ok(())
        }
    }

    /// Checks a reference against this store: whether an access through it
    /// would find a value, and the error it would yield if not.
    pub fn check(&self, handle: &ScriptRef) -> (r: Result<(), ReflectionError>)
        ensures
            r is Ok <==> self@.resolves(*handle),
            r is Err ==> r->Err_0 == self@.fault(*handle),
    {
        if let Err(e) = self.addresses(handle) {
            return Err(e);
        }
        match &self.slots[handle.index] {
            Some(_) => Ok(()),
            None => Err(ReflectionError::InvalidReference { index: handle.index }),
        }
    }

    /// Whether anybody holds the validity lock of the value behind `handle`.
    /// A reference that does not resolve has no lock to hold.
    pub fn is_locked(&self, handle: &ScriptRef) -> (locked: bool)
        ensures
            locked == (self@.resolves(*handle) && self@.slot(*handle).holders > 0),
    {
        if self.addresses(handle).is_err() {
            return false;
        }
        match &self.slots[handle.index] {
            Some(slot) => slot.validity.is_locked(),
            None => false,
        }
    }

    /// Puts a value into a new slot and hands out the reference to it.
    pub(crate) fn allocate(&mut self, value: T, script_owned: bool) -> (handle: ScriptRef)
        ensures
            handle == old(self)@.next_ref(),
            handle.index == old(self)@.slots.len(),
            final(self)@ == old(self)@.grown(value, script_owned),
    {
        let index: usize = self.slots.len();
        self.slots.push(Some(Slot { value, validity: ValidityLock::new(), script_owned }));
        assert(self@.slots =~= old(self)@.grown(value, script_owned).slots);
        ScriptRef { tag: self.tag, index }
    }

    /// Takes a value into the host's care and hands out a reference to it.
    ///
    /// The reference resolves from now on, to this value, until the host
    /// removes the value again.
    pub fn insert(&mut self, value: T) -> (handle: ScriptRef)
        ensures
            handle == old(self)@.next_ref(),
            handle.index == old(self)@.slots.len(),
            final(self)@ == old(self)@.grown(value, false),
    {
        self.allocate(value, false)
    }

    /// Destroys a value that the host manages and hands it back.
    ///
    /// Nothing happens, and `None` comes back, where the reference does not
    /// resolve or the value belongs to a wrapper on the script side. The host
    /// answers for its own values: the validity lock is not consulted.
    pub fn remove(&mut self, handle: &ScriptRef) -> (taken: Option<T>)
        ensures
            taken is Some <==> old(self)@.resolves(*handle) && !old(self)@.owns(*handle),
            taken is Some ==> taken->0 == old(self)@.slot(*handle).value,
            taken is Some ==> final(self)@ == old(self)@.vacated(*handle),
            taken is None ==> final(self)@ == old(self)@,
    {
        if self.addresses(handle).is_err() {
            return None;
        }
        let host_owned: bool = match &self.slots[handle.index] {
            Some(slot) => !slot.script_owned,
            None => false,
        };
        if !host_owned {
            return None;
        }
        let gone = self.slots[handle.index].take();
        assert(self@.slots =~= old(self)@.vacated(*handle).slots);
        match gone {
            Some(slot) => Some(slot.value),
            None => None,
        }
    }

    /// Destroys a value that the script side owns, on behalf of its owner,
    /// unless its validity lock is held.
    pub(crate) fn reclaim(&mut self, handle: &ScriptRef) -> (r: Result<(), FatalError>)
        ensures
            r == old(self)@.teardown_verdict(*handle),
            r is Ok ==> final(self)@ == old(self)@.vacated(*handle),
            r is Err ==> final(self)@ == old(self)@,
    {
        if self.addresses(handle).is_err() {
            return Err(FatalError::StorageMissing { index: handle.index });
        }
        match &self.slots[handle.index] {
            Some(slot) => {
                if !slot.script_owned {
                    return Err(FatalError::StorageMissing { index: handle.index });
                }
                let holders: usize = slot.validity.count();
                if holders > 0 {
                    return Err(FatalError::StillReferenced { index: handle.index, holders });
                }
            },
            None => {
                return Err(FatalError::StorageMissing { index: handle.index });
            },
        }
        self.slots[handle.index] = None;
        assert(self@.slots =~= old(self)@.vacated(*handle).slots);
        Ok(())
    }
}

impl ScriptRef {
    /// Runs `accessor` on the referent and hands back what it returns.
    ///
    /// The referent's validity lock is held while `accessor` runs and is as
    /// before afterwards; the store is unchanged. Fails, without running
    /// `accessor`, exactly when the reference does not resolve.
    pub fn get<T, G, F: FnOnce(&T) -> G>(&self, store: &mut Store<T>, accessor: F) -> (r: Result<
        G,
        ReflectionError,
    >)
        requires
            old(store)@.resolves(*self) ==> call_requires(
                accessor,
                (&old(store)@.slot(*self).value,),
            ),
        ensures
            final(store)@ == old(store)@,
            r is Ok <==> old(store)@.resolves(*self),
            r is Ok ==> call_ensures(accessor, (&old(store)@.slot(*self).value,), r->Ok_0),
            r is Err ==> r->Err_0 == old(store)@.fault(*self),
    {
        if let Err(e) = store.addresses(self) {
            return Err(e);
        }
        match &mut store.slots[self.index] {
            Some(slot) => {
                let held: bool = slot.validity.try_read();
                let out = accessor(&slot.value);
                if held {
                    slot.validity.release_read();
                }
                assert(store@.slots =~= old(store)@.slots);
                Ok(out)
            },
            None => {
                assert(store@.slots =~= old(store)@.slots);
                Err(ReflectionError::InvalidReference { index: self.index })
            },
        }
    }

    /// Runs `accessor` on the referent, which it may change, and hands back
    /// what it returns.
    ///
    /// The referent's validity lock is held while `accessor` runs and is as
    /// before afterwards. Of the store only the referent's value changes, to
    /// what `accessor` left there. Fails, without running `accessor`, exactly
    /// when the reference does not resolve.
    pub fn get_mut<T, G, F: FnOnce(&mut T) -> G>(
        &self,
        store: &mut Store<T>,
        accessor: F,
    ) -> (r: Result<G, ReflectionError>)
        requires
            old(store)@.resolves(*self) ==> forall|target: &mut T|
                *target == old(store)@.slot(*self).value ==> call_requires(accessor, (target,)),
        ensures
            r is Ok <==> old(store)@.resolves(*self),
            r is Ok ==> final(store)@ == old(store)@.with_value(
                *self,
                final(store)@.slot(*self).value,
            ),
            r is Ok ==> exists|target: &mut T|
                {
                    &&& *target == old(store)@.slot(*self).value
                    &&& *final(target) == final(store)@.slot(*self).value
                    &&& call_ensures(accessor, (target,), r->Ok_0)
                },
            r is Err ==> r->Err_0 == old(store)@.fault(*self),
            r is Err ==> final(store)@ == old(store)@,
    {
        if let Err(e) = store.addresses(self) {
            return Err(e);
        }
        match &mut store.slots[self.index] {
            Some(slot) => {
                let held: bool = slot.validity.try_read();
                let out = accessor(&mut slot.value);
                if held {
                    slot.validity.release_read();
                }
                assert(store@.slots =~= old(store)@.with_value(
                    *self,
                    store@.slot(*self).value,
                ).slots);
                Ok(out)
            },
            None => {
                assert(store@.slots =~= old(store)@.slots);
                Err(ReflectionError::InvalidReference { index: self.index })
            },
        }
    }

    /// Copies the value behind `source` onto the referent of this reference.
    ///
    /// Both references are checked before anything is written, this one
    /// first. Of the store only this reference's referent changes, to a clone
    /// of the value behind `source`.
    pub fn apply<T: Clone>(&mut self, store: &mut Store<T>, source: &ScriptRef) -> (r: Result<
        (),
        ReflectionError,
    >)
        ensures
            *final(self) == *old(self),
            r is Ok <==> old(store)@.resolves(*old(self)) && old(store)@.resolves(*source),
            r is Ok ==> final(store)@ == old(store)@.with_value(
                *old(self),
                final(store)@.slot(*old(self)).value,
            ),
            r is Ok ==> cloned(
                old(store)@.slot(*source).value,
                final(store)@.slot(*old(self)).value,
            ),
            r is Err ==> final(store)@ == old(store)@,
            r is Err ==> r->Err_0 == (if old(store)@.resolves(*old(self)) {
                old(store)@.fault(*source)
            } else {
                old(store)@.fault(*old(self))
            }),
    {
        if let Err(e) = store.check(self) {
            return Err(e);
        }
        let copy = |v: &T| -> (c: T)
            ensures
                cloned(*v, c)
        { v.clone() };
        match source.get(store, copy) {
            Ok(value) => {
                let overwrite = move |target: &mut T|
                    ensures
                        *final(target) == value
                { *target = value; };
                self.get_mut(store, overwrite)
            },
            Err(e) => Err(e),
        }
    }

    /// Takes a hold on the referent's validity lock that lasts until
    /// [`ScriptRef::unlock_read`] gives it back.
    ///
    /// While the hold lasts, the wrapper that owns the referent cannot be torn
    /// down.
    pub fn lock_read<T>(&self, store: &mut Store<T>) -> (r: Result<(), ReflectionError>)
        ensures
            r is Ok <==> old(store)@.resolves(*self) && old(store)@.slot(*self).holders
                < usize::MAX,
            r is Ok ==> final(store)@ == old(store)@.with_holders(
                *self,
                after_acquire(old(store)@.slot(*self).holders),
            ),
            r is Err ==> final(store)@ == old(store)@,
            r is Err ==> r->Err_0 == (if old(store)@.resolves(*self) {
                ReflectionError::LockExhausted { index: self.index }
            } else {
                old(store)@.fault(*self)
            }),
    {
        if let Err(e) = store.addresses(self) {
            return Err(e);
        }
        match &mut store.slots[self.index] {
            Some(slot) => {
                if slot.validity.try_read() {
                    assert(store@.slots =~= old(store)@.with_holders(
                        *self,
                        after_acquire(old(store)@.slot(*self).holders),
                    ).slots);
                    Ok(())
                } else {
                    assert(store@.slots =~= old(store)@.slots);
                    Err(ReflectionError::LockExhausted { index: self.index })
                }
            },
            None => {
                assert(store@.slots =~= old(store)@.slots);
                Err(ReflectionError::InvalidReference { index: self.index })
            },
        }
    }

    /// Gives back one hold on the referent's validity lock.
    pub fn unlock_read<T>(&self, store: &mut Store<T>) -> (r: Result<(), ReflectionError>)
        ensures
            r is Ok <==> old(store)@.resolves(*self) && old(store)@.slot(*self).holders > 0,
            r is Ok ==> final(store)@ == old(store)@.with_holders(
                *self,
                after_release(old(store)@.slot(*self).holders),
            ),
            r is Err ==> final(store)@ == old(store)@,
            r is Err ==> r->Err_0 == (if old(store)@.resolves(*self) {
                ReflectionError::NotHeld { index: self.index }
            } else {
                old(store)@.fault(*self)
            }),
    {
        if let Err(e) = store.addresses(self) {
            return Err(e);
        }
        match &mut store.slots[self.index] {
            Some(slot) => {
                if slot.validity.release_read() {
                    assert(store@.slots =~= old(store)@.with_holders(
                        *self,
                        after_release(old(store)@.slot(*self).holders),
                    ).slots);
                    Ok(())
                } else {
                    assert(store@.slots =~= old(store)@.slots);
                    Err(ReflectionError::NotHeld { index: self.index })
                }
            },
            None => {
                assert(store@.slots =~= old(store)@.slots);
                Err(ReflectionError::InvalidReference { index: self.index })
            },
        }
    }
}

} // verus!
