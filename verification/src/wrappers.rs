use crate::error::{FatalError, ReflectionError};
use crate::script_ref::{ScriptRef, Store};
use core::marker::PhantomData;
use vstd::prelude::*;

verus! {

/// Script representable type with pass-by-reference semantics.
pub trait ScriptReference {

}

impl<T> ScriptReference for T {

}

/// Script representable type with pass-by-value semantics.
pub trait ScriptValue: ScriptReference + Clone {

}

impl<T: Clone> ScriptValue for T {

}

/// A value that a script can address: either one that the wrapper owns, or a
/// reference to one that lives elsewhere.
///
/// Which of the two a wrapper is, is fixed when it is made. Either way the
/// value itself stands in a [`Store`], where references can reach it, and
/// every operation on it takes that store.
pub enum WrappedValue<T> {
    /// The wrapper is the sole owner of the value in the slot that the
    /// reference names: it put the value there and it alone takes it away.
    Owned(ScriptRef, PhantomData<T>),
    /// The wrapper refers to a value that somebody else answers for.
    Ref(ScriptRef),
}

impl<T: ScriptReference> WrappedValue<T> {
    /// The reference to the value that this wrapper stands for.
    pub open spec fn handle(&self) -> ScriptRef {
        match self {
            WrappedValue::Owned(handle, _) => *handle,
            WrappedValue::Ref(handle) => *handle,
        }
    }

    /// Whether this wrapper owns its value.
    pub open spec fn owned(&self) -> bool {
        self is Owned
    }

    /// Wraps a value that the script side is to own. The value gets a slot of
    /// its own, with a fresh validity lock that nobody holds.
    pub fn new(store: &mut Store<T>, value: T) -> (wrapper: Self)
        ensures
            wrapper.owned(),
            wrapper.handle() == old(store)@.next_ref(),
            wrapper.handle().index == old(store)@.slots.len(),
            final(store)@ == old(store)@.grown(value, true),
    {
        WrappedValue::Owned(store.allocate(value, true), PhantomData)
    }

    /// Wraps a reference to a value that lives elsewhere.
    pub fn new_ref(handle: ScriptRef) -> (wrapper: Self)
        ensures
            wrapper == WrappedValue::<T>::Ref(handle),
    {
        WrappedValue::Ref(handle)
    }

    /// Whether this wrapper owns its value.
    pub fn is_owned(&self) -> (owned: bool)
        ensures
            owned == self.owned(),
    {
        match self {
            WrappedValue::Owned(_, _) => true,
            WrappedValue::Ref(_) => false,
        }
    }

    /// A reference to the wrapped value. Making one touches neither the value
    /// nor its validity lock.
    pub fn script_ref(&self) -> (handle: ScriptRef)
        ensures
            handle == self.handle(),
    {
        match self {
            WrappedValue::Owned(handle, _) => *handle,
            WrappedValue::Ref(handle) => *handle,
        }
    }
}


impl<T: ScriptReference> WrappedValue<T> {
    /// Performs an operation on the wrapped value and hands back what it
    /// returns.
    ///
    /// The value's validity lock is held while `accessor` runs; afterwards the
    /// store is as it was. An owning wrapper, used on the store that holds its
    /// value, always succeeds. A reference fails where its referent's type is
    /// not `T` or its referent is gone, and `accessor` is then not run.
    pub fn val<G, F: FnOnce(&T) -> G>(&self, store: &mut Store<T>, accessor: F) -> (r: Result<
        G,
        ReflectionError,
    >)
        requires
            old(store)@.resolves(self.handle()) ==> call_requires(
                accessor,
                (&old(store)@.slot(self.handle()).value,),
            ),
        ensures
            final(store)@ == old(store)@,
            r is Ok <==> old(store)@.resolves(self.handle()),
            r is Ok ==> call_ensures(
                accessor,
                (&old(store)@.slot(self.handle()).value,),
                r->Ok_0,
            ),
            r is Err ==> r->Err_0 == old(store)@.fault(self.handle()),
    {
        self.script_ref().get(store, accessor)
    }

    /// Performs an operation that may change the wrapped value and hands back
    /// what it returns.
    ///
    /// The wrapper itself stays what it was. Of the store only the wrapped
    /// value changes, to what `accessor` left there. Success and failure are
    /// as for [`WrappedValue::val`].
    pub fn val_mut<G, F: FnOnce(&mut T) -> G>(
        &mut self,
        store: &mut Store<T>,
        accessor: F,
    ) -> (r: Result<G, ReflectionError>)
        requires
            old(store)@.resolves(old(self).handle()) ==> forall|target: &mut T|
                *target == old(store)@.slot(old(self).handle()).value ==> call_requires(
                    accessor,
                    (target,),
                ),
        ensures
            *final(self) == *old(self),
            r is Ok <==> old(store)@.resolves(old(self).handle()),
            r is Ok ==> final(store)@ == old(store)@.with_value(
                old(self).handle(),
                final(store)@.slot(old(self).handle()).value,
            ),
            r is Ok ==> exists|target: &mut T|
                {
                    &&& *target == old(store)@.slot(old(self).handle()).value
                    &&& *final(target) == final(store)@.slot(old(self).handle()).value
                    &&& call_ensures(accessor, (target,), r->Ok_0)
                },
            r is Err ==> r->Err_0 == old(store)@.fault(old(self).handle()),
            r is Err ==> final(store)@ == old(store)@,
    {
        self.script_ref().get_mut(store, accessor)
    }

    /// Destroys the wrapper.
    ///
    /// A reference goes without a check: whoever owns its referent answers
    /// for it. An owning wrapper takes its value out of the store, unless
    /// somebody still holds the value's validity lock: then nothing is
    /// destroyed and the fatal condition comes back.
    pub fn teardown(self, store: &mut Store<T>) -> (r: Result<(), FatalError>)
        ensures
            !self.owned() ==> r is Ok,
            !self.owned() ==> final(store)@ == old(store)@,
            self.owned() ==> r == old(store)@.teardown_verdict(self.handle()),
            self.owned() && r is Ok ==> final(store)@ == old(store)@.vacated(self.handle()),
            r is Err ==> final(store)@ == old(store)@,
    {
        match self {
            WrappedValue::Owned(handle, _) => store.reclaim(&handle),
            WrappedValue::Ref(_) => Ok(()),
        }
    }
}

impl<T: ScriptValue> WrappedValue<T> {
    /// Retrieves the wrapped value by cloning it.
    pub fn inner(&self, store: &mut Store<T>) -> (r: Result<T, ReflectionError>)
        ensures
            final(store)@ == old(store)@,
            r is Ok <==> old(store)@.resolves(self.handle()),
            r is Ok ==> cloned(old(store)@.slot(self.handle()).value, r->Ok_0),
            r is Err ==> r->Err_0 == old(store)@.fault(self.handle()),
    {
        let copy = |v: &T| -> (c: T)
            ensures
                cloned(*v, c)
        { v.clone() };
        self.val(store, copy)
    }

    /// Pushes this wrapper's current value onto the referent of `other`.
    ///
    /// `other` is checked first, then this wrapper. Of the store only the
    /// referent of `other` changes, to a clone of this wrapper's value.
    pub fn apply_self_to_base(&self, store: &mut Store<T>, other: &mut ScriptRef) -> (r: Result<
        (),
        ReflectionError,
    >)
        ensures
            *final(other) == *old(other),
            r is Ok <==> old(store)@.resolves(*old(other)) && old(store)@.resolves(self.handle()),
            r is Ok ==> final(store)@ == old(store)@.with_value(
                *old(other),
                final(store)@.slot(*old(other)).value,
            ),
            r is Ok ==> cloned(
                old(store)@.slot(self.handle()).value,
                final(store)@.slot(*old(other)).value,
            ),
            r is Err ==> final(store)@ == old(store)@,
            r is Err ==> r->Err_0 == (if old(store)@.resolves(*old(other)) {
                old(store)@.fault(self.handle())
            } else {
                old(store)@.fault(*old(other))
            }),
    {
        let source = self.script_ref();
        other.apply(store, &source)
    }

    /// Clones the wrapper.
    ///
    /// An owning wrapper gives an owning wrapper of a new slot, which holds a
    /// clone of the value under a fresh validity lock. A reference gives the
    /// same reference again, to the same value.
    pub fn clone_in(&self, store: &mut Store<T>) -> (r: Result<Self, ReflectionError>)
        ensures
            !self.owned() ==> r == Ok::<Self, ReflectionError>(WrappedValue::Ref(self.handle())),
            !self.owned() ==> final(store)@ == old(store)@,
            self.owned() ==> (r is Ok <==> old(store)@.resolves(self.handle())),
            self.owned() && r is Ok ==> {
                &&& r->Ok_0.owned()
                &&& r->Ok_0.handle() == old(store)@.next_ref()
                &&& r->Ok_0.handle().index == old(store)@.slots.len()
                &&& final(store)@ == old(store)@.grown(
                    final(store)@.slot(r->Ok_0.handle()).value,
                    true,
                )
                &&& cloned(
                    old(store)@.slot(self.handle()).value,
                    final(store)@.slot(r->Ok_0.handle()).value,
                )
            },
            r is Err ==> r->Err_0 == old(store)@.fault(self.handle()),
            r is Err ==> final(store)@ == old(store)@,
    {
        match self {
            WrappedValue::Owned(_, _) => {
                match self.inner(store) {
                    Ok(value) => Ok(WrappedValue::new(store, value)),
                    Err(e) => Err(e),
                }
            },
            WrappedValue::Ref(handle) => Ok(WrappedValue::Ref(*handle)),
        }
    }
}

} // verus!
