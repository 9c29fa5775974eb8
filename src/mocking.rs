use std::collections::HashMap;
use vstd::prelude::*;

verus! {

broadcast use vstd::std_specs::hash::group_hash_axioms;

/// What a replacement decides for one call: run the real body with these
/// (possibly changed) arguments, or return this value in its place.
pub enum MockResult<A, R> {
    Continue(A),
    Return(R),
}

/// Where a call's arguments live while the call is intercepted: still in the
/// call frame, or moved out of it.
pub enum ArgSlot<A> {
    Held(A),
    MovedOut,
}

/// How an intercepted call goes on: into the real body, out with a
/// substitute value, or out by unwinding with the replacement's payload.
pub enum Resolution<R, P> {
    Proceed,
    Returned(R),
    Unwound(P),
}

/// Process-wide table from a function identity (one per monomorphized
/// function) to the replacement installed for it.
pub struct Registry<C> {
    slots: HashMap<u64, C>,
}

impl<C> View for Registry<C> {
    type V = Map<u64, C>;

    closed spec fn view(&self) -> Map<u64, C> {
        self.slots@
    }
}

/// Every replacement installed in `reg` accepts every argument value.
pub open spec fn accepts_all<A, R, P, C: Fn(A) -> Result<MockResult<A, R>, P>>(reg: Map<u64, C>) -> bool {
    forall|id: u64, a: A| reg.contains_key(id) ==> #[trigger] reg[id].requires((a,))
}

/// The resolution of an outcome, and what the argument slot holds after it.
pub open spec fn resolution_of<A, R, P>(outcome: Result<MockResult<A, R>, P>) -> (Resolution<R, P>, ArgSlot<A>) {
    match outcome {
        Ok(MockResult::Continue(a)) => (Resolution::Proceed, ArgSlot::Held(a)),
        Ok(MockResult::Return(v)) => (Resolution::Returned(v), ArgSlot::MovedOut),
        Err(p) => (Resolution::Unwound(p), ArgSlot::MovedOut),
    }
}

impl<C> Registry<C> {
    /// An empty registry: no function is replaced.
    pub fn new() -> (r: Self)
        ensures
            r@ == Map::<u64, C>::empty(),
    {
        Registry { slots: HashMap::new() }
    }

    /// Installs `callback` for `id`, dropping any earlier one; tells whether
    /// there was one.
    pub fn install(&mut self, id: u64, callback: C) -> (replaced: bool)
        ensures
            final(self)@ == old(self)@.insert(id, callback),
            replaced == old(self)@.contains_key(id),
    {
        let previous = self.slots.insert(id, callback);
        previous.is_some()
    }

    /// The replacement installed for `id`, if any.
    pub fn lookup(&self, id: u64) -> (r: Option<&C>)
        ensures
            match r {
                Some(c) => self@.contains_key(id) && *c == self@[id],
                None => !self@.contains_key(id),
            },
    {
        self.slots.get(&id)
    }
}

/// Hands `args` to the replacement installed for `id`; with none installed
/// the call continues with `args` unchanged.
pub fn dispatch<A, R, P, C: Fn(A) -> Result<MockResult<A, R>, P>>(reg: &Registry<C>, id: u64, args: A) -> (r: Result<MockResult<A, R>, P>)
    requires
        accepts_all(reg@),
    ensures
        !reg@.contains_key(id) ==> r == Ok::<MockResult<A, R>, P>(MockResult::Continue(args)),
        reg@.contains_key(id) ==> reg@[id].ensures((args,), r),
{
    match reg.lookup(id) {
        Some(callback) => callback(args),
        None => Ok(MockResult::Continue(args)),
    }
}

/// Takes the arguments out of the call frame, leaving the slot moved out.
pub fn extract<A>(slot: &mut ArgSlot<A>) -> (args: A)
    requires
        *old(slot) is Held,
    ensures
        args == (*old(slot))->Held_0,
        *final(slot) == ArgSlot::<A>::MovedOut,
{
    let mut taken = ArgSlot::MovedOut;
    std::mem::swap(slot, &mut taken);
    match taken {
        ArgSlot::Held(a) => a,
        ArgSlot::MovedOut => vstd::pervasive::unreached(),
    }
}

/// Settles a dispatched call: on `Continue` the arguments go back into the
/// slot; on `Return` and on unwinding they stay consumed, and the value or
/// payload is passed on unchanged.
pub fn resolve<A, R, P>(slot: &mut ArgSlot<A>, outcome: Result<MockResult<A, R>, P>) -> (r: Resolution<R, P>)
    requires
        *old(slot) == ArgSlot::<A>::MovedOut,
    ensures
        (r, *final(slot)) == resolution_of(outcome),
{
    match outcome {
        Ok(MockResult::Continue(a)) => {
            *slot = ArgSlot::Held(a);
            Resolution::Proceed
        },
        Ok(MockResult::Return(v)) => Resolution::Returned(v),
        Err(p) => Resolution::Unwound(p),
    }
}

/// The whole interception of one call: extract the arguments, dispatch
/// them, and settle the outcome.
pub fn intercept<A, R, P, C: Fn(A) -> Result<MockResult<A, R>, P>>(reg: &Registry<C>, id: u64, slot: &mut ArgSlot<A>) -> (r: Resolution<R, P>)
    requires
        accepts_all(reg@),
        *old(slot) is Held,
    ensures
        !reg@.contains_key(id) ==> r is Proceed && *final(slot) == *old(slot),
        reg@.contains_key(id) ==> exists|outcome: Result<MockResult<A, R>, P>|
            #[trigger] reg@[id].ensures(((*old(slot))->Held_0,), outcome)
                && (r, *final(slot)) == resolution_of(outcome),
{
    let args = extract(slot);
    let outcome = dispatch(reg, id, args);
    resolve(slot, outcome)
}

/// Installing twice for one identity leaves only the second replacement in
/// effect: the registry is as if the first had never been installed.
pub proof fn law_single_slot_overwrite<C>(reg: Map<u64, C>, id: u64, first: C, second: C)
    ensures
        reg.insert(id, first).insert(id, second) == reg.insert(id, second),
        reg.insert(id, first).insert(id, second)[id] == second,
{
    assert(reg.insert(id, first).insert(id, second) =~= reg.insert(id, second));
}

/// Installing a replacement for one identity changes nothing for any other
/// identity, such as another instantiation of the same generic function.
pub proof fn law_instantiation_isolation<C>(reg: Map<u64, C>, installed: u64, other: u64, callback: C)
    requires
        installed != other,
    ensures
        reg.insert(installed, callback).contains_key(other) == reg.contains_key(other),
        reg.contains_key(other) ==> reg.insert(installed, callback)[other] == reg[other],
{
}

/// Whatever the outcome, the arguments end up in exactly one place: back in
/// the call frame when the call continues, consumed when it returns early or
/// unwinds; never both, never neither.
pub proof fn law_arguments_owned_once<A, R, P>(outcome: Result<MockResult<A, R>, P>)
    ensures
        (resolution_of(outcome).0 is Proceed) == (resolution_of(outcome).1 is Held),
        (resolution_of(outcome).0 is Proceed) != (resolution_of(outcome).1 is MovedOut),
{
}

/// A replacement that unwinds with payload `p` makes the call unwind with
/// that same payload, and the real body is not entered.
pub proof fn law_unwind_fidelity<A, R, P>(p: P)
    ensures
        resolution_of(Err::<MockResult<A, R>, P>(p)).0 == Resolution::<R, P>::Unwound(p),
        !(resolution_of(Err::<MockResult<A, R>, P>(p)).0 is Proceed),
{
}

/// A replacement that continues with changed arguments makes the real body
/// run on the changed arguments.
pub proof fn law_mutation_visibility<A, R, P>(changed: A)
    ensures
        resolution_of(Ok::<MockResult<A, R>, P>(MockResult::Continue(changed))) == (
        Resolution::<R, P>::Proceed,
        ArgSlot::Held(changed),
        ),
{
}

} // verus!
