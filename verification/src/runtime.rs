//! The runtime shape of a transformed function: a single-assignment slot
//! that runs its resolver at most once — on the first call — caches the
//! resolved function, and forwards every call, with its arguments in
//! declaration order, to that frozen result.
//!
//! `IndirectFn` models the process-wide cell the engine emits: the pointer
//! holder slot together with its one-time-initialization guard. The `call`
//! functions model the emitted body for each arity: resolve once, then
//! dispatch through the cached function. The model holds the slot under
//! exclusive access, which is what the guard provides each caller of the
//! emitted cell; the cross-thread ordering of concurrent first calls is the
//! emitted cell's own guarantee and is not restated here.

use vstd::prelude::*;

verus! {

/// The pointer holder slot of one transformed function: empty until the
/// first call, then holding the resolved function forever.
pub struct IndirectFn<F> {
    slot: Option<F>,
    runs: Ghost<nat>,
}

impl<F> IndirectFn<F> {
    /// Whether the resolver has run and its result is cached.
    pub closed spec fn resolved(self) -> bool {
        self.slot is Some
    }

    /// The cached function (meaningful only once resolved).
    pub closed spec fn resolved_fn(self) -> F
        recommends
            self.resolved(),
    {
        self.slot->0
    }

    /// How many times the resolver has run for this slot.
    pub closed spec fn resolver_runs(self) -> nat {
        self.runs@
    }

    /// The slot's invariant: the resolver has run exactly once when the slot
    /// is populated, and never before that.
    pub open spec fn wf(self) -> bool {
        self.resolver_runs() == if self.resolved() {
            1nat
        } else {
            0nat
        }
    }

    /// A fresh slot: unresolved, the resolver never run.
    pub fn new() -> (r: Self)
        ensures
            r.wf(),
            !r.resolved(),
            r.resolver_runs() == 0,
    {
        IndirectFn { slot: Option::None, runs: Ghost(0) }
    }

    /// The guard's "run exactly once" operation: runs `resolver` and caches
    /// its result if the slot is still empty, and does nothing at all — the
    /// resolver is not consulted — if a call already populated it.
    pub fn resolve<R: FnOnce() -> F>(&mut self, resolver: R)
        requires
            old(self).wf(),
            !old(self).resolved() ==> call_requires(resolver, ()),
        ensures
            final(self).wf(),
            final(self).resolved(),
            final(self).resolver_runs() == 1,
            old(self).resolved() ==> *final(self) == *old(self),
            !old(self).resolved() ==> call_ensures(resolver, (), final(self).resolved_fn()),
    {
        if self.slot.is_none() {
            let f = resolver();
            self.slot = Option::Some(f);
            proof {
                self.runs@ = self.runs@ + 1;
            }
        }
    }
}

/// One call of a transformed no-argument function: resolve once, then
/// dispatch to the frozen result. Returns what the cached function returns.
pub fn call0<B, F: Fn() -> B + Copy, R: FnOnce() -> F>(
    target: &mut IndirectFn<F>,
    resolver: R,
) -> (r: B)
    requires
        old(target).wf(),
        !old(target).resolved() ==> call_requires(resolver, ()),
        !old(target).resolved() ==> forall|f: F| call_ensures(resolver, (), f) ==> call_requires(f, ()),
        old(target).resolved() ==> call_requires(old(target).resolved_fn(), ()),
    ensures
        final(target).wf(),
        final(target).resolved(),
        final(target).resolver_runs() == 1,
        old(target).resolved() ==> *final(target) == *old(target),
        call_step(*old(target), *final(target)),
        !old(target).resolved() ==> call_ensures(resolver, (), final(target).resolved_fn()),
        call_ensures(final(target).resolved_fn(), (), r),
{
    target.resolve(resolver);
    let f = fetch(target);
    f()
}

/// One call of a transformed one-argument function: resolve once, then
/// dispatch to the frozen result, forwarding the argument.
pub fn call1<A, B, F: Fn(A) -> B + Copy, R: FnOnce() -> F>(
    target: &mut IndirectFn<F>,
    resolver: R,
    a: A,
) -> (r: B)
    requires
        old(target).wf(),
        !old(target).resolved() ==> call_requires(resolver, ()),
        !old(target).resolved() ==> forall|f: F| call_ensures(resolver, (), f) ==> call_requires(f, (a,)),
        old(target).resolved() ==> call_requires(old(target).resolved_fn(), (a,)),
    ensures
        final(target).wf(),
        final(target).resolved(),
        final(target).resolver_runs() == 1,
        old(target).resolved() ==> *final(target) == *old(target),
        call_step(*old(target), *final(target)),
        !old(target).resolved() ==> call_ensures(resolver, (), final(target).resolved_fn()),
        call_ensures(final(target).resolved_fn(), (a,), r),
{
    target.resolve(resolver);
    let f = fetch(target);
    f(a)
}

/// One call of a transformed two-argument function: resolve once, then
/// dispatch to the frozen result, forwarding the arguments positionally.
pub fn call2<A1, A2, B, F: Fn(A1, A2) -> B + Copy, R: FnOnce() -> F>(
    target: &mut IndirectFn<F>,
    resolver: R,
    a1: A1,
    a2: A2,
) -> (r: B)
    requires
        old(target).wf(),
        !old(target).resolved() ==> call_requires(resolver, ()),
        !old(target).resolved() ==> forall|f: F|
            call_ensures(resolver, (), f) ==> call_requires(f, (a1, a2)),
        old(target).resolved() ==> call_requires(old(target).resolved_fn(), (a1, a2)),
    ensures
        final(target).wf(),
        final(target).resolved(),
        final(target).resolver_runs() == 1,
        old(target).resolved() ==> *final(target) == *old(target),
        call_step(*old(target), *final(target)),
        !old(target).resolved() ==> call_ensures(resolver, (), final(target).resolved_fn()),
        call_ensures(final(target).resolved_fn(), (a1, a2), r),
{
    target.resolve(resolver);
    let f = fetch(target);
    f(a1, a2)
}

/// One call of a transformed three-argument function: resolve once, then
/// dispatch to the frozen result, forwarding the arguments positionally.
pub fn call3<A1, A2, A3, B, F: Fn(A1, A2, A3) -> B + Copy, R: FnOnce() -> F>(
    target: &mut IndirectFn<F>,
    resolver: R,
    a1: A1,
    a2: A2,
    a3: A3,
) -> (r: B)
    requires
        old(target).wf(),
        !old(target).resolved() ==> call_requires(resolver, ()),
        !old(target).resolved() ==> forall|f: F|
            call_ensures(resolver, (), f) ==> call_requires(f, (a1, a2, a3)),
        old(target).resolved() ==> call_requires(old(target).resolved_fn(), (a1, a2, a3)),
    ensures
        final(target).wf(),
        final(target).resolved(),
        final(target).resolver_runs() == 1,
        old(target).resolved() ==> *final(target) == *old(target),
        call_step(*old(target), *final(target)),
        !old(target).resolved() ==> call_ensures(resolver, (), final(target).resolved_fn()),
        call_ensures(final(target).resolved_fn(), (a1, a2, a3), r),
{
    target.resolve(resolver);
    let f = fetch(target);
    f(a1, a2, a3)
}

/// Reads the now-populated slot.
fn fetch<F: Copy>(target: &IndirectFn<F>) -> (f: F)
    requires
        target.resolved(),
    ensures
        f == target.resolved_fn(),
{
    let slot = target.slot;
    slot.unwrap()
}

/// How one call changes the slot: afterwards it is resolved and well formed,
/// and a slot that was already resolved is untouched.
pub open spec fn call_step<F>(pre: IndirectFn<F>, post: IndirectFn<F>) -> bool {
    &&& post.wf()
    &&& post.resolved()
    &&& (pre.resolved() ==> post == pre)
}

/// Across any sequence of calls on one slot — `states[0]` fresh, each later
/// state reached from its predecessor by one call — the resolver has run
/// exactly once from the first call on, and the function resolved by the
/// first call is frozen: every later call dispatches to it, whatever its own
/// resolver argument would return.
pub proof fn lemma_resolved_once_and_frozen<F>(states: Seq<IndirectFn<F>>, i: int)
    requires
        states.len() >= 2,
        !states[0].resolved(),
        states[0].wf(),
        forall|j: int| 1 <= j < states.len() ==> call_step(states[j - 1], #[trigger] states[j]),
        1 <= i < states.len(),
    ensures
        states[i].resolved(),
        states[i].resolver_runs() == 1,
        states[i].resolved_fn() == states[1].resolved_fn(),
    decreases i,
{
    assert(call_step(states[i - 1], states[i]));
    if i > 1 {
        lemma_resolved_once_and_frozen(states, i - 1);
    }
}

} // verus!
