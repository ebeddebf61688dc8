//! Reducer-based state containers and live selectors.
//!
//! A store owns exactly one state value and changes it only through
//! `update`, which applies the store's reducer to the current state and one
//! message. Selectors pair a projection with no cache of their own: every
//! read goes back to the store's current state, so a selector can never
//! observe a stale value.

use vstd::prelude::*;

verus! {

/// A reducer that computes a whole new state from the current state and a
/// message. Reducers are total: `reduce` must succeed on every state and
/// message of its declared types.
pub trait Reducer: Sized {
    type State;

    type Msg;

    /// The mathematical transition this reducer applies.
    spec fn spec_reduce(&self, s: Self::State, m: Self::Msg) -> Self::State;

    /// Computes the next state without touching the current one.
    fn reduce(&self, s: &Self::State, m: Self::Msg) -> (r: Self::State)
        ensures
            r == self.spec_reduce(*s, m),
    ;
}

/// A reducer that rewrites the state in place. It must realize the same
/// kind of total transition as [`Reducer`], only with in-place mutation.
pub trait MutReducer: Sized {
    type State;

    type Msg;

    /// The mathematical transition this reducer applies.
    spec fn spec_reduce(&self, s: Self::State, m: Self::Msg) -> Self::State;

    /// Rewrites `s` to the next state.
    fn reduce(&self, s: &mut Self::State, m: Self::Msg)
        ensures
            *final(s) == self.spec_reduce(*old(s), m),
    ;
}

/// A pure projection from a state to a derived value. The derived value is
/// an executable type; the contract speaks about its view.
pub trait Projection: Sized {
    type In;

    type Out: View;

    /// The mathematical value this projection derives.
    spec fn spec_project(&self, s: Self::In) -> <Self::Out as View>::V;

    /// Derives the value from the given state.
    fn project(&self, s: &Self::In) -> (r: Self::Out)
        ensures
            r@ == self.spec_project(*s),
    ;
}

/// A live view into a store: a projection waiting to be applied to the
/// store's current state. A selector caches nothing; see
/// [`Selector::select`].
pub struct Selector<P> {
    pub proj: P,
}

/// Both stores' `step` functions are unaffected by `update`; this says two
/// store values agree on every transition.
pub open spec fn steps_preserved<S: Store>(a: &S, b: &S) -> bool {
    forall|s: S::State, m: S::Msg| #[trigger] b.step(s, m) == a.step(s, m)
}

/// A state container: one state value, changed only through `update`, read
/// only through selectors.
pub trait Store: Sized {
    type State;

    type Msg;

    /// The current state.
    spec fn state(&self) -> Self::State;

    /// The transition `update` applies for one message.
    spec fn step(&self, s: Self::State, m: Self::Msg) -> Self::State;

    /// Applies exactly one state transition, synchronously, before
    /// returning. The reducer itself never changes.
    fn update(&mut self, msg: Self::Msg)
        ensures
            final(self).state() == old(self).step(old(self).state(), msg),
            forall|s: Self::State, m: Self::Msg| #[trigger]
                final(self).step(s, m) == old(self).step(s, m),
    ;

    /// Applies a projection to the current state. This is the read path
    /// that selectors go through; it exposes no reference to the state.
    fn project_state<P: Projection<In = Self::State>>(&self, proj: &P) -> (r: P::Out)
        ensures
            r@ == proj.spec_project(self.state()),
    ;

    /// Pairs this store's state type with a projection. The selector holds
    /// no snapshot: every `select` call re-reads the store it is given.
    fn selector<P: Projection<In = Self::State>>(&self, proj: P) -> (r: Selector<P>)
        ensures
            r == (Selector { proj }),
    {
        Selector { proj }
    }
}

impl<P: Projection> Selector<P> {
    /// What `select` observes on a given store: always a projection of the
    /// store's state at call time.
    pub open spec fn selected<St: Store<State = P::In>>(&self, store: &St) -> <P::Out as View>::V {
        self.proj.spec_project(store.state())
    }

    /// Re-reads the store's current state and re-projects. There is no
    /// cache: the result always reflects the state at call time.
    pub fn select<St: Store<State = P::In>>(&self, store: &St) -> (r: P::Out)
        ensures
            r@ == self.selected(store),
    {
        store.project_state(&self.proj)
    }
}

/// A store whose reducer replaces the state wholesale.
pub struct ImmutableStore<R: Reducer> {
    state: R::State,
    reducer: R,
}

impl<R: Reducer> ImmutableStore<R> {
    /// Creates the store with an initial state and the reducer that will
    /// serve every later `update`.
    pub fn new(initial: R::State, reducer: R) -> (r: ImmutableStore<R>)
        ensures
            r.state() == initial,
            forall|s: R::State, m: R::Msg| #[trigger] r.step(s, m) == reducer.spec_reduce(s, m),
    {
        ImmutableStore { state: initial, reducer }
    }

    /// Unconditionally replaces the state, bypassing the reducer. Meant
    /// for initialization and tests; the reducer itself is untouched.
    pub fn set(&mut self, value: R::State)
        ensures
            final(self).state() == value,
            steps_preserved(old(self), final(self)),
    {
        self.state = value;
    }
}

impl<R: Reducer> Store for ImmutableStore<R> {
    type State = R::State;

    type Msg = R::Msg;

    closed spec fn state(&self) -> R::State {
        self.state
    }

    closed spec fn step(&self, s: R::State, m: R::Msg) -> R::State {
        self.reducer.spec_reduce(s, m)
    }

    fn update(&mut self, msg: R::Msg) {
        let next = self.reducer.reduce(&self.state, msg);
        self.state = next;
    }

    fn project_state<P: Projection<In = R::State>>(&self, proj: &P) -> (r: P::Out) {
        proj.project(&self.state)
    }
}

/// A store whose reducer mutates the state in place.
pub struct MutableStore<R: MutReducer> {
    state: R::State,
    reducer: R,
}

impl<R: MutReducer> MutableStore<R> {
    /// Creates the store with an initial state and the in-place reducer
    /// that will serve every later `update`.
    pub fn new(initial: R::State, reducer: R) -> (r: MutableStore<R>)
        ensures
            r.state() == initial,
            forall|s: R::State, m: R::Msg| #[trigger] r.step(s, m) == reducer.spec_reduce(s, m),
    {
        MutableStore { state: initial, reducer }
    }
}

impl<R: MutReducer> Store for MutableStore<R> {
    type State = R::State;

    type Msg = R::Msg;

    closed spec fn state(&self) -> R::State {
        self.state
    }

    closed spec fn step(&self, s: R::State, m: R::Msg) -> R::State {
        self.reducer.spec_reduce(s, m)
    }

    fn update(&mut self, msg: R::Msg) {
        self.reducer.reduce(&mut self.state, msg);
    }

    fn project_state<P: Projection<In = R::State>>(&self, proj: &P) -> (r: P::Out) {
        proj.project(&self.state)
    }
}

/// The left fold of a store's transition over a sequence of messages.
pub open spec fn reduce_fold<St: Store>(store: &St, init: St::State, msgs: Seq<St::Msg>) -> St::State
    decreases msgs.len(),
{
    if msgs.len() == 0 {
        init
    } else {
        reduce_fold(store, store.step(init, msgs.first()), msgs.drop_first())
    }
}

/// Store correctness: a run of states produced by applying `update` once
/// per message ends in the left fold of the reducer over the initial state
/// and the message sequence. This holds for any store, so for the
/// immutable and the mutable variant alike.
pub proof fn lemma_store_fold<St: Store>(store: &St, states: Seq<St::State>, msgs: Seq<St::Msg>)
    requires
        states.len() == msgs.len() + 1,
        forall|i: int|
            0 <= i < msgs.len() ==> states[i + 1] == #[trigger] store.step(states[i], msgs[i]),
    ensures
        states.last() == reduce_fold(store, states.first(), msgs),
    decreases msgs.len(),
{
    if msgs.len() == 0 {
        assert(states.last() == states.first());
    } else {
        let states2 = states.drop_first();
        let msgs2 = msgs.drop_first();
        assert(states2.first() == states[1]);
        assert(states[1] == store.step(states[0], msgs[0]));
        assert(forall|i: int|
            0 <= i < msgs2.len() ==> states2[i + 1] == #[trigger] store.step(states2[i], msgs2[i]));
        lemma_store_fold(store, states2, msgs2);
        assert(states2.last() == states.last());
    }
}

/// Selector liveness: whatever a selector was built from, a `select` after
/// an `update` observes the post-update state, never the value the state
/// had when the selector was constructed.
pub proof fn lemma_selector_liveness<St: Store, P: Projection<In = St::State>>(
    sel: &Selector<P>,
    pre: &St,
    post: &St,
    m: St::Msg,
)
    requires
        post.state() == pre.step(pre.state(), m),
    ensures
        sel.selected(post) == sel.proj.spec_project(pre.step(pre.state(), m)),
{
}

} // verus!
