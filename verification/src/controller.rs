//! The bounded walk controller: counts the objects a heap walk has shown it
//! and says, after each one, whether the walk goes on.

use vstd::prelude::*;

verus! {

/// What the controller knows in the middle of a walk.
pub struct WalkState {
    /// How many objects the walk has shown so far.
    pub observed: nat,
    /// The limit the walk was started with; negative means no limit.
    pub limit: int,
}

impl WalkState {
    /// The state before the first object of a walk bounded by `limit`.
    pub open spec fn reset(limit: int) -> WalkState {
        WalkState { observed: 0, limit }
    }

    /// The state after one more object.
    pub open spec fn observe(self) -> WalkState {
        WalkState { observed: self.observed + 1, limit: self.limit }
    }

    /// Whether the walk may go on to another object.
    pub open spec fn proceeds(self) -> bool {
        self.limit < 0 || self.limit > self.observed
    }

    /// The state in which a walk ends when the heap holds `matching` objects
    /// for it: the engine shows them one at a time, the controller counts
    /// each, and the engine stops at the first one after which the
    /// controller does not proceed.
    pub open spec fn walk(self, matching: nat) -> WalkState
        decreases matching,
    {
        if matching == 0 {
            self
        } else if self.observe().proceeds() {
            self.observe().walk((matching - 1) as nat)
        } else {
            self.observe()
        }
    }
}

/// How many objects a walk that starts in `state` shows the controller:
/// none on an empty heap, all of them without a limit, and otherwise at
/// least one and no more than the limit leaves room for.
pub open spec fn walk_total(state: WalkState, matching: nat) -> nat {
    if matching == 0 {
        state.observed
    } else if state.limit < 0 || state.observed + matching <= state.limit {
        state.observed + matching
    } else if state.observed + 1 >= state.limit {
        state.observed + 1
    } else {
        state.limit as nat
    }
}

/// A walk ends with the count that `walk_total` gives, and keeps its limit.
pub proof fn lemma_walk_total(state: WalkState, matching: nat)
    ensures
        state.walk(matching).observed == walk_total(state, matching),
        state.walk(matching).limit == state.limit,
    decreases matching,
{
    if matching > 0 && state.observe().proceeds() {
        lemma_walk_total(state.observe(), (matching - 1) as nat);
    }
}

/// With a limit of at least one, or on an empty heap with a limit of zero, a
/// walk that starts fresh shows the controller the smaller of the limit and
/// the number of matching objects.
pub proof fn law_bounded_walk(limit: int, matching: nat)
    requires
        limit >= 1 || (limit == 0 && matching == 0),
    ensures
        WalkState::reset(limit).walk(matching).observed == if matching <= limit {
            matching as int
        } else {
            limit
        },
{
    lemma_walk_total(WalkState::reset(limit), matching);
}

/// With a limit of zero the first object is still counted before the walk
/// is stopped: the check comes after the count.
pub proof fn law_zero_limit_walk(matching: nat)
    requires
        matching >= 1,
    ensures
        WalkState::reset(0).walk(matching).observed == 1,
{
    lemma_walk_total(WalkState::reset(0), matching);
}

/// Without a limit a walk that starts fresh shows the controller every
/// matching object.
pub proof fn law_unbounded_walk(limit: int, matching: nat)
    requires
        limit < 0,
    ensures
        WalkState::reset(limit).walk(matching).observed == matching,
{
    lemma_walk_total(WalkState::reset(limit), matching);
}

/// The tag slots of the matching objects, in the order in which the engine
/// shows them, as a walk under `tag` that starts in `state` leaves them: the
/// callback marks each object before the controller counts it, so the walk
/// marks every object that it shows and no other.
pub open spec fn marked(state: WalkState, slots: Seq<i64>, tag: i64) -> Seq<i64>
    decreases slots.len(),
{
    if slots.len() == 0 {
        slots
    } else if state.observe().proceeds() {
        seq![tag] + marked(state.observe(), slots.drop_first(), tag)
    } else {
        seq![tag] + slots.drop_first()
    }
}

/// How many of `slots` carry `tag`.
pub open spec fn carrying(slots: Seq<i64>, tag: i64) -> nat {
    slots.to_multiset().count(tag)
}

/// Where no object carried the tag before, the objects that carry it after
/// the walk are as many as the controller counted during the walk.
pub proof fn law_walk_marks_what_it_counts(state: WalkState, slots: Seq<i64>, tag: i64)
    requires
        !slots.contains(tag),
    ensures
        marked(state, slots, tag).len() == slots.len(),
        carrying(marked(state, slots, tag), tag) == state.walk(slots.len()).observed
            - state.observed,
    decreases slots.len(),
{
    broadcast use vstd::seq_lib::group_to_multiset_ensures;

    if slots.len() > 0 {
        let rest = slots.drop_first();
        assert forall|i: int| 0 <= i < rest.len() implies rest[i] != tag by {
            assert(slots[i + 1] == rest[i]);
        }
        let tail = if state.observe().proceeds() {
            law_walk_marks_what_it_counts(state.observe(), rest, tag);
            marked(state.observe(), rest, tag)
        } else {
            rest
        };
        assert(seq![tag] =~= Seq::<i64>::empty().push(tag));
        vstd::seq_lib::lemma_multiset_commutative(seq![tag], tail);
    }
}

/// The counter behind the controller.
pub struct LimitCounter {
    current_counter: i32,
    limit_value: i32,
}

impl View for LimitCounter {
    type V = WalkState;

    closed spec fn view(&self) -> WalkState {
        WalkState { observed: self.current_counter as nat, limit: self.limit_value as int }
    }
}

impl LimitCounter {
    #[verifier::type_invariant]
    spec fn counted_from_zero(self) -> bool {
        self.current_counter >= 0
    }

    /// A controller that has seen nothing and lets nothing through.
    pub fn new() -> (counter: LimitCounter)
        ensures
            counter@ == WalkState::reset(0),
    {
        LimitCounter { current_counter: 0, limit_value: 0 }
    }

    /// Starts a new walk bounded by `limit`; a negative limit lifts the
    /// bound.
    pub fn init(&mut self, limit: i32)
        ensures
            final(self)@ == WalkState::reset(limit as int),
    {
        self.current_counter = 0;
        self.limit_value = limit;
    }

    /// Counts one more object.
    pub fn count_down(&mut self)
        requires
            old(self)@.observed < i32::MAX,
        ensures
            final(self)@ == old(self)@.observe(),
    {
        proof {
            use_type_invariant(&*self);
        }
        self.current_counter = self.current_counter + 1;
    }

    /// Whether the walk may go on.
    pub fn allow(&self) -> (go_on: bool)
        ensures
            go_on == self@.proceeds(),
    {
        proof {
            use_type_invariant(self);
        }
        if self.limit_value < 0 {
            true
        } else {
            self.limit_value > self.current_counter
        }
    }

    /// How many objects have been counted since the last `init`.
    pub fn current(&self) -> (count: i32)
        ensures
            count == self@.observed,
    {
        proof {
            use_type_invariant(self);
        }
        self.current_counter
    }

    /// The limit given to the last `init`.
    pub fn limit(&self) -> (limit: i32)
        ensures
            limit == self@.limit,
    {
        self.limit_value
    }
}

} // verus!
