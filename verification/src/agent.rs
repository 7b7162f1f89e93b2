//! The agent: the negotiator, the tag allocator and the walk controller
//! under one owner, and the entry points' decisions over them.

use vstd::prelude::*;

use crate::controller::{LimitCounter, WalkState};
use crate::enumeration::{GcRequest, IterationControl, WalkRequest};
use crate::negotiator::{handle_of, negotiation_of, settled, Negotiation, Negotiator, Outcome};
use crate::tags::{law_tags_increase, tag_after, TagAllocator};
use crate::vm::{heap_object_either, jni_err, jni_ok};
use crate::vm::{AgentError, ClassRef, VmRef, HEAP_OBJECT_EITHER, JNI_ERR, JNI_OK};

verus! {

/// What an agent holds, as its contracts speak of it.
pub struct AgentState {
    /// The outcome of the negotiation, once there is one.
    pub cached: Option<Outcome>,
    /// How many tags have been handed out.
    pub issued: nat,
    /// Where the walk controller stands.
    pub walk: WalkState,
}

/// The agent.
pub struct Agent {
    negotiator: Negotiator,
    tags: TagAllocator,
    counter: LimitCounter,
}

impl View for Agent {
    type V = AgentState;

    closed spec fn view(&self) -> AgentState {
        AgentState { cached: self.negotiator@, issued: self.tags@, walk: self.counter@ }
    }
}

/// The first step of an enumeration of `class` for an agent in `state`: a
/// walk under a tag of its own, or the reason there is no environment to
/// walk with.
pub open spec fn admitted(state: AgentState, class: ClassRef) -> Result<WalkRequest, AgentError> {
    match handle_of(state.cached) {
        Ok(env) => Ok(
            WalkRequest {
                env,
                class,
                filter: HEAP_OBJECT_EITHER,
                tag: tag_after(state.issued) as i64,
            },
        ),
        Err(error) => Err(error),
    }
}

/// The collection request that an agent in `state` makes: one only where
/// the negotiation gave an environment.
pub open spec fn collection(state: AgentState) -> Option<GcRequest> {
    match state.cached {
        Some(Ok(env)) => Some(GcRequest { env }),
        _ => None,
    }
}

/// What an entry point returns to the loader for `outcome`.
pub open spec fn status_of(outcome: Outcome) -> i32 {
    if outcome is Ok {
        JNI_OK
    } else {
        JNI_ERR
    }
}

/// A request admitted after another walks under a larger tag, whatever the
/// two ask for: no tag is used twice.
pub proof fn law_requests_get_fresh_tags(
    earlier: AgentState,
    later: AgentState,
    first: ClassRef,
    second: ClassRef,
)
    requires
        earlier.issued < later.issued <= i64::MAX,
        admitted(earlier, first) is Ok,
        admitted(later, second) is Ok,
    ensures
        admitted(earlier, first)->Ok_0.tag < admitted(later, second)->Ok_0.tag,
{
    law_tags_increase(earlier.issued, later.issued);
}

/// Before a negotiation has given an environment, a request for a
/// collection asks nothing of the machine.
pub proof fn law_no_collection_without_environment(state: AgentState)
    requires
        !(state.cached matches Some(Ok(_))),
    ensures
        collection(state) is None,
{
}

/// What an entry point returns to the loader: success where the
/// negotiation gave an environment, refusal where it did not.
pub fn load_status(outcome: Outcome) -> (code: i32)
    ensures
        code == status_of(outcome),
{
    match outcome {
        Ok(_) => jni_ok(),
        Err(_) => jni_err(),
    }
}

impl Agent {
    /// An agent that has negotiated nothing, handed out no tag and lets no
    /// walk through.
    pub fn new() -> (agent: Agent)
        ensures
            agent@ == (AgentState { cached: None, issued: 0, walk: WalkState::reset(0) }),
    {
        Agent { negotiator: Negotiator::new(), tags: TagAllocator::new(), counter: LimitCounter::new() }
    }

    /// The outcome of the negotiation, once there is one.
    pub fn cached(&self) -> (cached: Option<Outcome>)
        ensures
            cached == self@.cached,
    {
        self.negotiator.cached()
    }

    /// How many tags have been handed out.
    pub fn issued(&self) -> (issued: i64)
        ensures
            issued == self@.issued,
    {
        self.tags.issued()
    }

    /// How many objects the current walk has shown.
    pub fn observed(&self) -> (observed: i32)
        ensures
            observed == self@.walk.observed,
    {
        self.counter.current()
    }

    /// What an entry point does when the machine loads or attaches the
    /// agent: nothing more where a negotiation was concluded, else the
    /// first request of one.
    pub fn init_agent(&self, vm: VmRef) -> (step: Negotiation)
        ensures
            step == negotiation_of(self@.cached, vm),
    {
        self.negotiator.negotiation(vm)
    }

    /// Concludes a negotiation with `outcome`, unless one was concluded
    /// before, and returns the outcome that stands from now on.
    pub fn settle(&mut self, outcome: Outcome) -> (standing: Outcome)
        ensures
            standing == settled(old(self)@.cached, outcome),
            final(self)@ == (AgentState { cached: Some(standing), ..old(self)@ }),
    {
        self.negotiator.settle(outcome)
    }

    /// Admits a request for up to `limit` instances of `class`, or for all
    /// of them where `limit` is negative: takes a fresh tag, resets the
    /// walk controller, and gives the walk to ask for, or the reason there
    /// is no environment to walk with.
    pub fn enumerate(&mut self, class: ClassRef, limit: i32) -> (first: Result<
        WalkRequest,
        AgentError,
    >)
        requires
            old(self)@.issued < i64::MAX,
        ensures
            first == admitted(old(self)@, class),
            final(self)@ == (AgentState {
                cached: old(self)@.cached,
                issued: old(self)@.issued + 1,
                walk: WalkState::reset(limit as int),
            }),
    {
        let tag: i64 = self.tags.get_tag();
        self.counter.init(limit);
        match self.negotiator.handle() {
            Ok(env) => Ok(WalkRequest { env, class, filter: heap_object_either(), tag }),
            Err(error) => Err(error),
        }
    }

    /// What the walk engine's callback does for one object: marks it with
    /// the request's tag, counts it, and only then decides whether the walk
    /// goes on.
    pub fn heap_object_callback(&mut self, tag_slot: &mut i64, tag: i64) -> (control:
        IterationControl)
        requires
            old(self)@.walk.observed < i32::MAX,
        ensures
            *final(tag_slot) == tag,
            final(self)@ == (AgentState { walk: old(self)@.walk.observe(), ..old(self)@ }),
            control == if old(self)@.walk.observe().proceeds() {
                IterationControl::Continue
            } else {
                IterationControl::Abort
            },
    {
        *tag_slot = tag;
        self.counter.count_down();
        if self.counter.allow() {
            IterationControl::Continue
        } else {
            IterationControl::Abort
        }
    }

    /// The collection to ask for, if there is an environment to ask.
    pub fn force_gc(&self) -> (request: Option<GcRequest>)
        ensures
            request == collection(self@),
    {
        match self.negotiator.cached() {
            Some(Ok(env)) => Some(GcRequest { env }),
            _ => None,
        }
    }
}

} // verus!
