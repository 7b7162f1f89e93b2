//! The steps of one enumeration request after it has been admitted: the
//! heap walk, the lookup of what the walk tagged, and the result array.
//! Each step is a request to the machine; the machine's answer to it gives
//! the next step or the reason the request is abandoned.

use vstd::prelude::*;

use crate::controller::WalkState;
use crate::vm::{iteration_abort, iteration_continue};
use crate::vm::{AgentError, ArrayRef, ClassRef, Handle, ObjectRef};
use crate::vm::{ITERATION_ABORT, ITERATION_CONTINUE, JVMTI_ERROR_NONE};

verus! {

/// What the heap walk callback tells the walk engine.
#[derive(Clone, Copy, Debug, PartialEq, Eq)]
pub enum IterationControl {
    /// Show the next object.
    Continue,
    /// Stop the walk.
    Abort,
}

impl IterationControl {
    /// The number that stands for this answer in the instrumentation
    /// interface.
    pub open spec fn spec_code(self) -> u32 {
        match self {
            IterationControl::Continue => ITERATION_CONTINUE,
            IterationControl::Abort => ITERATION_ABORT,
        }
    }

    /// The number to return to the walk engine.
    pub fn code(self) -> (code: u32)
        ensures
            code == self.spec_code(),
    {
        match self {
            IterationControl::Continue => iteration_continue(),
            IterationControl::Abort => iteration_abort(),
        }
    }
}

/// The request for a walk over the instances of `class` that the `filter`
/// admits, in which the callback marks every object shown with `tag`.
#[derive(Clone, Copy, Debug, PartialEq, Eq)]
pub struct WalkRequest {
    pub env: Handle,
    pub class: ClassRef,
    pub filter: u32,
    pub tag: i64,
}

/// The request for every object that carries `tag`.
#[derive(Clone, Copy, Debug, PartialEq, Eq)]
pub struct LookupRequest {
    pub env: Handle,
    pub class: ClassRef,
    pub tag: i64,
}

/// The request for an array of `class` with room for `elements`.
#[derive(Debug, PartialEq, Eq)]
pub struct ArrayRequest {
    pub class: ClassRef,
    pub elements: Vec<ObjectRef>,
}

/// The result of an enumeration: `array`, once `elements[i]` has been
/// stored at each index `i` of it.
#[derive(Debug, PartialEq, Eq)]
pub struct ArrayFill {
    pub array: ArrayRef,
    pub elements: Vec<ObjectRef>,
}

/// The request for a full garbage collection.
#[derive(Clone, Copy, Debug, PartialEq, Eq)]
pub struct GcRequest {
    pub env: Handle,
}

/// The order in which the objects that a lookup retrieved go into the
/// result array: last retrieved, first stored.
pub open spec fn array_layout(objects: Seq<ObjectRef>) -> Seq<ObjectRef> {
    objects.reverse()
}

/// The result array holds each retrieved object as often as the lookup
/// retrieved it, and nothing else: it has no object twice unless the lookup
/// retrieved one twice.
pub proof fn law_layout_keeps_objects(objects: Seq<ObjectRef>)
    ensures
        array_layout(objects).len() == objects.len(),
        array_layout(objects).to_multiset() == objects.to_multiset(),
        forall|object: ObjectRef|
            array_layout(objects).contains(object) <==> objects.contains(object),
        objects.no_duplicates() ==> array_layout(objects).no_duplicates(),
{
    let layout = array_layout(objects);
    objects.lemma_reverse_to_multiset();
    assert forall|object: ObjectRef| layout.contains(object) <==> objects.contains(
        object,
    ) by {
        if layout.contains(object) {
            let i = choose|i: int| 0 <= i < layout.len() && layout[i] == object;
            assert(objects[objects.len() - 1 - i] == object);
        }
        if objects.contains(object) {
            let i = choose|i: int| 0 <= i < objects.len() && objects[i] == object;
            assert(layout[objects.len() - 1 - i] == object);
        }
    }
}

/// When the lookup retrieves exactly the objects that the walk tagged, a
/// request with a limit of at least one, or with a limit of zero on a heap
/// without a matching object, yields an array whose length is the smaller
/// of the limit and the number of matching objects.
pub proof fn law_bounded_result(limit: int, matching: nat, objects: Seq<ObjectRef>)
    requires
        limit >= 1 || (limit == 0 && matching == 0),
        objects.len() == WalkState::reset(limit).walk(matching).observed,
    ensures
        array_layout(objects).len() == if matching <= limit {
            matching as int
        } else {
            limit
        },
{
    crate::controller::law_bounded_walk(limit, matching);
}

/// When the lookup retrieves exactly the objects that the walk tagged, a
/// request without a limit yields an array with one element for every
/// matching object.
pub proof fn law_unbounded_result(limit: int, matching: nat, objects: Seq<ObjectRef>)
    requires
        limit < 0,
        objects.len() == WalkState::reset(limit).walk(matching).observed,
    ensures
        array_layout(objects).len() == matching,
{
    crate::controller::law_unbounded_walk(limit, matching);
}

/// Lays the retrieved objects out for the result array.
pub fn array_order(objects: Vec<ObjectRef>) -> (elements: Vec<ObjectRef>)
    ensures
        elements@ == array_layout(objects@),
{
    let ghost retrieved = objects@;
    let mut rest = objects;
    let mut elements: Vec<ObjectRef> = Vec::new();
    while rest.len() > 0
        invariant
            rest@ == retrieved.take(rest@.len() as int),
            rest@.len() + elements@.len() == retrieved.len(),
            forall|i: int|
                0 <= i < elements@.len() ==> elements@[i] == retrieved[retrieved.len() - 1 - i],
        decreases rest@.len(),
    {
        match rest.pop() {
            Some(object) => elements.push(object),
            None => {},
        }
    }
    elements
}

/// Whether a call into the environment was made and reported success.
fn carried_out(status: Option<u32>) -> (yes: bool)
    ensures
        yes == (status == Some(JVMTI_ERROR_NONE)),
{
    match status {
        Some(code) => code == JVMTI_ERROR_NONE,
        None => false,
    }
}

impl WalkRequest {
    /// What follows from the status of the walk; `None` where the
    /// environment has no entry for the call. Only a walk that the machine
    /// reports as carried out is followed by a lookup: after any other, the
    /// request is abandoned with nothing to return.
    pub fn answered(self, status: Option<u32>) -> (next: Result<LookupRequest, AgentError>)
        ensures
            next == if status == Some(JVMTI_ERROR_NONE) {
                Ok(LookupRequest { env: self.env, class: self.class, tag: self.tag })
            } else {
                Err(AgentError::WalkFailed(status))
            },
    {
        if carried_out(status) {
            Ok(LookupRequest { env: self.env, class: self.class, tag: self.tag })
        } else {
            Err(AgentError::WalkFailed(status))
        }
    }
}

impl LookupRequest {
    /// What follows from the status of the lookup and the objects it
    /// retrieved; `None` where the environment has no entry for the call.
    pub fn answered(self, status: Option<u32>, objects: Vec<ObjectRef>) -> (next: Result<
        ArrayRequest,
        AgentError,
    >)
        ensures
            match next {
                Ok(request) => status == Some(JVMTI_ERROR_NONE) && request.class == self.class
                    && request.elements@ == array_layout(objects@),
                Err(error) => status != Some(JVMTI_ERROR_NONE) && error
                    == AgentError::TagLookupFailed(status),
            },
    {
        if carried_out(status) {
            Ok(ArrayRequest { class: self.class, elements: array_order(objects) })
        } else {
            Err(AgentError::TagLookupFailed(status))
        }
    }
}

impl ArrayRequest {
    /// What follows from the array that the machine created, or from its
    /// creating none: the array is filled whole or not handed out at all.
    pub fn answered(self, array: Option<ArrayRef>) -> (next: Result<ArrayFill, AgentError>)
        ensures
            match next {
                Ok(fill) => array == Some(fill.array) && fill.elements@ == self.elements@,
                Err(error) => array is None && error == AgentError::ArrayAllocFailed,
            },
    {
        match array {
            Some(array) => Ok(ArrayFill { array, elements: self.elements }),
            None => Err(AgentError::ArrayAllocFailed),
        }
    }
}

} // verus!
