//! The capability negotiator: obtains the instrumentation environment and
//! the capability to tag objects, once, and keeps what came of it.

use once_cell::sync::OnceCell;
use vstd::prelude::*;

use crate::vm::{jni_ok, jvmti_version_1_2, AgentError, Handle, VmRef};
use crate::vm::{JNI_OK, JVMTI_ERROR_NONE, JVMTI_VERSION_1_2};

verus! {

/// What a negotiation came to: the environment, with the capability
/// granted, or the reason there is none.
pub type Outcome = Result<Handle, AgentError>;

/// `once_cell::sync::OnceCell`, of which nothing is known but what
/// `cell_contents` says it holds.
#[verifier::external_type_specification]
#[verifier::external_body]
#[verifier::reject_recursive_types(T)]
pub struct ExOnceCell<T>(OnceCell<T>);

/// What a cell holds: nothing, or the one value it was initialized with.
pub uninterp spec fn cell_contents(cell: OnceCell<Result<Handle, AgentError>>) -> Option<
    Result<Handle, AgentError>,
>;

/// `OnceCell::new`: a cell that holds nothing.
#[verifier::external_body]
fn cell_new() -> (cell: OnceCell<Outcome>)
    ensures
        cell_contents(cell) is None,
{
    OnceCell::new()
}

/// `OnceCell::get`: a copy of what the cell holds.
#[verifier::external_body]
fn cell_get(cell: &OnceCell<Outcome>) -> (contents: Option<Outcome>)
    ensures
        contents == cell_contents(*cell),
{
    cell.get().copied()
}

/// `OnceCell::get_or_init`, with an initializer that yields `value`: an
/// empty cell takes `value`, a full one keeps what it has, and either way
/// the call returns what the cell holds afterwards. The cell is taken by
/// exclusive reference so that no other holder sees it change.
#[verifier::external_body]
fn cell_get_or_init(cell: &mut OnceCell<Outcome>, value: Outcome) -> (held: Outcome)
    ensures
        cell_contents(*final(cell)) == Some(held),
        held == match cell_contents(*old(cell)) {
            Some(earlier) => earlier,
            None => value,
        },
{
    *cell.get_or_init(|| value)
}

/// The request to the machine's invocation interface for an
/// instrumentation environment.
#[derive(Clone, Copy, Debug, PartialEq, Eq)]
pub struct EnvRequest {
    /// The machine to ask.
    pub vm: VmRef,
    /// The interface version to ask for.
    pub version: i32,
}

/// The machine's answer to an `EnvRequest`.
#[derive(Clone, Copy, Debug, PartialEq, Eq)]
pub struct EnvReply {
    /// The status that the call returned.
    pub status: i32,
    /// The environment that the call stored.
    pub env: Handle,
}

/// The request to an instrumentation environment for capabilities.
#[derive(Clone, Copy, Debug, PartialEq, Eq)]
pub struct CapabilityRequest {
    /// The environment to ask.
    pub env: Handle,
    /// Whether the capability to tag objects is asked for.
    pub can_tag_objects: bool,
}

/// Where a negotiation stands when an entry point asks for it.
#[derive(Clone, Copy, Debug, PartialEq, Eq)]
pub enum Negotiation {
    /// It was concluded earlier, with this outcome.
    Settled(Outcome),
    /// It has to be made, and starts with this request.
    GetEnv(EnvRequest),
}

impl EnvRequest {
    /// What follows from the machine's answer: `None` where the invocation
    /// interface has no entry for the call.
    pub fn answered(self, reply: Option<EnvReply>) -> (next: Result<CapabilityRequest, AgentError>)
        ensures
            next == match reply {
                Some(reply) if reply.status == JNI_OK => Ok(
                    CapabilityRequest { env: reply.env, can_tag_objects: true },
                ),
                Some(reply) => Err(AgentError::EnvUnavailable(Some(reply.status))),
                None => Err(AgentError::EnvUnavailable(None)),
            },
    {
        match reply {
            Some(reply) => {
                if reply.status == jni_ok() {
                    Ok(CapabilityRequest { env: reply.env, can_tag_objects: true })
                } else {
                    Err(AgentError::EnvUnavailable(Some(reply.status)))
                }
            },
            None => Err(AgentError::EnvUnavailable(None)),
        }
    }
}

impl CapabilityRequest {
    /// What the negotiation comes to with the environment's answer: `None`
    /// where the environment has no entry for the call.
    pub fn answered(self, status: Option<u32>) -> (outcome: Outcome)
        ensures
            outcome == match status {
                Some(status) if status == JVMTI_ERROR_NONE => Ok(self.env),
                Some(status) => Err(AgentError::CapabilityDenied(status)),
                None => Err(AgentError::EnvUnavailable(None)),
            },
    {
        match status {
            Some(status) => {
                if status == JVMTI_ERROR_NONE {
                    Ok(self.env)
                } else {
                    Err(AgentError::CapabilityDenied(status))
                }
            },
            None => Err(AgentError::EnvUnavailable(None)),
        }
    }
}

/// The negotiator: a cell that is written at most once.
pub struct Negotiator {
    cell: OnceCell<Outcome>,
}

impl View for Negotiator {
    type V = Option<Outcome>;

    closed spec fn view(&self) -> Option<Outcome> {
        cell_contents(self.cell)
    }
}

/// Where a negotiation stands for a negotiator that holds `cached`.
pub open spec fn negotiation_of(cached: Option<Outcome>, vm: VmRef) -> Negotiation {
    match cached {
        Some(outcome) => Negotiation::Settled(outcome),
        None => Negotiation::GetEnv(EnvRequest { vm, version: JVMTI_VERSION_1_2 }),
    }
}

/// The outcome that stands once `outcome` is offered to a negotiator that
/// holds `cached`: the first one offered.
pub open spec fn settled(cached: Option<Outcome>, outcome: Outcome) -> Outcome {
    match cached {
        Some(earlier) => earlier,
        None => outcome,
    }
}

/// The environment that a negotiator holding `cached` can offer.
pub open spec fn handle_of(cached: Option<Outcome>) -> Outcome {
    match cached {
        Some(outcome) => outcome,
        None => Err(AgentError::EnvUnavailable(None)),
    }
}

impl Negotiator {
    /// A negotiator that has concluded nothing.
    pub fn new() -> (negotiator: Negotiator)
        ensures
            negotiator@ is None,
    {
        Negotiator { cell: cell_new() }
    }

    /// The outcome that was concluded, if any.
    pub fn cached(&self) -> (cached: Option<Outcome>)
        ensures
            cached == self@,
    {
        cell_get(&self.cell)
    }

    /// Where the negotiation with `vm` stands: concluded, or still to be
    /// made. Nothing is asked of the machine once an outcome is held.
    pub fn negotiation(&self, vm: VmRef) -> (step: Negotiation)
        ensures
            step == negotiation_of(self@, vm),
    {
        match cell_get(&self.cell) {
            Some(outcome) => Negotiation::Settled(outcome),
            None => Negotiation::GetEnv(EnvRequest { vm, version: jvmti_version_1_2() }),
        }
    }

    /// Concludes a negotiation with `outcome`, unless one was concluded
    /// before, and returns the outcome that stands.
    pub fn settle(&mut self, outcome: Outcome) -> (standing: Outcome)
        ensures
            standing == settled(old(self)@, outcome),
            final(self)@ == Some(standing),
    {
        cell_get_or_init(&mut self.cell, outcome)
    }

    /// The environment to work with, or the reason there is none.
    pub fn handle(&self) -> (handle: Outcome)
        ensures
            handle == handle_of(self@),
    {
        match cell_get(&self.cell) {
            Some(outcome) => outcome,
            None => Err(AgentError::EnvUnavailable(None)),
        }
    }
}

/// Negotiation is idempotent: once an outcome stands, asking again yields
/// that outcome with no request to the machine, and an outcome offered
/// later neither replaces it nor is returned.
pub proof fn law_negotiation_idempotent(
    cached: Option<Outcome>,
    first: Outcome,
    second: Outcome,
    vm: VmRef,
)
    ensures
        negotiation_of(Some(settled(cached, first)), vm) == Negotiation::Settled(
            settled(cached, first),
        ),
        settled(Some(settled(cached, first)), second) == settled(cached, first),
        handle_of(Some(settled(cached, first))) == settled(cached, first),
{
}

} // verus!
