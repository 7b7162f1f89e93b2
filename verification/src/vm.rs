//! What crosses the boundary to the virtual machine: the references it
//! hands out, which the agent only carries, and the numbers of its
//! interfaces that the agent's decisions depend on.

use vstd::prelude::*;

verus! {

/// The invocation interface of a virtual machine, as the machine passed it
/// to an entry point.
#[derive(Clone, Copy, Debug, PartialEq, Eq)]
pub struct VmRef(pub usize);

/// An instrumentation environment obtained from the virtual machine.
#[derive(Clone, Copy, Debug, PartialEq, Eq)]
pub struct Handle(pub usize);

/// A class, as the caller named it.
#[derive(Clone, Copy, Debug, PartialEq, Eq)]
pub struct ClassRef(pub usize);

/// An object on the machine's heap.
#[derive(Clone, Copy, Debug, PartialEq, Eq)]
pub struct ObjectRef(pub usize);

/// An object array created by the machine.
#[derive(Clone, Copy, Debug, PartialEq, Eq)]
pub struct ArrayRef(pub usize);

/// Why a request to the agent came to nothing. Each kind carries the status
/// that the machine reported, or none where the machine's interface has no
/// entry for the call.
#[derive(Clone, Copy, Debug, PartialEq, Eq)]
pub enum AgentError {
    /// The machine did not hand out an instrumentation environment.
    EnvUnavailable(Option<i32>),
    /// The machine refused the capability to tag objects.
    CapabilityDenied(u32),
    /// The heap walk was not carried out.
    WalkFailed(Option<u32>),
    /// The tagged objects could not be retrieved.
    TagLookupFailed(Option<u32>),
    /// The machine created no result array.
    ArrayAllocFailed,
}

/// The status with which the invocation interface reports success.
pub const JNI_OK: i32 = 0;

/// The status with which an entry point refuses to be loaded.
pub const JNI_ERR: i32 = -1;

/// The version of the instrumentation interface that the agent asks for.
pub const JVMTI_VERSION_1_2: i32 = 0x3001_0200;

/// The status with which the instrumentation interface reports success.
pub const JVMTI_ERROR_NONE: u32 = 0;

/// The object filter that lets a heap walk see tagged and untagged objects
/// alike.
pub const HEAP_OBJECT_EITHER: u32 = 3;

/// The answer of a heap walk callback that lets the walk go on.
pub const ITERATION_CONTINUE: u32 = 1;

/// The answer of a heap walk callback that stops the walk.
pub const ITERATION_ABORT: u32 = 0;

/// Reads `jvm_rs::jni::JNI_OK`. The bindings define it as zero.
#[verifier::external_body]
pub(crate) fn jni_ok() -> (code: i32)
    ensures
        code == JNI_OK,
{
    jvm_rs::jni::JNI_OK as i32
}

/// Reads `jvm_rs::jni::JNI_ERR`. The bindings define it as minus one.
#[verifier::external_body]
pub(crate) fn jni_err() -> (code: i32)
    ensures
        code == JNI_ERR,
{
    jvm_rs::jni::JNI_ERR
}

/// Reads `jvm_rs::jvmti::JVMTI_VERSION_1_2`. The bindings define it as
/// 805372416, which is 0x30010200.
#[verifier::external_body]
pub(crate) fn jvmti_version_1_2() -> (version: i32)
    ensures
        version == JVMTI_VERSION_1_2,
{
    jvm_rs::jvmti::JVMTI_VERSION_1_2 as i32
}

/// Reads `jvm_rs::jvmti::jvmtiHeapObjectFilter_JVMTI_HEAP_OBJECT_EITHER`.
/// The bindings define it as three.
#[verifier::external_body]
pub(crate) fn heap_object_either() -> (filter: u32)
    ensures
        filter == HEAP_OBJECT_EITHER,
{
    jvm_rs::jvmti::jvmtiHeapObjectFilter_JVMTI_HEAP_OBJECT_EITHER
}

/// Reads `jvm_rs::jvmti::jvmtiIterationControl_JVMTI_ITERATION_CONTINUE`.
/// The bindings define it as one.
#[verifier::external_body]
pub(crate) fn iteration_continue() -> (code: u32)
    ensures
        code == ITERATION_CONTINUE,
{
    jvm_rs::jvmti::jvmtiIterationControl_JVMTI_ITERATION_CONTINUE
}

/// Reads `jvm_rs::jvmti::jvmtiIterationControl_JVMTI_ITERATION_ABORT`. The
/// bindings define it as zero.
#[verifier::external_body]
pub(crate) fn iteration_abort() -> (code: u32)
    ensures
        code == ITERATION_ABORT,
{
    jvm_rs::jvmti::jvmtiIterationControl_JVMTI_ITERATION_ABORT
}

} // verus!
