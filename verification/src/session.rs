//! The stage machine of one render call.
//!
//! A render is strictly linear and single-shot: adapter, device, pipeline,
//! submission, readback, in that order, with no retry and no partial
//! result. The unverified shell that owns the GPU handles performs one
//! outside action at a time, reports what happened as an [`Event`], and is
//! told by [`step`] what the call does next. Every decision — which stage
//! follows which, and which error each failure turns into — is fixed here.

use vstd::prelude::*;

use crate::error::DeviceFaultKind;
use crate::error::RenderError;
use crate::error::fault_error;

verus! {

/// Where a render call stands between two outside actions.
#[derive(Clone, Copy, Debug, PartialEq, Eq, Structural)]
pub enum Phase {
    /// Nothing negotiated yet; an adapter is being requested.
    Start,
    /// An adapter was granted; the logical device is requested next.
    AdapterReady,
    /// A device and queue were granted; the pipeline and resources are built next.
    DeviceReady,
    /// Pipeline, output image and staging buffer exist; the work is submitted next.
    PipelineReady,
    /// The command list was submitted; the readback mapping is awaited.
    Submitted,
    /// The pixel buffer was handed to the caller; the call is over.
    Finished,
    /// The call aborted with the error it carries; no pixel buffer exists.
    Failed(RenderError),
}

/// What the outside action just performed reported back.
#[derive(Clone, Copy, Debug, PartialEq, Eq, Structural)]
pub enum Event {
    /// An adapter was found.
    AdapterGranted,
    /// No compatible adapter exists.
    AdapterDenied,
    /// The adapter granted the device and queue.
    DeviceGranted,
    /// The adapter refused the device request.
    DeviceDenied,
    /// The shader compiled and the pipeline and resources were built.
    PipelineBuilt,
    /// The shader failed to compile or bind.
    ShaderRejected,
    /// The dispatch and copy were recorded and submitted to the queue.
    WorkSubmitted,
    /// The device finished all submitted work and the mapping is readable.
    MapSucceeded,
    /// The device was lost while waiting for the mapping.
    MapFailed,
    /// The device reported a fault through its error callback.
    FaultRaised(DeviceFaultKind),
}

/// What the unverified shell must do next.
#[derive(Clone, Copy, Debug, PartialEq, Eq, Structural)]
pub enum StepAction {
    /// Request the logical device and queue from the granted adapter.
    RequestDevice,
    /// Compile the shader; build the pipeline, the output image and the staging buffer.
    BuildPipeline,
    /// Record the compute pass and the image-to-buffer copy; submit once.
    SubmitWork,
    /// Request the staging mapping and block until the device confirms it.
    AwaitReadback,
    /// Read the mapped bytes and repack them into the tight pixel buffer.
    DeliverPixels,
    /// Release every device-side resource and return the error.
    Abort(RenderError),
}

/// The events each phase can see. A granted stage reports its own outcome;
/// any phase that holds a live device can see a fault from the error
/// callback; a failed call absorbs whatever still arrives.
pub open spec fn event_permitted(phase: Phase, event: Event) -> bool {
    match phase {
        Phase::Start => event is AdapterGranted || event is AdapterDenied,
        Phase::AdapterReady => event is DeviceGranted || event is DeviceDenied,
        Phase::DeviceReady => event is PipelineBuilt || event is ShaderRejected
            || event is FaultRaised,
        Phase::PipelineReady => event is WorkSubmitted || event is FaultRaised,
        Phase::Submitted => event is MapSucceeded || event is MapFailed || event is FaultRaised,
        Phase::Finished => false,
        Phase::Failed(_) => true,
    }
}

/// The full transition table: the phase and action that follow a permitted
/// event.
pub open spec fn spec_step(phase: Phase, event: Event) -> (Phase, StepAction) {
    match phase {
        Phase::Failed(e) => (Phase::Failed(e), StepAction::Abort(e)),
        _ => match event {
            Event::AdapterGranted => (Phase::AdapterReady, StepAction::RequestDevice),
            Event::AdapterDenied => (
                Phase::Failed(RenderError::NoAdapter),
                StepAction::Abort(RenderError::NoAdapter),
            ),
            Event::DeviceGranted => (Phase::DeviceReady, StepAction::BuildPipeline),
            Event::DeviceDenied => (
                Phase::Failed(RenderError::NoDevice),
                StepAction::Abort(RenderError::NoDevice),
            ),
            Event::PipelineBuilt => (Phase::PipelineReady, StepAction::SubmitWork),
            Event::ShaderRejected => (
                Phase::Failed(RenderError::ShaderCompilation),
                StepAction::Abort(RenderError::ShaderCompilation),
            ),
            Event::WorkSubmitted => (Phase::Submitted, StepAction::AwaitReadback),
            Event::MapSucceeded => (Phase::Finished, StepAction::DeliverPixels),
            Event::MapFailed => (
                Phase::Failed(RenderError::DeviceLost),
                StepAction::Abort(RenderError::DeviceLost),
            ),
            Event::FaultRaised(k) => (
                Phase::Failed(fault_error(k)),
                StepAction::Abort(fault_error(k)),
            ),
        },
    }
}

/// Performs one step of the render: takes what the last outside action
/// reported and decides the next phase and the next action.
pub fn step(phase: Phase, event: Event) -> (r: (Phase, StepAction))
    requires
        event_permitted(phase, event),
    ensures
        r == spec_step(phase, event),
{
    match phase {
        Phase::Failed(e) => (Phase::Failed(e), StepAction::Abort(e)),
        _ => match event {
            Event::AdapterGranted => (Phase::AdapterReady, StepAction::RequestDevice),
            Event::AdapterDenied => (
                Phase::Failed(RenderError::NoAdapter),
                StepAction::Abort(RenderError::NoAdapter),
            ),
            Event::DeviceGranted => (Phase::DeviceReady, StepAction::BuildPipeline),
            Event::DeviceDenied => (
                Phase::Failed(RenderError::NoDevice),
                StepAction::Abort(RenderError::NoDevice),
            ),
            Event::PipelineBuilt => (Phase::PipelineReady, StepAction::SubmitWork),
            Event::ShaderRejected => (
                Phase::Failed(RenderError::ShaderCompilation),
                StepAction::Abort(RenderError::ShaderCompilation),
            ),
            Event::WorkSubmitted => (Phase::Submitted, StepAction::AwaitReadback),
            Event::MapSucceeded => (Phase::Finished, StepAction::DeliverPixels),
            Event::MapFailed => (
                Phase::Failed(RenderError::DeviceLost),
                StepAction::Abort(RenderError::DeviceLost),
            ),
            Event::FaultRaised(k) => {
                let e = crate::error::classify_fault(k);
                (Phase::Failed(e), StepAction::Abort(e))
            },
        },
    }
}

/// A pixel buffer is delivered on exactly one path: the readback
/// confirmation of a submitted command list. Every other permitted step —
/// in particular every step out of a failed negotiation — does something
/// else, so an aborted call never produces a buffer.
pub proof fn lemma_pixels_only_after_readback(phase: Phase, event: Event)
    requires
        event_permitted(phase, event),
    ensures
        (spec_step(phase, event).1 is DeliverPixels) <==> (phase is Submitted
            && event is MapSucceeded),
{
}

/// Failure is terminal: a failed call keeps its error through every later
/// event and always demands teardown, never another stage.
pub proof fn lemma_failure_is_terminal(e: RenderError, event: Event)
    ensures
        spec_step(Phase::Failed(e), event).0 == Phase::Failed(e),
        spec_step(Phase::Failed(e), event).1 == StepAction::Abort(e),
{
}

} // verus!
