//! A reference backend that records the call trace.
//!
//! [`TraceRecorder`] implements the backend capability by appending each
//! observed event to a vector — its trace is the vector itself. It performs
//! no device work, but it invokes update callbacks exactly as a real backend
//! must, so it both witnesses that the capability contract is implementable
//! and lets the execution contract be exercised end to end: run a pipeline
//! on a recorder and compare [`TraceRecorder::events`] with the pipeline's
//! predicted trace.

use vstd::prelude::*;
use crate::blending::{Equation, Factor};
use crate::pipeline::HasPipeline;
use crate::shader::UniformUpdate;
use crate::trace::{ClearColor, PipelineEvent};

verus! {

/// A backend that does nothing but record what it is asked to do.
pub struct TraceRecorder {
    /// Every event observed so far, oldest first.
    pub events: Vec<PipelineEvent>,
}

impl TraceRecorder {
    /// Creates a recorder with an empty trace.
    pub fn new() -> (r: Self)
        ensures
            r.trace() == Seq::<PipelineEvent>::empty(),
    {
        TraceRecorder { events: Vec::new() }
    }
}

impl HasPipeline for TraceRecorder {
    open spec fn trace(&self) -> Seq<PipelineEvent> {
        self.events@
    }

    fn clear_target(&mut self, target: u64, color: ClearColor) {
        self.events.push((PipelineEvent::Clear { target, color }));
    }

    fn bind_program(&mut self, program: u64) {
        self.events.push((PipelineEvent::BindProgram { program }));
    }

    fn invoke_shading_update<U: UniformUpdate>(&mut self, updater: &U, uniforms: &U::Payload) {
        updater.update(uniforms);
        self.events.push(PipelineEvent::ShadingUpdate);
    }

    fn configure_render_state(
        &mut self,
        blending: Option<(Equation, Factor, Factor)>,
        depth_test: bool,
    ) {
        self.events.push((PipelineEvent::Configure { blending, depth_test }));
    }

    fn invoke_render_update<U: UniformUpdate>(&mut self, updater: &U, uniforms: &U::Payload) {
        updater.update(uniforms);
        self.events.push(PipelineEvent::RenderUpdate);
    }

    fn draw(&mut self, tessellation: u64, instances: u32, rasterization_size: Option<u32>) {
        self.events.push(
            (PipelineEvent::Draw { tessellation, instances, rasterization_size }),
        );
    }
}

} // verus!
