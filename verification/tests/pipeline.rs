use std::cell::Cell;

use luminance::blending::{Equation, Factor};
use luminance::framebuffer::Framebuffer;
use luminance::pipeline::{EitherCommand, Pipeline, RenderCommand, ShadingCommand};
use luminance::recorder::TraceRecorder;
use luminance::shader::{Program, UniformUpdate};
use luminance::tessellation::Tessellation;
use luminance::texture::{Dim2, Flat};
use luminance::trace::{ClearColor, PipelineEvent};

/// An update callback that counts how often it was invoked.
struct CountingUpdate<'a> {
    hits: &'a Cell<u32>,
}

impl<'a> UniformUpdate for CountingUpdate<'a> {
    type Payload = u32;

    fn update(&self, _uniforms: &u32) {
        self.hits.set(self.hits.get() + 1);
    }
}

/// An update callback over an integer uniform interface that does nothing.
struct IntUpdate;

impl UniformUpdate for IntUpdate {
    type Payload = u32;

    fn update(&self, _uniforms: &u32) {}
}

/// An update callback over a text uniform interface that does nothing.
struct TextUpdate;

impl UniformUpdate for TextUpdate {
    type Payload = String;

    fn update(&self, _uniforms: &String) {}
}

fn black() -> ClearColor {
    ClearColor { r: 0, g: 0, b: 0, a: 1 }
}

#[test]
fn end_to_end_trace() {
    let tess1 = Tessellation::new(10);
    let tess2 = Tessellation::new(11);
    let program = Program::new(1, 0u32);
    let f_hits = Cell::new(0);
    let r1_hits = Cell::new(0);
    let r2_hits = Cell::new(0);
    let r1 = RenderCommand::new(
        None,
        true,
        CountingUpdate { hits: &r1_hits },
        &tess1,
        1,
        None,
    );
    let r2 = RenderCommand::new(
        Some((Equation::Additive, Factor::One, Factor::Zero)),
        false,
        CountingUpdate { hits: &r2_hits },
        &tess2,
        4,
        None,
    );
    let shading = ShadingCommand::new(&program, CountingUpdate { hits: &f_hits }, vec![r1, r2]);
    let fb = Framebuffer::new(7, Flat, Dim2, (), ());
    let pipeline = Pipeline::new(&fb, black(), vec![&shading]);
    let mut recorder = TraceRecorder::new();
    pipeline.run(&mut recorder);
    assert_eq!(
        recorder.events,
        vec![
            PipelineEvent::Clear { target: 7, color: black() },
            PipelineEvent::BindProgram { program: 1 },
            PipelineEvent::ShadingUpdate,
            PipelineEvent::Configure { blending: None, depth_test: true },
            PipelineEvent::RenderUpdate,
            PipelineEvent::Draw { tessellation: 10, instances: 1, rasterization_size: None },
            PipelineEvent::Configure {
                blending: Some((Equation::Additive, Factor::One, Factor::Zero)),
                depth_test: false,
            },
            PipelineEvent::RenderUpdate,
            PipelineEvent::Draw { tessellation: 11, instances: 4, rasterization_size: None },
        ],
    );
    assert_eq!(f_hits.get(), 1);
    assert_eq!(r1_hits.get(), 1);
    assert_eq!(r2_hits.get(), 1);
}

#[test]
fn callbacks_once_per_command_per_run() {
    let tess = Tessellation::new(3);
    let program = Program::new(9, 0u32);
    let s_hits = Cell::new(0);
    let hits: Vec<Cell<u32>> = vec![Cell::new(0), Cell::new(0), Cell::new(0)];
    let commands: Vec<RenderCommand<CountingUpdate>> = hits
        .iter()
        .map(|h| RenderCommand::new(None, false, CountingUpdate { hits: h }, &tess, 1, None))
        .collect();
    let shading = ShadingCommand::new(&program, CountingUpdate { hits: &s_hits }, commands);
    let fb = Framebuffer::new(0, Flat, Dim2, (), ());
    let pipeline = Pipeline::new(&fb, black(), vec![&shading]);
    let mut recorder = TraceRecorder::new();
    pipeline.run(&mut recorder);
    assert_eq!(s_hits.get(), 1);
    for h in &hits {
        assert_eq!(h.get(), 1);
    }
    let updates = recorder
        .events
        .iter()
        .filter(|e| matches!(e, PipelineEvent::RenderUpdate))
        .count();
    assert_eq!(updates, 3);
    let shading_updates = recorder
        .events
        .iter()
        .filter(|e| matches!(e, PipelineEvent::ShadingUpdate))
        .count();
    assert_eq!(shading_updates, 1);
    // A second run invokes every callback exactly once more.
    pipeline.run(&mut recorder);
    assert_eq!(s_hits.get(), 2);
    for h in &hits {
        assert_eq!(h.get(), 2);
    }
}

#[test]
fn blending_observed_exactly() {
    let tess = Tessellation::new(5);
    let program = Program::new(2, 0u32);
    let disabled = RenderCommand::new(None, true, IntUpdate, &tess, 1, None);
    let enabled = RenderCommand::new(
        Some((Equation::ReverseSubtract, Factor::SrcAlpha, Factor::NegativeSrcAlpha)),
        true,
        IntUpdate,
        &tess,
        1,
        None,
    );
    let shading = ShadingCommand::new(&program, IntUpdate, vec![disabled, enabled]);
    let fb = Framebuffer::new(1, Flat, Dim2, (), ());
    let pipeline = Pipeline::new(&fb, black(), vec![&shading]);
    let mut recorder = TraceRecorder::new();
    pipeline.run(&mut recorder);
    assert_eq!(
        recorder.events[3],
        PipelineEvent::Configure { blending: None, depth_test: true },
    );
    assert_eq!(
        recorder.events[6],
        PipelineEvent::Configure {
            blending: Some((
                Equation::ReverseSubtract,
                Factor::SrcAlpha,
                Factor::NegativeSrcAlpha,
            )),
            depth_test: true,
        },
    );
}

#[test]
fn zero_instances_still_configures() {
    let tess = Tessellation::new(12);
    let program = Program::new(4, 0u32);
    let hits = Cell::new(0);
    let command = RenderCommand::new(
        Some((Equation::Min, Factor::DestColor, Factor::Zero)),
        true,
        CountingUpdate { hits: &hits },
        &tess,
        0,
        Some(8),
    );
    let shading = ShadingCommand::new(&program, CountingUpdate { hits: &hits }, vec![command]);
    let fb = Framebuffer::new(2, Flat, Dim2, (), ());
    let pipeline = Pipeline::new(&fb, black(), vec![&shading]);
    let mut recorder = TraceRecorder::new();
    pipeline.run(&mut recorder);
    assert_eq!(
        recorder.events[3],
        PipelineEvent::Configure {
            blending: Some((Equation::Min, Factor::DestColor, Factor::Zero)),
            depth_test: true,
        },
    );
    assert_eq!(recorder.events[4], PipelineEvent::RenderUpdate);
    assert_eq!(
        recorder.events[5],
        PipelineEvent::Draw { tessellation: 12, instances: 0, rasterization_size: Some(8) },
    );
    assert_eq!(recorder.events.len(), 6);
}

#[test]
fn two_runs_identical_blocks() {
    let tess = Tessellation::new(21);
    let program = Program::new(6, 0u32);
    let command = RenderCommand::new(None, false, IntUpdate, &tess, 2, None);
    let shading = ShadingCommand::new(&program, IntUpdate, vec![command]);
    let fb = Framebuffer::new(3, Flat, Dim2, (), ());
    let pipeline = Pipeline::new(&fb, black(), vec![&shading]);
    let mut recorder = TraceRecorder::new();
    pipeline.run(&mut recorder);
    let first = recorder.events.clone();
    pipeline.run(&mut recorder);
    assert_eq!(recorder.events.len(), 2 * first.len());
    assert_eq!(&recorder.events[..first.len()], &first[..]);
    assert_eq!(&recorder.events[first.len()..], &first[..]);
}

#[test]
fn commands_in_order_with_duplicates() {
    let program_a = Program::new(1, 0u32);
    let program_b = Program::new(2, 0u32);
    let first = ShadingCommand::new(&program_a, IntUpdate, vec![]);
    let second = ShadingCommand::new(&program_b, IntUpdate, vec![]);
    let fb = Framebuffer::new(0, Flat, Dim2, (), ());
    // The same command may appear twice: no deduplication happens.
    let pipeline = Pipeline::new(&fb, black(), vec![&first, &second, &first]);
    let mut recorder = TraceRecorder::new();
    pipeline.run(&mut recorder);
    assert_eq!(
        recorder.events,
        vec![
            PipelineEvent::Clear { target: 0, color: black() },
            PipelineEvent::BindProgram { program: 1 },
            PipelineEvent::ShadingUpdate,
            PipelineEvent::BindProgram { program: 2 },
            PipelineEvent::ShadingUpdate,
            PipelineEvent::BindProgram { program: 1 },
            PipelineEvent::ShadingUpdate,
        ],
    );
}

#[test]
fn heterogeneous_payload_types() {
    let program_int = Program::new(31, 40u32);
    let program_text = Program::new(32, String::from("fog"));
    let int_command = ShadingCommand::new(&program_int, IntUpdate, vec![]);
    let text_command = ShadingCommand::new(&program_text, TextUpdate, vec![]);
    let first: EitherCommand<ShadingCommand<IntUpdate>, ShadingCommand<TextUpdate>> =
        EitherCommand::Left(int_command);
    let second: EitherCommand<ShadingCommand<IntUpdate>, ShadingCommand<TextUpdate>> =
        EitherCommand::Right(text_command);
    let fb = Framebuffer::new(9, Flat, Dim2, (), ());
    let pipeline = Pipeline::new(&fb, black(), vec![&first, &second]);
    let mut recorder = TraceRecorder::new();
    pipeline.run(&mut recorder);
    assert_eq!(
        recorder.events,
        vec![
            PipelineEvent::Clear { target: 9, color: black() },
            PipelineEvent::BindProgram { program: 31 },
            PipelineEvent::ShadingUpdate,
            PipelineEvent::BindProgram { program: 32 },
            PipelineEvent::ShadingUpdate,
        ],
    );
}

#[test]
fn constructors_keep_fields() {
    let tess = Tessellation::new(77);
    let program = Program::new(5, 123u32);
    assert_eq!(tess.handle, 77);
    assert_eq!(program.handle, 5);
    assert_eq!(program.uniform_interface, 123);
    let command = RenderCommand::new(
        Some((Equation::Max, Factor::SrcAlphaSaturate, Factor::DstAlpha)),
        true,
        IntUpdate,
        &tess,
        6,
        Some(2),
    );
    assert_eq!(
        command.blending,
        Some((Equation::Max, Factor::SrcAlphaSaturate, Factor::DstAlpha)),
    );
    assert!(command.depth_test);
    assert_eq!(command.tessellation.handle, 77);
    assert_eq!(command.instances, 6);
    assert_eq!(command.rasterization_size, Some(2));
    let shading = ShadingCommand::new(&program, IntUpdate, vec![command]);
    assert_eq!(shading.program.handle, 5);
    assert_eq!(shading.render_commands.len(), 1);
    let fb = Framebuffer::new(8, Flat, Dim2, (), ());
    let color = ClearColor { r: 1, g: 2, b: 3, a: 4 };
    let pipeline = Pipeline::new(&fb, color, vec![&shading]);
    assert_eq!(pipeline.framebuffer.handle, 8);
    assert_eq!(pipeline.clear_color, color);
    assert_eq!(pipeline.shading_commands.len(), 1);
}
