//! Dynamic rendering pipelines.
//!
//! A [`Pipeline`] clears a borrowed render target and then executes an
//! ordered sequence of shading commands; each [`ShadingCommand`] binds a
//! shader program, invokes its update callback once, and executes an ordered
//! sequence of [`RenderCommand`]s; each render command configures per-draw
//! state, invokes its own update callback once, and issues one instanced
//! draw.
//!
//! The execution contract is stated over the backend's observable trace: the
//! run functions guarantee that executing a pipeline appends exactly
//! [`Pipeline::trace`] — a sequence computed from the pipeline alone — to
//! whatever the backend has already observed. Ordering, single invocation of
//! each callback and clear-then-draw all follow from that one equation and
//! are also stated separately as laws at the end of this module.

use vstd::prelude::*;
use crate::blending::{Equation, Factor};
use crate::framebuffer::{ColorSlot, DepthSlot, Framebuffer};
use crate::shader::{Program, UniformUpdate};
use crate::tessellation::Tessellation;
use crate::texture::{Dimensionable, Layerable};
use crate::trace::{
    clear_count,
    lemma_counts_distribute,
    lemma_counts_empty,
    lemma_counts_singleton,
    render_update_count,
    shading_update_count,
    ClearColor,
    PipelineEvent,
};

verus! {

/// The capability a rendering backend must provide to host pipelines.
///
/// Each method is one primitive operation on the device; its contract states
/// that the backend observes exactly the corresponding [`PipelineEvent`],
/// appended to its trace, and nothing else. The verified run functions of
/// this module drive these primitives in the order the execution contract
/// demands, so any backend implementing this trait executes pipelines
/// identically. Allocation of targets, programs, tessellations and textures
/// is the backend's own business and happens outside these entry points.
pub trait HasPipeline: Sized {
    /// The ordered sequence of operations this backend has observed.
    spec fn trace(&self) -> Seq<PipelineEvent>;

    /// Activates the render target named by `target` and clears its color
    /// storage with `color`.
    fn clear_target(&mut self, target: u64, color: ClearColor)
        ensures
            final(self).trace() == old(self).trace().push(
                (PipelineEvent::Clear { target, color }),
            ),
    ;

    /// Binds the shader program named by `program`.
    fn bind_program(&mut self, program: u64)
        ensures
            final(self).trace() == old(self).trace().push(
                (PipelineEvent::BindProgram { program }),
            ),
    ;

    /// Invokes a shading command's update callback, passing it the bound
    /// program's uniform interface.
    fn invoke_shading_update<U: UniformUpdate>(&mut self, updater: &U, uniforms: &U::Payload)
        ensures
            final(self).trace() == old(self).trace().push(PipelineEvent::ShadingUpdate),
    ;

    /// Configures per-draw state: enables blending with the given formula
    /// when `blending` is `Some`, disables it when `None`, and sets the
    /// depth-test flag.
    fn configure_render_state(
        &mut self,
        blending: Option<(Equation, Factor, Factor)>,
        depth_test: bool,
    )
        ensures
            final(self).trace() == old(self).trace().push(
                (PipelineEvent::Configure { blending, depth_test }),
            ),
    ;

    /// Invokes a render command's update callback, passing it the bound
    /// program's uniform interface.
    fn invoke_render_update<U: UniformUpdate>(&mut self, updater: &U, uniforms: &U::Payload)
        ensures
            final(self).trace() == old(self).trace().push(PipelineEvent::RenderUpdate),
    ;

    /// Issues one draw of the tessellation named by `tessellation`, with the
    /// given instance count and optional rasterization-size override.
    fn draw(&mut self, tessellation: u64, instances: u32, rasterization_size: Option<u32>)
        ensures
            final(self).trace() == old(self).trace().push(
                (PipelineEvent::Draw { tessellation, instances, rasterization_size }),
            ),
    ;
}

/// A type-erased shading command: the single capability a [`Pipeline`]
/// needs from its entries, "run yourself on this backend".
///
/// The erasure lets one pipeline hold shading commands whose uniform-payload
/// types differ from one entry to the next: each implementor fixes its own
/// payload type, while the pipeline sees only this trait. [`EitherCommand`]
/// joins two implementors into one, so a heterogeneous ordered sequence can
/// be built as a nested tagged union.
pub trait SomeShadingCommand {
    /// The events running this command contributes to a backend's trace.
    spec fn erased_trace(&self) -> Seq<PipelineEvent>;

    /// Executes this command: exactly the events of [`Self::erased_trace`]
    /// are appended to the backend's trace, in order.
    fn run_shading_command<C: HasPipeline>(&self, backend: &mut C)
        ensures
            final(backend).trace() == old(backend).trace() + self.erased_trace(),
    ;
}

/// A render command: how one tessellation is rasterized.
///
/// A render command is pure data; it acts only when the shading command
/// holding it is executed.
pub struct RenderCommand<'a, U> where U: UniformUpdate {
    /// The blending formula: `None` disables blending for this draw,
    /// `Some((equation, source, destination))` enables it with exactly that
    /// formula.
    pub blending: Option<(Equation, Factor, Factor)>,
    /// Whether a depth test is performed for this draw.
    pub depth_test: bool,
    /// The update callback, invoked exactly once per execution of this
    /// command, before its draw is issued.
    pub update: U,
    /// The geometry to draw.
    pub tessellation: &'a Tessellation,
    /// How many instances of the geometry to submit. Zero is legal: state is
    /// still configured and the draw event still carries the count.
    pub instances: u32,
    /// The rasterization size for point and line primitives; `None` keeps
    /// the backend's default. The value's encoding is the backend's
    /// business.
    pub rasterization_size: Option<u32>,
}

impl<'a, U> RenderCommand<'a, U> where U: UniformUpdate {
    /// The three events executing this command contributes, in order:
    /// configure state, invoke the update callback, issue the draw.
    pub open spec fn trace(&self) -> Seq<PipelineEvent> {
        seq![
            PipelineEvent::Configure { blending: self.blending, depth_test: self.depth_test },
            PipelineEvent::RenderUpdate,
            PipelineEvent::Draw {
                tessellation: self.tessellation.handle,
                instances: self.instances,
                rasterization_size: self.rasterization_size,
            },
        ]
    }

    /// Creates a new render command. No field is validated or altered: zero
    /// `instances` is accepted and simply yields a state-configuration-only
    /// step when executed.
    pub fn new(
        blending: Option<(Equation, Factor, Factor)>,
        depth_test: bool,
        update: U,
        tessellation: &'a Tessellation,
        instances: u32,
        rasterization_size: Option<u32>,
    ) -> (cmd: Self)
        ensures
            cmd.blending == blending,
            cmd.depth_test == depth_test,
            cmd.update == update,
            cmd.tessellation == tessellation,
            cmd.instances == instances,
            cmd.rasterization_size == rasterization_size,
    {
        RenderCommand {
            blending,
            depth_test,
            update,
            tessellation,
            instances,
            rasterization_size,
        }
    }

    /// Executes this command on a backend: configures blend and depth state,
    /// invokes the update callback once with the bound program's uniform
    /// interface, then issues the draw.
    pub fn run<C: HasPipeline>(&self, backend: &mut C, uniforms: &U::Payload)
        ensures
            final(backend).trace() == old(backend).trace() + self.trace(),
    {
        backend.configure_render_state(self.blending, self.depth_test);
        backend.invoke_render_update(&self.update, uniforms);
        backend.draw(self.tessellation.handle, self.instances, self.rasterization_size);
        proof {
            assert(backend.trace() =~= old(backend).trace() + self.trace());
        }
    }
}

/// The events of a sequence of render commands, concatenated in order.
pub open spec fn render_traces<'a, U: UniformUpdate>(cmds: Seq<RenderCommand<'a, U>>) -> Seq<
    PipelineEvent,
>
    decreases cmds.len(),
{
    if cmds.len() == 0 {
        Seq::empty()
    } else {
        render_traces(cmds.drop_last()) + cmds.last().trace()
    }
}

/// A shading command: an ordered sequence of render commands gathered under
/// one shader program, with a one-shot update callback of its own.
pub struct ShadingCommand<'a, U> where U: UniformUpdate {
    /// The program bound for the whole command.
    pub program: &'a Program<U::Payload>,
    /// The update callback, invoked exactly once per execution of this
    /// command, after the program is bound and before any render command
    /// runs.
    pub update: U,
    /// The render commands executed under the bound program, in order.
    pub render_commands: Vec<RenderCommand<'a, U>>,
}

impl<'a, U> ShadingCommand<'a, U> where U: UniformUpdate {
    /// The events executing this command contributes, in order: bind the
    /// program, invoke the update callback, then every render command's
    /// events in insertion order.
    pub open spec fn trace(&self) -> Seq<PipelineEvent> {
        seq![
            PipelineEvent::BindProgram { program: self.program.handle },
            PipelineEvent::ShadingUpdate,
        ] + render_traces(self.render_commands@)
    }

    /// Where the events of the `i`-th render command start inside
    /// [`ShadingCommand::trace`]: right after the bind, the shading
    /// command's own update, and the blocks of every earlier render command.
    pub open spec fn render_offset(&self, i: int) -> int {
        2 + render_traces(self.render_commands@.take(i)).len() as int
    }

    /// Creates a new shading command. The callback is captured here and
    /// invoked once per execution, not at construction.
    pub fn new(
        program: &'a Program<U::Payload>,
        update: U,
        render_commands: Vec<RenderCommand<'a, U>>,
    ) -> (cmd: Self)
        ensures
            cmd.program == program,
            cmd.update == update,
            cmd.render_commands == render_commands,
    {
        ShadingCommand { program, update, render_commands }
    }
}

impl<'a, U> SomeShadingCommand for ShadingCommand<'a, U> where U: UniformUpdate {
    open spec fn erased_trace(&self) -> Seq<PipelineEvent> {
        self.trace()
    }

    fn run_shading_command<C: HasPipeline>(&self, backend: &mut C) {
        backend.bind_program(self.program.handle);
        backend.invoke_shading_update(&self.update, &self.program.uniform_interface);
        let ghost head: Seq<PipelineEvent> = backend.trace();
        proof {
            assert(head + render_traces(self.render_commands@.take(0)) =~= head);
        }
        let n = self.render_commands.len();
        let mut i: usize = 0;
        while i < n
            invariant
                n == self.render_commands.len(),
                i <= n,
                backend.trace() == head + render_traces(self.render_commands@.take(i as int)),
            decreases n - i,
        {
            self.render_commands[i].run(backend, &self.program.uniform_interface);
            proof {
                lemma_render_traces_step(self.render_commands@, i as int);
            }
            i += 1;
        }
        proof {
            assert(self.render_commands@.take(n as int) =~= self.render_commands@);
            assert(final(backend).trace() =~= old(backend).trace() + self.erased_trace());
        }
    }
}

/// Taking one more render command extends the concatenated trace by exactly
/// that command's events: render commands execute in insertion order.
pub proof fn lemma_render_traces_step<'a, U: UniformUpdate>(
    cmds: Seq<RenderCommand<'a, U>>,
    i: int,
)
    requires
        0 <= i < cmds.len(),
    ensures
        render_traces(cmds.take(i + 1)) == render_traces(cmds.take(i)) + cmds[i].trace(),
{
    assert(cmds.take(i + 1).drop_last() =~= cmds.take(i));
    assert(cmds.take(i + 1).last() == cmds[i]);
}

/// A dynamic rendering pipeline: a borrowed render target, a clear color,
/// and an ordered sequence of borrowed, type-erased shading commands.
///
/// `L`, `D`, `CS` and `DS` describe the shape of the render target; the
/// pipeline is agnostic to them. `S` is the erased shading-command handle:
/// any implementor of [`SomeShadingCommand`], for instance a nested
/// [`EitherCommand`] over shading commands of differing payload types.
/// Insertion order is execution order; duplicates are allowed.
pub struct Pipeline<'a, L, D, CS, DS, S> where
    L: Layerable,
    D: Dimensionable,
    CS: ColorSlot,
    DS: DepthSlot,
    S: SomeShadingCommand,
 {
    /// The render target this pipeline clears and draws into.
    pub framebuffer: &'a Framebuffer<L, D, CS, DS>,
    /// The color the target is cleared with at the start of every run.
    pub clear_color: ClearColor,
    /// The shading commands executed after the clear, in order.
    pub shading_commands: Vec<&'a S>,
}

/// The events of a sequence of erased shading commands, concatenated in
/// order.
pub open spec fn shading_traces<'a, S: SomeShadingCommand>(cmds: Seq<&'a S>) -> Seq<PipelineEvent>
    decreases cmds.len(),
{
    if cmds.len() == 0 {
        Seq::empty()
    } else {
        shading_traces(cmds.drop_last()) + cmds.last().erased_trace()
    }
}

/// Taking one more shading command extends the concatenated trace by exactly
/// that command's events: shading commands execute in insertion order.
pub proof fn lemma_shading_traces_step<'a, S: SomeShadingCommand>(cmds: Seq<&'a S>, i: int)
    requires
        0 <= i < cmds.len(),
    ensures
        shading_traces(cmds.take(i + 1)) == shading_traces(cmds.take(i)) + cmds[i].erased_trace(),
{
    assert(cmds.take(i + 1).drop_last() =~= cmds.take(i));
    assert(cmds.take(i + 1).last() == cmds[i]);
}

impl<'a, L, D, CS, DS, S> Pipeline<'a, L, D, CS, DS, S> where
    L: Layerable,
    D: Dimensionable,
    CS: ColorSlot,
    DS: DepthSlot,
    S: SomeShadingCommand,
 {
    /// The events one run of this pipeline contributes, in order: clear the
    /// target, then every shading command's events in insertion order.
    pub open spec fn trace(&self) -> Seq<PipelineEvent> {
        seq![
            PipelineEvent::Clear {
                target: self.framebuffer.handle,
                color: self.clear_color,
            },
        ] + shading_traces(self.shading_commands@)
    }

    /// Where the events of the `i`-th shading command start inside
    /// [`Pipeline::trace`]: right after the clear and the blocks of every
    /// earlier command.
    pub open spec fn dispatch_offset(&self, i: int) -> int {
        1 + shading_traces(self.shading_commands@.take(i)).len() as int
    }

    /// Creates a new pipeline. Nothing is validated: compatibility of the
    /// referenced resources is the backend binding's business.
    pub fn new(
        framebuffer: &'a Framebuffer<L, D, CS, DS>,
        clear_color: ClearColor,
        shading_commands: Vec<&'a S>,
    ) -> (p: Self)
        ensures
            p.framebuffer == framebuffer,
            p.clear_color == clear_color,
            p.shading_commands == shading_commands,
    {
        Pipeline { framebuffer, clear_color, shading_commands }
    }

    /// Runs the pipeline on a backend: clears the target once, then executes
    /// every shading command in insertion order, with no reordering,
    /// skipping or deduplication.
    ///
    /// The backend observes exactly [`Pipeline::trace`], appended to its
    /// prior trace. Running again re-executes the same sequence from
    /// scratch.
    pub fn run<C: HasPipeline>(&self, backend: &mut C)
        ensures
            final(backend).trace() == old(backend).trace() + self.trace(),
    {
        backend.clear_target(self.framebuffer.handle, self.clear_color);
        let ghost head: Seq<PipelineEvent> = backend.trace();
        proof {
            assert(head + shading_traces(self.shading_commands@.take(0)) =~= head);
        }
        let n = self.shading_commands.len();
        let mut i: usize = 0;
        while i < n
            invariant
                n == self.shading_commands.len(),
                i <= n,
                backend.trace() == head + shading_traces(self.shading_commands@.take(i as int)),
            decreases n - i,
        {
            self.shading_commands[i].run_shading_command(backend);
            proof {
                lemma_shading_traces_step(self.shading_commands@, i as int);
            }
            i += 1;
        }
        proof {
            assert(self.shading_commands@.take(n as int) =~= self.shading_commands@);
            assert(final(backend).trace() =~= old(backend).trace() + self.trace());
        }
    }
}

/// A tagged union of two erased shading commands.
///
/// Verus offers no trait objects, so a heterogeneous ordered sequence of
/// shading commands is built as a nested tagged union instead: every entry
/// of a pipeline's sequence has the same Rust type, while each leaf keeps
/// its own uniform-payload type.
pub enum EitherCommand<A, B> where A: SomeShadingCommand, B: SomeShadingCommand {
    /// The first alternative.
    Left(A),
    /// The second alternative.
    Right(B),
}

impl<A, B> SomeShadingCommand for EitherCommand<A, B> where
    A: SomeShadingCommand,
    B: SomeShadingCommand,
 {
    open spec fn erased_trace(&self) -> Seq<PipelineEvent> {
        match self {
            EitherCommand::Left(a) => a.erased_trace(),
            EitherCommand::Right(b) => b.erased_trace(),
        }
    }

    fn run_shading_command<C: HasPipeline>(&self, backend: &mut C) {
        match self {
            EitherCommand::Left(a) => a.run_shading_command(backend),
            EitherCommand::Right(b) => b.run_shading_command(backend),
        }
    }
}

/// A render command's exact contribution to the trace: state is configured
/// with precisely the command's blending formula — disabled when `None`,
/// exactly the given triple when `Some` — and its depth-test flag; the
/// update callback is invoked once; the draw carries the command's instance
/// count, even when it is zero. No step is skipped for any field value.
pub proof fn lemma_render_command_trace_shape<'a, U: UniformUpdate>(cmd: &RenderCommand<'a, U>)
    ensures
        cmd.trace().len() == 3,
        cmd.trace()[0] == (PipelineEvent::Configure {
            blending: cmd.blending,
            depth_test: cmd.depth_test,
        }),
        cmd.trace()[1] == PipelineEvent::RenderUpdate,
        cmd.trace()[2] == (PipelineEvent::Draw {
            tessellation: cmd.tessellation.handle,
            instances: cmd.instances,
            rasterization_size: cmd.rasterization_size,
        }),
{
}

/// The event counts of one render command's trace: no clear, no shading
/// update, exactly one render update.
pub proof fn lemma_render_command_counts<'a, U: UniformUpdate>(cmd: &RenderCommand<'a, U>)
    ensures
        clear_count(cmd.trace()) == 0,
        shading_update_count(cmd.trace()) == 0,
        render_update_count(cmd.trace()) == 1,
{
    let t = cmd.trace();
    assert(t =~= seq![t[0]] + seq![t[1]] + seq![t[2]]);
    lemma_counts_singleton(t[0]);
    lemma_counts_singleton(t[1]);
    lemma_counts_singleton(t[2]);
    lemma_counts_distribute(seq![t[0]], seq![t[1]]);
    lemma_counts_distribute(seq![t[0]] + seq![t[1]], seq![t[2]]);
}

/// The event counts of a whole sequence of render commands: no clear, no
/// shading update, exactly one render update per command.
pub proof fn lemma_render_traces_counts<'a, U: UniformUpdate>(cmds: Seq<RenderCommand<'a, U>>)
    ensures
        clear_count(render_traces(cmds)) == 0,
        shading_update_count(render_traces(cmds)) == 0,
        render_update_count(render_traces(cmds)) == cmds.len(),
    decreases cmds.len(),
{
    if cmds.len() == 0 {
        lemma_counts_empty();
    } else {
        lemma_render_traces_counts(cmds.drop_last());
        lemma_counts_distribute(render_traces(cmds.drop_last()), cmds.last().trace());
        lemma_render_command_counts(&cmds.last());
    }
}

/// Exactly one update-callback invocation occurs for a shading command
/// itself — right after its program is bound, before any render command —
/// and exactly one render update per render command, the commands in
/// insertion order (see [`lemma_render_traces_step`] for the order).
pub proof fn lemma_shading_command_updates<'a, U: UniformUpdate>(cmd: &ShadingCommand<'a, U>)
    ensures
        cmd.trace()[0] == (PipelineEvent::BindProgram { program: cmd.program.handle }),
        cmd.trace()[1] == PipelineEvent::ShadingUpdate,
        cmd.trace().skip(2) == render_traces(cmd.render_commands@),
        shading_update_count(cmd.trace()) == 1,
        render_update_count(cmd.trace()) == cmd.render_commands@.len(),
        clear_count(cmd.trace()) == 0,
{
    let t = cmd.trace();
    let head = seq![t[0]] + seq![t[1]];
    assert(t =~= head + render_traces(cmd.render_commands@));
    assert(t.skip(2) =~= render_traces(cmd.render_commands@));
    lemma_counts_singleton(t[0]);
    lemma_counts_singleton(t[1]);
    lemma_counts_distribute(seq![t[0]], seq![t[1]]);
    lemma_render_traces_counts(cmd.render_commands@);
    lemma_counts_distribute(head, render_traces(cmd.render_commands@));
}

/// A library shading command never clears the target: only the pipeline
/// itself does.
pub proof fn lemma_shading_command_clear_free<'a, U: UniformUpdate>(cmd: &ShadingCommand<'a, U>)
    ensures
        clear_count(cmd.erased_trace()) == 0,
{
    lemma_shading_command_updates(cmd);
}

/// The trace of a sequence of erased shading commands holds no clear event,
/// provided no single command's trace does.
pub proof fn lemma_shading_traces_clear_free<'a, S: SomeShadingCommand>(cmds: Seq<&'a S>)
    requires
        forall|i: int|
            0 <= i < cmds.len() ==> clear_count(#[trigger] cmds[i].erased_trace()) == 0,
    ensures
        clear_count(shading_traces(cmds)) == 0,
    decreases cmds.len(),
{
    if cmds.len() == 0 {
        lemma_counts_empty();
    } else {
        assert(forall|i: int|
            0 <= i < cmds.drop_last().len() ==> clear_count(
                #[trigger] cmds.drop_last()[i].erased_trace(),
            ) == 0) by {
            assert(forall|i: int|
                0 <= i < cmds.drop_last().len() ==> cmds.drop_last()[i] == cmds[i]);
        }
        lemma_shading_traces_clear_free(cmds.drop_last());
        lemma_counts_distribute(shading_traces(cmds.drop_last()), cmds.last().erased_trace());
        assert(cmds.last() == cmds[cmds.len() - 1]);
    }
}

/// One run of a pipeline clears the target exactly once, strictly before
/// any shading command's events, and then dispatches the commands in
/// insertion order (see [`lemma_shading_traces_step`] for the order). The
/// single-clear count asks that no command clears on its own, which holds
/// of every [`ShadingCommand`] by [`lemma_shading_command_clear_free`].
pub proof fn lemma_pipeline_clear_once<'a, L, D, CS, DS, S>(p: &Pipeline<'a, L, D, CS, DS, S>)
    where
        L: Layerable,
        D: Dimensionable,
        CS: ColorSlot,
        DS: DepthSlot,
        S: SomeShadingCommand,

    requires
        forall|i: int|
            0 <= i < p.shading_commands@.len() ==> clear_count(
                #[trigger] p.shading_commands@[i].erased_trace(),
            ) == 0,
    ensures
        p.trace().len() >= 1,
        p.trace()[0] == (PipelineEvent::Clear {
            target: p.framebuffer.handle,
            color: p.clear_color,
        }),
        p.trace().skip(1) == shading_traces(p.shading_commands@),
        clear_count(p.trace()) == 1,
{
    let t = p.trace();
    assert(t.skip(1) =~= shading_traces(p.shading_commands@));
    lemma_counts_singleton(t[0]);
    lemma_shading_traces_clear_free(p.shading_commands@);
    lemma_counts_distribute(seq![t[0]], shading_traces(p.shading_commands@));
    assert(t =~= seq![t[0]] + shading_traces(p.shading_commands@));
}

/// Taking the first `j` render commands yields a prefix of the whole
/// concatenated trace.
pub proof fn lemma_render_traces_prefix<'a, U: UniformUpdate>(
    cmds: Seq<RenderCommand<'a, U>>,
    j: int,
)
    requires
        0 <= j <= cmds.len(),
    ensures
        render_traces(cmds.take(j)).is_prefix_of(render_traces(cmds)),
    decreases cmds.len(),
{
    if j == cmds.len() {
        assert(cmds.take(j) =~= cmds);
        assert(render_traces(cmds) =~= render_traces(cmds).subrange(
            0,
            render_traces(cmds).len() as int,
        ));
    } else {
        lemma_render_traces_prefix(cmds.drop_last(), j);
        assert(cmds.drop_last().take(j) =~= cmds.take(j));
        let part = render_traces(cmds.drop_last());
        let whole = part + cmds.last().trace();
        let pre = render_traces(cmds.take(j));
        assert(pre =~= whole.subrange(0, pre.len() as int));
    }
}

/// Taking the first `j` shading commands yields a prefix of the whole
/// concatenated trace.
pub proof fn lemma_shading_traces_prefix<'a, S: SomeShadingCommand>(cmds: Seq<&'a S>, j: int)
    requires
        0 <= j <= cmds.len(),
    ensures
        shading_traces(cmds.take(j)).is_prefix_of(shading_traces(cmds)),
    decreases cmds.len(),
{
    if j == cmds.len() {
        assert(cmds.take(j) =~= cmds);
        assert(shading_traces(cmds) =~= shading_traces(cmds).subrange(
            0,
            shading_traces(cmds).len() as int,
        ));
    } else {
        lemma_shading_traces_prefix(cmds.drop_last(), j);
        assert(cmds.drop_last().take(j) =~= cmds.take(j));
        let part = shading_traces(cmds.drop_last());
        let whole = part + cmds.last().erased_trace();
        let pre = shading_traces(cmds.take(j));
        assert(pre =~= whole.subrange(0, pre.len() as int));
    }
}

/// The `i`-th shading command's events stand as one contiguous block inside
/// the pipeline's trace, at an offset that grows with `i`: the commands are
/// dispatched strictly after the clear, in insertion order, without
/// reordering, skipping or deduplication.
pub proof fn lemma_pipeline_dispatch_in_order<'a, L, D, CS, DS, S>(
    p: &Pipeline<'a, L, D, CS, DS, S>,
    i: int,
)
    where
        L: Layerable,
        D: Dimensionable,
        CS: ColorSlot,
        DS: DepthSlot,
        S: SomeShadingCommand,

    requires
        0 <= i < p.shading_commands@.len(),
    ensures
        1 <= p.dispatch_offset(i),
        p.dispatch_offset(i + 1) == p.dispatch_offset(i)
            + p.shading_commands@[i].erased_trace().len(),
        p.dispatch_offset(i + 1) <= p.trace().len(),
        p.trace().subrange(p.dispatch_offset(i), p.dispatch_offset(i + 1))
            == p.shading_commands@[i].erased_trace(),
{
    let cmds = p.shading_commands@;
    let block = cmds[i].erased_trace();
    let pre = shading_traces(cmds.take(i));
    let pre1 = shading_traces(cmds.take(i + 1));
    let full = shading_traces(cmds);
    let t = p.trace();
    lemma_shading_traces_step(cmds, i);
    lemma_shading_traces_prefix(cmds, i + 1);
    assert forall|k: int| 0 <= k < block.len() implies t[p.dispatch_offset(i) + k] == block[k] by {
        assert(full[pre.len() + k] == pre1[pre.len() + k]);
        assert(pre1[pre.len() + k] == block[k]);
    }
    assert(t.subrange(p.dispatch_offset(i), p.dispatch_offset(i + 1)) =~= block);
}

/// The `i`-th render command's events stand as one contiguous block inside
/// its shading command's trace, at an offset that grows with `i`: the render
/// commands execute strictly after the program bind and the shading
/// command's own update, in insertion order.
pub proof fn lemma_render_dispatch_in_order<'a, U: UniformUpdate>(
    cmd: &ShadingCommand<'a, U>,
    i: int,
)
    requires
        0 <= i < cmd.render_commands@.len(),
    ensures
        2 <= cmd.render_offset(i),
        cmd.render_offset(i + 1) == cmd.render_offset(i) + 3,
        cmd.render_offset(i + 1) <= cmd.trace().len(),
        cmd.trace().subrange(cmd.render_offset(i), cmd.render_offset(i + 1))
            == cmd.render_commands@[i].trace(),
{
    let cmds = cmd.render_commands@;
    let block = cmds[i].trace();
    let pre = render_traces(cmds.take(i));
    let pre1 = render_traces(cmds.take(i + 1));
    let full = render_traces(cmds);
    let t = cmd.trace();
    lemma_render_traces_step(cmds, i);
    lemma_render_traces_prefix(cmds, i + 1);
    assert forall|k: int| 0 <= k < block.len() implies t[cmd.render_offset(i) + k] == block[k] by {
        assert(full[pre.len() + k] == pre1[pre.len() + k]);
        assert(pre1[pre.len() + k] == block[k]);
    }
    assert(t.subrange(cmd.render_offset(i), cmd.render_offset(i + 1)) =~= block);
}

/// Structural idempotence: two consecutive runs of the same pipeline
/// contribute two identical event blocks to the backend's trace, whatever
/// the backend had observed before — same order, same arguments. Real-world
/// side effects still accumulate; only the structure repeats.
pub proof fn lemma_rerun_structurally_identical<'a, L, D, CS, DS, S>(
    p: &Pipeline<'a, L, D, CS, DS, S>,
    prior: Seq<PipelineEvent>,
)
    where
        L: Layerable,
        D: Dimensionable,
        CS: ColorSlot,
        DS: DepthSlot,
        S: SomeShadingCommand,

    ensures
        (prior + p.trace() + p.trace()).subrange(
            prior.len() as int,
            (prior.len() + p.trace().len()) as int,
        ) == p.trace(),
        (prior + p.trace() + p.trace()).subrange(
            (prior.len() + p.trace().len()) as int,
            (prior + p.trace() + p.trace()).len() as int,
        ) == p.trace(),
{
    let whole = prior + p.trace() + p.trace();
    assert(whole.subrange(prior.len() as int, (prior.len() + p.trace().len()) as int) =~= p.trace());
    assert(whole.subrange((prior.len() + p.trace().len()) as int, whole.len() as int) =~= p.trace());
}

} // verus!
