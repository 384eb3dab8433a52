//! The observable execution trace.
//!
//! Everything a pipeline run does to a backend is described by an ordered
//! sequence of [`PipelineEvent`] values: the trace. The backend capability
//! contract states each primitive operation as "append exactly this event",
//! and the verified run functions guarantee the whole trace of a run as a
//! function of the pipeline alone. The counting functions below let laws
//! about a trace — one clear per run, one update per command — be stated
//! and proved.

use vstd::prelude::*;

verus! {

/// A clear color: one encoded value per channel (red, green, blue, alpha).
///
/// The encoding of a channel is the backend's business; this crate forwards
/// the four values untouched and never clamps or interprets them.
#[derive(Clone, Copy, Debug, PartialEq, Eq)]
pub struct ClearColor {
    /// The red channel.
    pub r: u32,
    /// The green channel.
    pub g: u32,
    /// The blue channel.
    pub b: u32,
    /// The alpha channel.
    pub a: u32,
}

/// One primitive backend operation, as observed during a pipeline run.
#[derive(Clone, Copy, Debug, PartialEq, Eq)]
pub enum PipelineEvent {
    /// The render target was activated and cleared with the given color.
    Clear { target: u64, color: ClearColor },
    /// A shader program was bound.
    BindProgram { program: u64 },
    /// A shading command's update callback was invoked.
    ShadingUpdate,
    /// Per-draw state was configured: the blending formula (disabled when
    /// `None`) and the depth-test flag.
    Configure {
        blending: Option<
            (crate::blending::Equation, crate::blending::Factor, crate::blending::Factor),
        >,
        depth_test: bool,
    },
    /// A render command's update callback was invoked.
    RenderUpdate,
    /// An instanced draw of a tessellation was issued.
    Draw { tessellation: u64, instances: u32, rasterization_size: Option<u32> },
}

/// How many events of a trace clear the render target.
pub open spec fn clear_count(t: Seq<PipelineEvent>) -> int {
    t.filter(|e: PipelineEvent| e is Clear).len() as int
}

/// How many events of a trace invoke a shading command's update callback.
pub open spec fn shading_update_count(t: Seq<PipelineEvent>) -> int {
    t.filter(|e: PipelineEvent| e is ShadingUpdate).len() as int
}

/// How many events of a trace invoke a render command's update callback.
pub open spec fn render_update_count(t: Seq<PipelineEvent>) -> int {
    t.filter(|e: PipelineEvent| e is RenderUpdate).len() as int
}

/// The counts of a concatenation are the sums of the counts.
pub proof fn lemma_counts_distribute(a: Seq<PipelineEvent>, b: Seq<PipelineEvent>)
    ensures
        clear_count(a + b) == clear_count(a) + clear_count(b),
        shading_update_count(a + b) == shading_update_count(a) + shading_update_count(b),
        render_update_count(a + b) == render_update_count(a) + render_update_count(b),
{
    broadcast use Seq::filter_distributes_over_add;

}

/// The counts of a one-event trace, for each kind of event.
pub proof fn lemma_counts_singleton(e: PipelineEvent)
    ensures
        clear_count(seq![e]) == if e is Clear {
            1int
        } else {
            0int
        },
        shading_update_count(seq![e]) == if e is ShadingUpdate {
            1int
        } else {
            0int
        },
        render_update_count(seq![e]) == if e is RenderUpdate {
            1int
        } else {
            0int
        },
{
    reveal_with_fuel(Seq::filter, 2);
    assert(seq![e].drop_last() =~= Seq::<PipelineEvent>::empty());
}

/// The counts of the empty trace are zero.
pub proof fn lemma_counts_empty()
    ensures
        clear_count(Seq::<PipelineEvent>::empty()) == 0,
        shading_update_count(Seq::<PipelineEvent>::empty()) == 0,
        render_update_count(Seq::<PipelineEvent>::empty()) == 0,
{
    reveal_with_fuel(Seq::filter, 1);
}

} // verus!
