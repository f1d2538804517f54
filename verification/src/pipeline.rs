//! The fixed pipeline: how geometry is assembled, rasterized, blended and
//! depth-tested. A pipeline is built once and never changed afterwards.

use vstd::prelude::*;
use crate::error::{CompileFailure, RenderError};
use crate::scalar::{zero, is_zero, Bits, ZERO};

verus! {

/// How consecutive vertices form primitives.
#[derive(Clone, Copy, Debug, PartialEq, Eq, Structural)]
pub enum Topology {
    PointList,
    LineList,
    LineStrip,
    TriangleList,
    TriangleStrip,
}

/// How the interior of a polygon is filled.
#[derive(Clone, Copy, Debug, PartialEq, Eq, Structural)]
pub enum PolygonMode {
    /// Only the corners are drawn.
    Point,
    /// Only the edges are drawn.
    Line,
    /// The whole face is drawn.
    Fill,
}

/// The rasterizer's configuration.
#[derive(Clone, Copy, Debug, PartialEq, Eq, Structural)]
pub struct RasterizerDesc {
    pub polygon_mode: PolygonMode,
}

impl RasterizerDesc {
    /// A rasterizer that fills whole faces.
    pub fn fill() -> (r: RasterizerDesc)
        ensures
            r == (RasterizerDesc { polygon_mode: PolygonMode::Fill }),
    {
        RasterizerDesc { polygon_mode: PolygonMode::Fill }
    }
}

/// The depth comparison: a fragment passes when its depth stands in this
/// relation to the depth already stored.
#[derive(Clone, Copy, Debug, PartialEq, Eq, Structural)]
pub enum Comparison {
    Never,
    Less,
    LessEqual,
    Equal,
    GreaterEqual,
    Greater,
    NotEqual,
    Always,
}

/// The depth test's configuration.
#[derive(Clone, Copy, Debug, PartialEq, Eq, Structural)]
pub struct DepthDesc {
    /// The comparison a fragment must pass.
    pub fun: Comparison,
    /// Whether a passing fragment replaces the stored depth.
    pub write: bool,
}

impl DepthDesc {
    /// The forward-rendering policy for opaque geometry: a fragment at most as
    /// deep as the stored one wins, and the stored depth is updated.
    pub fn less_equal_write() -> (d: DepthDesc)
        ensures
            d == (DepthDesc { fun: Comparison::LessEqual, write: true }),
    {
        DepthDesc { fun: Comparison::LessEqual, write: true }
    }
}

/// Whether every weight of `weights` is zero.
pub open spec fn all_zero(weights: Seq<Bits>) -> bool {
    forall|i: int| 0 <= i < weights.len() ==> zero(#[trigger] weights[i])
}

/// How fragments combine with one colour attachment.
#[derive(Clone, Copy, Debug, PartialEq, Eq)]
pub struct BlendTarget {
    /// The colour channels that are written, one bit each.
    pub mask: u8,
    /// The four blend weights of the colour channels.
    pub color: [Bits; 4],
    /// The four blend weights of the alpha channel.
    pub alpha: [Bits; 4],
}

impl BlendTarget {
    /// Whether every blend weight is zero. Such a target does not blend: the
    /// pass overwrites what the attachment held.
    pub open spec fn overwrites(self) -> bool {
        all_zero(self.color@) && all_zero(self.alpha@)
    }

    /// The fully opaque overwrite: every channel written, every weight zero.
    pub fn opaque() -> (t: BlendTarget)
        ensures
            t == (BlendTarget {
                mask: 0xFF,
                color: [ZERO, ZERO, ZERO, ZERO],
                alpha: [ZERO, ZERO, ZERO, ZERO],
            }),
            t.overwrites(),
    {
        BlendTarget { mask: 0xFF, color: [ZERO, ZERO, ZERO, ZERO], alpha: [ZERO, ZERO, ZERO, ZERO] }
    }

    /// Decides [`BlendTarget::overwrites`].
    pub fn is_overwrite(&self) -> (r: bool)
        ensures
            r == self.overwrites(),
    {
        let mut i: usize = 0;
        while i < 4
            invariant
                i <= 4,
                forall|k: int| 0 <= k < i ==> zero(#[trigger] self.color@[k]),
                forall|k: int| 0 <= k < i ==> zero(#[trigger] self.alpha@[k]),
            decreases 4 - i,
        {
            if !is_zero(self.color[i]) || !is_zero(self.alpha[i]) {
                return false;
            }
            i += 1;
        }
        true
    }
}

/// The blend configuration handed to pipeline construction: one entry for each
/// colour attachment it is meant for.
#[derive(Debug, PartialEq, Eq)]
pub struct BlendDesc {
    pub targets: Vec<BlendTarget>,
}

impl BlendDesc {
    /// The fully opaque overwrite of a single colour attachment.
    pub fn opaque() -> (b: BlendDesc)
        ensures
            b.targets@ == seq![
                BlendTarget {
                    mask: 0xFF,
                    color: [ZERO, ZERO, ZERO, ZERO],
                    alpha: [ZERO, ZERO, ZERO, ZERO],
                },
            ],
            b.targets@[0].overwrites(),
    {
        let mut targets: Vec<BlendTarget> = Vec::new();
        targets.push(BlendTarget::opaque());
        assert(targets@ =~= seq![
            BlendTarget {
                mask: 0xFF,
                color: [ZERO, ZERO, ZERO, ZERO],
                alpha: [ZERO, ZERO, ZERO, ZERO],
            },
        ]);
        BlendDesc { targets }
    }
}

/// What a pipeline is made of.
#[derive(Clone, Copy, Debug, PartialEq, Eq)]
pub struct PipelineBundle {
    pub topology: Topology,
    pub rasterizer: RasterizerDesc,
    pub blend: BlendTarget,
    pub depth: DepthDesc,
}

/// A compiled, validated pipeline. It offers no way to change it: a different
/// pipeline is a new `PipelineState`.
#[derive(Clone, Copy, Debug, PartialEq, Eq)]
pub struct PipelineState {
    bundle: PipelineBundle,
}

impl View for PipelineState {
    type V = PipelineBundle;

    closed spec fn view(&self) -> PipelineBundle {
        self.bundle
    }
}

impl PipelineState {
    /// What this pipeline is made of.
    pub fn bundle(&self) -> (b: PipelineBundle)
        ensures
            b == self@,
    {
        self.bundle
    }

    pub fn topology(&self) -> (t: Topology)
        ensures
            t == self@.topology,
    {
        self.bundle.topology
    }

    pub fn rasterizer(&self) -> (r: RasterizerDesc)
        ensures
            r == self@.rasterizer,
    {
        self.bundle.rasterizer
    }

    pub fn blend(&self) -> (b: BlendTarget)
        ensures
            b == self@.blend,
    {
        self.bundle.blend
    }

    pub fn depth(&self) -> (d: DepthDesc)
        ensures
            d == self@.depth,
    {
        self.bundle.depth
    }
}

/// The number of colour attachments of a frame target, and so the number of
/// blend targets a pipeline must configure.
pub const COLOR_ATTACHMENTS: usize = 1;

/// What the library itself finds of a description, before any device is
/// asked: the parts the pipeline would be made of, or why it cannot be built.
///
/// An empty shader binary holds no stage at all, and a blend description must
/// configure exactly the colour attachments of a frame target.
pub open spec fn validated(
    shader: Seq<u8>,
    topology: Topology,
    rasterizer: RasterizerDesc,
    blend: Seq<BlendTarget>,
    depth: DepthDesc,
) -> Result<PipelineBundle, RenderError> {
    if shader.len() == 0 {
        Err(RenderError::PipelineCompilation(CompileFailure::MissingStage))
    } else if blend.len() != COLOR_ATTACHMENTS {
        Err(RenderError::PipelineCompilation(CompileFailure::UnsupportedBlendTargetCount))
    } else {
        Ok(PipelineBundle { topology, rasterizer, blend: blend[0], depth })
    }
}

/// What pipeline construction yields.
///
/// What the library rejects by itself stays rejected whatever the device
/// says. Whatever the library cannot see inside the binary is for the device
/// to judge, whose `verdict` is passed on. A description that passes both is
/// sealed.
pub open spec fn pipeline_outcome(
    shader: Seq<u8>,
    topology: Topology,
    rasterizer: RasterizerDesc,
    blend: Seq<BlendTarget>,
    depth: DepthDesc,
    verdict: Result<(), CompileFailure>,
) -> Result<PipelineBundle, RenderError> {
    match validated(shader, topology, rasterizer, blend, depth) {
        Err(error) => Err(error),
        Ok(bundle) => match verdict {
            Err(cause) => Err(RenderError::PipelineCompilation(cause)),
            Ok(_) => Ok(bundle),
        },
    }
}

/// That `result` is what [`create_pipeline`] returns for `outcome`.
pub open spec fn built_as(
    result: Result<PipelineState, RenderError>,
    outcome: Result<PipelineBundle, RenderError>,
) -> bool {
    match outcome {
        Ok(bundle) => result is Ok && result->Ok_0@ == bundle,
        Err(e) => result == Err::<PipelineState, RenderError>(e),
    }
}

/// Checks a shader binary and a state description as far as the library can
/// by itself. What passes is worth showing to the device.
pub fn validate_pipeline(
    shader: &[u8],
    topology: Topology,
    rasterizer: RasterizerDesc,
    blend: &BlendDesc,
    depth: DepthDesc,
) -> (r: Result<PipelineBundle, RenderError>)
    ensures
        r == validated(shader@, topology, rasterizer, blend.targets@, depth),
{
    if shader.len() == 0 {
        Err(RenderError::PipelineCompilation(CompileFailure::MissingStage))
    } else if blend.targets.len() != COLOR_ATTACHMENTS {
        Err(RenderError::PipelineCompilation(CompileFailure::UnsupportedBlendTargetCount))
    } else {
        Ok(PipelineBundle { topology, rasterizer, blend: blend.targets[0], depth })
    }
}

/// Builds the pipeline from a precompiled shader binary and a state
/// description, given the device's `verdict` on them.
///
/// The result is a function of the arguments alone: the same binary, the same
/// description and the same verdict give the same pipeline.
pub fn create_pipeline(
    shader: &[u8],
    topology: Topology,
    rasterizer: RasterizerDesc,
    blend: &BlendDesc,
    depth: DepthDesc,
    verdict: Result<(), CompileFailure>,
) -> (r: Result<PipelineState, RenderError>)
    ensures
        built_as(r, pipeline_outcome(shader@, topology, rasterizer, blend.targets@, depth, verdict)),
{
    match validate_pipeline(shader, topology, rasterizer, blend, depth) {
        Err(error) => Err(error),
        Ok(bundle) => match verdict {
            Err(cause) => Err(RenderError::PipelineCompilation(cause)),
            Ok(_) => Ok(PipelineState { bundle }),
        },
    }
}

/// Pipeline construction is idempotent: two constructions from the same
/// shader binary, the same state description and the same device verdict
/// either both fail with the same error or yield the same pipeline.
pub proof fn lemma_create_pipeline_idempotent(
    shader: Seq<u8>,
    topology: Topology,
    rasterizer: RasterizerDesc,
    blend: Seq<BlendTarget>,
    depth: DepthDesc,
    verdict: Result<(), CompileFailure>,
    first: Result<PipelineState, RenderError>,
    second: Result<PipelineState, RenderError>,
)
    requires
        built_as(first, pipeline_outcome(shader, topology, rasterizer, blend, depth, verdict)),
        built_as(second, pipeline_outcome(shader, topology, rasterizer, blend, depth, verdict)),
    ensures
        first == second,
{
    lemma_built_alike(pipeline_outcome(shader, topology, rasterizer, blend, depth, verdict), first, second);
}

/// Two results built as the same outcome are the same result: a pipeline is
/// nothing but what it is made of.
pub proof fn lemma_built_alike(
    outcome: Result<PipelineBundle, RenderError>,
    first: Result<PipelineState, RenderError>,
    second: Result<PipelineState, RenderError>,
)
    requires
        built_as(first, outcome),
        built_as(second, outcome),
    ensures
        first == second,
{
}

} // verus!
