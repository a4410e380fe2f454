//! The frame node: which blit passes run for a view, in which order, between
//! which textures, and when a bind group is reused.
//!
//! The node decides and describes; recording the passes on the GPU is the
//! caller's part. For each view and frame, [`FxaaNode::run`] returns the
//! passes to record. A disabled or absent view yields no pass at all, so the
//! view's target keeps its content.

use crate::pipeline::{CompiledPipelines, PipelineVariant, ShaderAsset, TextureFormat};
use crate::settings::FXAA;
use vstd::prelude::*;

verus! {

/// What a slot of a graph node carries.
#[derive(Clone, Copy, Debug, PartialEq, Eq, Structural)]
pub enum SlotType {
    Buffer,
    TextureView,
    Sampler,
    Entity,
}

/// A slot of a graph node.
#[derive(Clone, Copy, Debug, PartialEq, Eq)]
pub struct SlotInfo {
    pub name: &'static str,
    pub slot_type: SlotType,
}

/// The identity of a texture view. Two views are the same texture view
/// exactly when their identities are equal.
#[derive(Clone, Copy, Debug, PartialEq, Eq, Hash, Structural)]
pub struct TextureViewId(pub u64);

/// One step of the double-buffer protocol: read `source`, write `destination`.
#[derive(Clone, Copy, Debug, PartialEq, Eq, Structural)]
pub struct PostProcessWrite {
    pub source: TextureViewId,
    pub destination: TextureViewId,
}

/// The double-buffered color target of a view.
#[derive(Clone, Copy, Debug, PartialEq, Eq, Structural)]
pub struct ViewTarget {
    /// The texture that holds the view's current image.
    pub main_texture: TextureViewId,
    /// The texture that the next post-process write fills.
    pub next_texture: TextureViewId,
    /// Whether the two textures have the HDR format.
    pub hdr: bool,
}

impl ViewTarget {
    /// The target after one post-process write: the two textures trade places.
    pub open spec fn swapped(self) -> ViewTarget {
        ViewTarget {
            main_texture: self.next_texture,
            next_texture: self.main_texture,
            hdr: self.hdr,
        }
    }

    /// The target whose current image is in `main_texture` and whose next
    /// post-process write fills `next_texture`.
    pub fn new(main_texture: TextureViewId, next_texture: TextureViewId, hdr: bool) -> (target:
        Self)
        ensures
            target == (ViewTarget { main_texture, next_texture, hdr }),
    {
        ViewTarget { main_texture, next_texture, hdr }
    }

    /// Whether the target's textures have the HDR format.
    pub fn is_hdr(&self) -> (hdr: bool)
        ensures
            hdr == self.hdr,
    {
        self.hdr
    }

    /// Starts a post-process write from the current main texture to the other
    /// one, which becomes the main texture.
    pub fn post_process_write(&mut self) -> (write: PostProcessWrite)
        ensures
            write.source == old(self).main_texture,
            write.destination == old(self).next_texture,
            *final(self) == old(self).swapped(),
    {
        let source = self.main_texture;
        let destination = self.next_texture;
        self.main_texture = destination;
        self.next_texture = source;
        PostProcessWrite { source, destination }
    }
}

/// What the node reads of a view in one frame: a snapshot, taken before the
/// node runs.
#[derive(Clone, Copy, Debug, PartialEq, Eq, Structural)]
pub struct ViewRecord {
    pub target: ViewTarget,
    pub pipelines: CompiledPipelines,
    pub fxaa: FXAA,
}

impl ViewRecord {
    /// Whether the compression stage runs: the effect is on, the view is HDR,
    /// and the compression pipeline is compiled.
    pub open spec fn compresses(self) -> bool {
        self.fxaa.enabled && self.target.hdr && self.pipelines.to_ldr
    }

    /// The anti-aliasing pipeline whose output format matches the view.
    pub open spec fn fxaa_variant(self) -> PipelineVariant {
        if self.target.hdr {
            PipelineVariant::FxaaHdr
        } else {
            PipelineVariant::FxaaLdr
        }
    }

    /// The pipeline of the final stage: the anti-aliasing pipeline where it
    /// is compiled, else the pass-through copy where that is compiled, else
    /// none.
    pub open spec fn final_pipeline(self) -> Option<PipelineVariant> {
        if self.pipelines.spec_is_compiled(self.fxaa_variant()) {
            Some(self.fxaa_variant())
        } else if self.pipelines.blit {
            Some(PipelineVariant::Blit)
        } else {
            None
        }
    }
}

/// The two stages of the node.
#[derive(Clone, Copy, Debug, PartialEq, Eq, Structural)]
pub enum Stage {
    /// Compression of an HDR image into the displayable range.
    ToLdr,
    /// Edge smoothing, or the pass-through copy that stands in for it.
    Fxaa,
}

impl Stage {
    /// The label of the render pass of each stage.
    pub open spec fn spec_label(self) -> Seq<char> {
        match self {
            Stage::ToLdr => "fxaa_to_ldr_pass"@,
            Stage::Fxaa => "fxaa_pass"@,
        }
    }

    /// The label of the stage's render pass.
    pub fn label(&self) -> (label: &'static str)
        ensures
            label@ == self.spec_label(),
    {
        match self {
            Stage::ToLdr => "fxaa_to_ldr_pass",
            Stage::Fxaa => "fxaa_pass",
        }
    }
}

/// How a sampler filters.
#[derive(Clone, Copy, Debug, PartialEq, Eq, Structural)]
pub enum FilterMode {
    Nearest,
    Linear,
}

/// Describes the sampler through which a pass reads its source.
#[derive(Clone, Copy, Debug, PartialEq, Eq, Structural)]
pub struct SamplerDescriptor {
    pub mag_filter: FilterMode,
    pub min_filter: FilterMode,
    pub mipmap_filter: FilterMode,
}

/// Where the bind group of a pass comes from.
#[derive(Clone, Copy, Debug, PartialEq, Eq, Structural)]
pub enum BindGroupSource {
    /// The bind group that the node's cache holds is bound again.
    Cached,
    /// A sampler and a bind group are created for the source texture, and
    /// replace what the cache held.
    Created,
}

/// One render pass to record: a full-screen triangle drawn with `pipeline`,
/// sampling `source` through the bind group at index 0, into the single color
/// attachment `destination`, without a depth or stencil attachment.
#[derive(Clone, Copy, Debug, PartialEq, Eq, Structural)]
pub struct BlitPass {
    pub stage: Stage,
    pub pipeline: PipelineVariant,
    pub source: TextureViewId,
    pub destination: TextureViewId,
    pub bind_group: BindGroupSource,
    pub vertices: u32,
    pub instances: u32,
}

/// The frame node. It keeps the identity of the one source texture for which
/// a bind group is cached, from frame to frame.
#[derive(Debug)]
pub struct FxaaNode {
    cached_texture_bind_group: Option<TextureViewId>,
}

impl View for FxaaNode {
    type V = Option<TextureViewId>;

    closed spec fn view(&self) -> Option<TextureViewId> {
        self.cached_texture_bind_group
    }
}

/// Whether a pass that reads `source` finds its bind group in the cache.
pub open spec fn bind_group_for(
    cached: Option<TextureViewId>,
    source: TextureViewId,
) -> BindGroupSource {
    if cached == Some(source) {
        BindGroupSource::Cached
    } else {
        BindGroupSource::Created
    }
}

/// The pass of `stage` on a target, with the cache as it is before the pass.
pub open spec fn pass_on(
    stage: Stage,
    pipeline: PipelineVariant,
    target: ViewTarget,
    cached: Option<TextureViewId>,
) -> BlitPass {
    BlitPass {
        stage,
        pipeline,
        source: target.main_texture,
        destination: target.next_texture,
        bind_group: bind_group_for(cached, target.main_texture),
        vertices: 3,
        instances: 1,
    }
}

/// The cache after a run of passes: it holds the source of the last pass, or
/// what it held before where there was none.
pub open spec fn cache_after(cached: Option<TextureViewId>, passes: Seq<BlitPass>) -> Option<
    TextureViewId,
> {
    if passes.len() == 0 {
        cached
    } else {
        Some(passes.last().source)
    }
}

/// The passes of one frame for one view, given what the cache holds.
///
/// An absent or disabled view has none. Otherwise the compression stage comes
/// first, where it runs, and hands its destination to the final stage as the
/// source; the final stage runs where a pipeline for it is compiled.
pub open spec fn frame_passes(cached: Option<TextureViewId>, view: Option<ViewRecord>) -> Seq<
    BlitPass,
> {
    match view {
        None => Seq::empty(),
        Some(record) => {
            if !record.fxaa.enabled {
                Seq::empty()
            } else {
                let first = if record.compresses() {
                    seq![pass_on(Stage::ToLdr, PipelineVariant::ToLdr, record.target, cached)]
                } else {
                    Seq::empty()
                };
                let target = if record.compresses() {
                    record.target.swapped()
                } else {
                    record.target
                };
                let second = match record.final_pipeline() {
                    Some(pipeline) => seq![
                        pass_on(Stage::Fxaa, pipeline, target, cache_after(cached, first)),
                    ],
                    None => Seq::empty(),
                };
                first + second
            }
        },
    }
}

/// The passes of consecutive frames, for a node whose cache holds `cached`
/// before the first of them. Each frame starts with the cache as the frame
/// before left it.
pub open spec fn frames_passes(
    cached: Option<TextureViewId>,
    frames: Seq<Option<ViewRecord>>,
) -> Seq<BlitPass>
    decreases frames.len(),
{
    if frames.len() == 0 {
        Seq::empty()
    } else {
        let head = frame_passes(cached, frames.first());
        head + frames_passes(cache_after(cached, head), frames.drop_first())
    }
}

/// How many of the passes create a bind group.
pub open spec fn created(passes: Seq<BlitPass>) -> nat
    decreases passes.len(),
{
    if passes.len() == 0 {
        0
    } else {
        created(passes.drop_last()) + if passes.last().bind_group == BindGroupSource::Created {
            1nat
        } else {
            0nat
        }
    }
}

/// The record behind an optional reference.
pub open spec fn record_of(view: Option<&ViewRecord>) -> Option<ViewRecord> {
    match view {
        Some(record) => Some(*record),
        None => None,
    }
}

impl FxaaNode {
    /// The name of the node's one input slot, which carries the view entity.
    pub const IN_VIEW: &'static str = "view";

    /// A node whose cache is empty.
    pub fn new() -> (node: Self)
        ensures
            node@ is None,
    {
        FxaaNode { cached_texture_bind_group: None }
    }

    /// The sampler of a newly created bind group: linear in every respect.
    pub fn sampler() -> (sampler: SamplerDescriptor)
        ensures
            sampler == (SamplerDescriptor {
                mag_filter: FilterMode::Linear,
                min_filter: FilterMode::Linear,
                mipmap_filter: FilterMode::Linear,
            }),
    {
        SamplerDescriptor {
            mag_filter: FilterMode::Linear,
            min_filter: FilterMode::Linear,
            mipmap_filter: FilterMode::Linear,
        }
    }

    /// The input slots of the node: one, which carries the view entity.
    pub fn input(&self) -> (slots: Vec<SlotInfo>)
        ensures
            slots@.len() == 1,
            slots@[0].name@ == Self::IN_VIEW@,
            slots@[0].slot_type == SlotType::Entity,
    {
        let mut slots: Vec<SlotInfo> = Vec::new();
        slots.push(SlotInfo { name: Self::IN_VIEW, slot_type: SlotType::Entity });
        slots
    }

    /// The source texture whose bind group the cache holds.
    pub fn cached_source(&self) -> (cached: Option<TextureViewId>)
        ensures
            cached == self@,
    {
        self.cached_texture_bind_group
    }

    /// Decides where the bind group for a pass that reads `source` comes from,
    /// and leaves the cache holding `source`.
    pub fn bind_group(&mut self, source: TextureViewId) -> (from: BindGroupSource)
        ensures
            from == bind_group_for(old(self)@, source),
            final(self)@ == Some(source),
    {
        let from = match self.cached_texture_bind_group {
            Some(id) => {
                if id == source {
                    BindGroupSource::Cached
                } else {
                    BindGroupSource::Created
                }
            },
            None => BindGroupSource::Created,
        };
        self.cached_texture_bind_group = Some(source);
        from
    }

    /// Runs the node for one view in one frame and returns the passes to
    /// record, in order. `view` is `None` where the view has no record in this
    /// frame.
    pub fn run(&mut self, view: Option<&ViewRecord>) -> (passes: Vec<BlitPass>)
        ensures
            passes@ == frame_passes(old(self)@, record_of(view)),
            final(self)@ == cache_after(old(self)@, passes@),
            view is None ==> passes@.len() == 0 && final(self)@ == old(self)@,
            view matches Some(record) && !record.fxaa.enabled ==> passes@.len() == 0
                && final(self)@ == old(self)@,
            view matches Some(record) && !record.target.hdr ==> forall|i: int|
                0 <= i < passes@.len() ==> passes@[i].stage != Stage::ToLdr && passes@[i].pipeline
                    != PipelineVariant::ToLdr,
    {
        let mut passes: Vec<BlitPass> = Vec::new();
        let record = match view {
            Some(record) => record,
            None => {
                return passes;
            },
        };
        if !record.fxaa.enabled {
            return passes;
        }
        let mut target = record.target;
        if target.is_hdr() && record.pipelines.is_compiled(PipelineVariant::ToLdr) {
            let post_process = target.post_process_write();
            let bind_group = self.bind_group(post_process.source);
            passes.push(
                BlitPass {
                    stage: Stage::ToLdr,
                    pipeline: PipelineVariant::ToLdr,
                    source: post_process.source,
                    destination: post_process.destination,
                    bind_group,
                    vertices: 3,
                    instances: 1,
                },
            );
        }
        let fxaa = if target.is_hdr() {
            PipelineVariant::FxaaHdr
        } else {
            PipelineVariant::FxaaLdr
        };
        let pipeline = if record.pipelines.is_compiled(fxaa) {
            Some(fxaa)
        } else if record.pipelines.is_compiled(PipelineVariant::Blit) {
            Some(PipelineVariant::Blit)
        } else {
            None
        };
        if let Some(pipeline) = pipeline {
            let post_process = target.post_process_write();
            let bind_group = self.bind_group(post_process.source);
            passes.push(
                BlitPass {
                    stage: Stage::Fxaa,
                    pipeline,
                    source: post_process.source,
                    destination: post_process.destination,
                    bind_group,
                    vertices: 3,
                    instances: 1,
                },
            );
        }
        proof {
            assert(passes@ =~= frame_passes(old(self)@, record_of(view)));
        }
        passes
    }
}

/// A frame has at most two passes, drawn as one full-screen triangle each,
/// and the first of them reads the target's main texture. Where it has two,
/// the compression stage comes first, and the final stage reads what the
/// compression stage wrote and writes what it read. Where the target's two
/// textures differ, no pass writes the texture that it reads.
pub proof fn lemma_frame_ping_pong(cached: Option<TextureViewId>, record: ViewRecord)
    ensures
        frame_passes(cached, Some(record)).len() <= 2,
        forall|i: int|
            0 <= i < frame_passes(cached, Some(record)).len() ==> {
                let pass = #[trigger] frame_passes(cached, Some(record))[i];
                &&& pass.vertices == 3
                &&& pass.instances == 1
                &&& (record.target.main_texture != record.target.next_texture ==> pass.destination
                    != pass.source)
            },
        frame_passes(cached, Some(record)).len() >= 1 ==> frame_passes(
            cached,
            Some(record),
        )[0].source == record.target.main_texture,
        frame_passes(cached, Some(record)).len() == 2 ==> {
            let passes = frame_passes(cached, Some(record));
            &&& passes[0].stage == Stage::ToLdr
            &&& passes[1].stage == Stage::Fxaa
            &&& passes[1].source == passes[0].destination
            &&& passes[1].destination == passes[0].source
        },
{
}

/// Every pass of a frame writes the format of the view's textures, but for
/// the pass-through copy where it stands in for the anti-aliasing pipeline of
/// an HDR view: the compression pipeline and the anti-aliasing pipeline of an
/// HDR view write the HDR format, the anti-aliasing pipeline and the copy of
/// any other view write the display format.
pub proof fn lemma_pass_formats_match_view(cached: Option<TextureViewId>, record: ViewRecord)
    ensures
        record.fxaa_variant().spec_format() == TextureFormat::spec_of_view(record.target.hdr),
        record.fxaa_variant().spec_shader() == ShaderAsset::Fxaa,
        forall|i: int|
            0 <= i < frame_passes(cached, Some(record)).len() ==> {
                let pass = #[trigger] frame_passes(cached, Some(record))[i];
                pass.pipeline != PipelineVariant::Blit || !record.target.hdr
                    ==> pass.pipeline.spec_format() == TextureFormat::spec_of_view(
                    record.target.hdr,
                )
            },
{
}

/// What a frame draws does not depend on the frames before it. The cache
/// decides only where the bind group of a pass comes from; which passes run,
/// with which pipeline and between which textures, follows from the view's
/// record alone. A frame that ran no pass leaves nothing behind.
pub proof fn lemma_frame_ignores_history(
    one: Option<TextureViewId>,
    other: Option<TextureViewId>,
    view: Option<ViewRecord>,
)
    ensures
        frame_passes(one, view).len() == frame_passes(other, view).len(),
        forall|i: int|
            0 <= i < frame_passes(one, view).len() ==> {
                let a = #[trigger] frame_passes(one, view)[i];
                let b = frame_passes(other, view)[i];
                &&& a.stage == b.stage
                &&& a.pipeline == b.pipeline
                &&& a.source == b.source
                &&& a.destination == b.destination
                &&& a.vertices == b.vertices
                &&& a.instances == b.instances
            },
        frame_passes(one, view).len() == 0 ==> cache_after(one, frame_passes(one, view)) == one,
{
}

/// Whether a pass takes its bind group as the cache dictates, where the cache
/// holds the bind group of `previous` before the pass.
pub open spec fn binds_after(previous: Option<TextureViewId>, pass: BlitPass) -> bool {
    pass.bind_group == bind_group_for(previous, pass.source)
}

/// Whether each of the passes takes its bind group as the cache dictates: the
/// first with the cache as it is at the start, every other with the cache
/// holding the source of the pass before it.
pub open spec fn follows_cache(cached: Option<TextureViewId>, passes: Seq<BlitPass>) -> bool {
    &&& passes.len() > 0 ==> binds_after(cached, passes[0])
    &&& forall|i: int, j: int|
        0 <= i && j == i + 1 && j < passes.len() ==> #[trigger] binds_after(
            Some(passes[i].source),
            passes[j],
        )
}

/// The passes of one frame follow the cache.
proof fn lemma_frame_follows_cache(cached: Option<TextureViewId>, view: Option<ViewRecord>)
    ensures
        follows_cache(cached, frame_passes(cached, view)),
{
}

/// Two runs of passes that follow the cache, the second starting with the
/// cache as the first left it, follow the cache as one run.
proof fn lemma_follows_cache_concat(
    cached: Option<TextureViewId>,
    head: Seq<BlitPass>,
    rest: Seq<BlitPass>,
)
    requires
        follows_cache(cached, head),
        follows_cache(cache_after(cached, head), rest),
    ensures
        follows_cache(cached, head + rest),
{
    let all = head + rest;
    if all.len() > 0 {
        if head.len() > 0 {
            assert(all[0] == head[0]);
        } else {
            assert(all[0] == rest[0]);
        }
    }
    assert forall|i: int, j: int|
        0 <= i && j == i + 1 && j < all.len() implies #[trigger] binds_after(
        Some(all[i].source),
        all[j],
    ) by {
        if j < head.len() {
            assert(all[i] == head[i] && all[j] == head[j]);
            assert(binds_after(Some(head[i].source), head[j]));
        } else if i < head.len() {
            assert(all[i] == head.last() && all[j] == rest[0]);
            assert(binds_after(cache_after(cached, head), rest[0]));
        } else {
            assert(all[i] == rest[i - head.len()] && all[j] == rest[j - head.len()]);
            assert(binds_after(Some(rest[i - head.len()].source), rest[j - head.len()]));
        }
    }
}

/// The cache is never stale. Over any number of frames, a pass binds the
/// cached bind group exactly when the pass before it, in the same frame or in
/// an earlier one, read the same source texture; otherwise it creates one.
/// A change of the source texture, as after a resize, therefore always
/// creates a bind group, and an unchanged source never does.
pub proof fn lemma_cache_follows_sources(
    cached: Option<TextureViewId>,
    frames: Seq<Option<ViewRecord>>,
)
    ensures
        follows_cache(cached, frames_passes(cached, frames)),
    decreases frames.len(),
{
    if frames.len() > 0 {
        let head = frame_passes(cached, frames.first());
        let after = cache_after(cached, head);
        lemma_frame_follows_cache(cached, frames.first());
        lemma_cache_follows_sources(after, frames.drop_first());
        lemma_follows_cache_concat(cached, head, frames_passes(after, frames.drop_first()));
    }
}

/// Passes that follow the cache and all read the same source create at most
/// one bind group, and only the first of them can.
proof fn lemma_same_source_creates_once(
    cached: Option<TextureViewId>,
    passes: Seq<BlitPass>,
    source: TextureViewId,
)
    requires
        forall|i: int| 0 <= i < passes.len() ==> (#[trigger] passes[i]).source == source,
        follows_cache(cached, passes),
    ensures
        forall|i: int|
            1 <= i < passes.len() ==> (#[trigger] passes[i]).bind_group == BindGroupSource::Cached,
        passes.len() > 0 ==> passes[0].bind_group == bind_group_for(cached, source),
        created(passes) == (if passes.len() > 0 && cached != Some(source) {
            1nat
        } else {
            0nat
        }),
    decreases passes.len(),
{
    assert forall|i: int| 1 <= i < passes.len() implies (#[trigger] passes[i]).bind_group
        == BindGroupSource::Cached by {
        assert(passes[i - 1].source == source);
        assert(binds_after(Some(passes[i - 1].source), passes[i]));
    }
    if passes.len() > 1 {
        let front = passes.drop_last();
        assert forall|i: int| 0 <= i < front.len() implies (#[trigger] front[i]).source
            == source by {
            assert(front[i] == passes[i]);
        }
        assert(follows_cache(cached, front)) by {
            assert(front[0] == passes[0]);
            assert forall|i: int, j: int|
                0 <= i && j == i + 1 && j < front.len() implies #[trigger] binds_after(
                Some(front[i].source),
                front[j],
            ) by {
                assert(front[i] == passes[i] && front[j] == passes[j]);
                assert(binds_after(Some(passes[i].source), passes[j]));
            }
        }
        lemma_same_source_creates_once(cached, front, source);
        assert(passes.last().bind_group == BindGroupSource::Cached);
    } else if passes.len() == 1 {
        assert(passes.drop_last().len() == 0);
        assert(created(passes.drop_last()) == 0);
    }
}

/// Over any number of frames in which every pass reads the same source
/// texture, a bind group is created at most once: by the first pass, and only
/// where the cache does not hold that texture already. Every later pass binds
/// the cached one. A node that starts with an empty cache therefore creates
/// exactly one bind group, however many frames follow.
pub proof fn lemma_unchanged_source_creates_once(
    cached: Option<TextureViewId>,
    frames: Seq<Option<ViewRecord>>,
    source: TextureViewId,
)
    requires
        forall|i: int|
            0 <= i < frames_passes(cached, frames).len() ==> (#[trigger] frames_passes(
                cached,
                frames,
            )[i]).source == source,
    ensures
        forall|i: int|
            1 <= i < frames_passes(cached, frames).len() ==> (#[trigger] frames_passes(
                cached,
                frames,
            )[i]).bind_group == BindGroupSource::Cached,
        frames_passes(cached, frames).len() > 0 ==> frames_passes(cached, frames)[0].bind_group
            == bind_group_for(cached, source),
        created(frames_passes(cached, frames)) == (if frames_passes(cached, frames).len() > 0
            && cached != Some(source) {
            1nat
        } else {
            0nat
        }),
{
    lemma_cache_follows_sources(cached, frames);
    lemma_same_source_creates_once(cached, frames_passes(cached, frames), source);
}

} // verus!
