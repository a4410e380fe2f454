//! The pipelines of the effect: the shaders they run, the layout they share,
//! the four variants, and the descriptors from which the host compiles them.
//!
//! Compiling is the host's work and is deferred. The library builds the
//! descriptors; the host queues them, hands back an identifier for each, and
//! says at any later time which identifiers stand for a compiled pipeline.

use crate::settings::{lemma_toggle_names_injective, FXAA};
use vstd::prelude::*;
use vstd::string::StringExecFns;

verus! {

/// The three fragment shaders. Their code is an asset of the host; the
/// library knows them by the identifiers under which they are registered.
#[derive(Clone, Copy, Debug, PartialEq, Eq, Structural)]
pub enum ShaderAsset {
    /// Compresses HDR colors into the displayable range.
    ToLdr,
    /// Smooths edges. Accepts the toggles derived from the settings, and
    /// `TONEMAP`.
    Fxaa,
    /// Copies its input.
    Blit,
}

/// The identifier of the compression shader.
pub const LDR_SHADER_HANDLE: u64 = 3212361765414793412;

/// The identifier of the anti-aliasing shader.
pub const FXAA_SHADER_HANDLE: u64 = 2982361765441723543;

/// The identifier of the copying shader.
pub const BLIT_SHADER_HANDLE: u64 = 2082981732578979433;

impl ShaderAsset {
    /// The identifier of each shader.
    pub open spec fn spec_handle(&self) -> u64 {
        match self {
            ShaderAsset::ToLdr => LDR_SHADER_HANDLE,
            ShaderAsset::Fxaa => FXAA_SHADER_HANDLE,
            ShaderAsset::Blit => BLIT_SHADER_HANDLE,
        }
    }

    /// The identifier under which the shader is registered with the host.
    #[verifier::when_used_as_spec(spec_handle)]
    pub fn handle(&self) -> (id: u64)
        ensures
            id == self.spec_handle(),
    {
        match self {
            ShaderAsset::ToLdr => LDR_SHADER_HANDLE,
            ShaderAsset::Fxaa => FXAA_SHADER_HANDLE,
            ShaderAsset::Blit => BLIT_SHADER_HANDLE,
        }
    }
}

/// The two color formats that a pass can write. Which concrete formats they
/// are is the host's choice.
#[derive(Clone, Copy, Debug, PartialEq, Eq, Structural)]
pub enum TextureFormat {
    /// The floating-point format of HDR views.
    Hdr,
    /// The format in which the host displays.
    DisplayDefault,
}

impl TextureFormat {
    /// The format of the textures of a view: the HDR format for an HDR view,
    /// the display format for any other.
    pub open spec fn spec_of_view(hdr: bool) -> TextureFormat {
        if hdr {
            TextureFormat::Hdr
        } else {
            TextureFormat::DisplayDefault
        }
    }

    /// The format of a view's textures.
    #[verifier::when_used_as_spec(spec_of_view)]
    pub fn of_view(hdr: bool) -> (format: TextureFormat)
        ensures
            format == Self::spec_of_view(hdr),
    {
        if hdr {
            TextureFormat::Hdr
        } else {
            TextureFormat::DisplayDefault
        }
    }
}

/// The shader stage to which a binding is visible.
#[derive(Clone, Copy, Debug, PartialEq, Eq, Structural)]
pub enum ShaderStage {
    Vertex,
    Fragment,
    Compute,
}

/// What a binding binds.
#[derive(Clone, Copy, Debug, PartialEq, Eq, Structural)]
pub enum BindingType {
    /// A sampled two-dimensional texture of floats.
    Texture { filterable: bool, multisampled: bool },
    /// A sampler.
    Sampler { filtering: bool },
}

/// One binding of a bind group layout.
#[derive(Clone, Copy, Debug, PartialEq, Eq, Structural)]
pub struct BindGroupLayoutEntry {
    pub binding: u32,
    pub visibility: ShaderStage,
    pub ty: BindingType,
}

/// The bind group layout that all pipeline variants share. It declares
/// exactly two bindings: the source texture and its sampler.
#[derive(Clone, Copy, Debug, PartialEq, Eq, Structural)]
pub struct FXAAPipelineBindGroup {
    pub texture: BindGroupLayoutEntry,
    pub sampler: BindGroupLayoutEntry,
}

impl FXAAPipelineBindGroup {
    /// The layout: at binding 0 a filterable, single-sampled float texture,
    /// at binding 1 a filtering sampler, both visible to the fragment stage.
    pub open spec fn layout() -> FXAAPipelineBindGroup {
        FXAAPipelineBindGroup {
            texture: BindGroupLayoutEntry {
                binding: 0,
                visibility: ShaderStage::Fragment,
                ty: BindingType::Texture { filterable: true, multisampled: false },
            },
            sampler: BindGroupLayoutEntry {
                binding: 1,
                visibility: ShaderStage::Fragment,
                ty: BindingType::Sampler { filtering: true },
            },
        }
    }

    /// Describes the layout. It is built once, when the effect is set up.
    pub fn new() -> (layout: Self)
        ensures
            layout == Self::layout(),
    {
        FXAAPipelineBindGroup {
            texture: BindGroupLayoutEntry {
                binding: 0,
                visibility: ShaderStage::Fragment,
                ty: BindingType::Texture { filterable: true, multisampled: false },
            },
            sampler: BindGroupLayoutEntry {
                binding: 1,
                visibility: ShaderStage::Fragment,
                ty: BindingType::Sampler { filtering: true },
            },
        }
    }

    /// The label under which the layout is created.
    pub fn label() -> (label: &'static str)
        ensures
            label@ == "fxaa_texture_bind_group_layout"@,
    {
        "fxaa_texture_bind_group_layout"
    }
}

/// The four pipelines that a view may need.
#[derive(Clone, Copy, Debug, PartialEq, Eq, Structural)]
pub enum PipelineVariant {
    /// The anti-aliasing pass, writing the display format.
    FxaaLdr,
    /// The anti-aliasing pass, writing the HDR format.
    FxaaHdr,
    /// The compression of HDR colors into the displayable range. It reads
    /// and writes the HDR format.
    ToLdr,
    /// The pass-through copy, writing the display format.
    Blit,
}

impl PipelineVariant {
    /// The fragment shader of each variant.
    pub open spec fn spec_shader(&self) -> ShaderAsset {
        match self {
            PipelineVariant::FxaaLdr => ShaderAsset::Fxaa,
            PipelineVariant::FxaaHdr => ShaderAsset::Fxaa,
            PipelineVariant::ToLdr => ShaderAsset::ToLdr,
            PipelineVariant::Blit => ShaderAsset::Blit,
        }
    }

    /// The fragment shader of the variant.
    #[verifier::when_used_as_spec(spec_shader)]
    pub fn shader(&self) -> (shader: ShaderAsset)
        ensures
            shader == self.spec_shader(),
    {
        match self {
            PipelineVariant::FxaaLdr => ShaderAsset::Fxaa,
            PipelineVariant::FxaaHdr => ShaderAsset::Fxaa,
            PipelineVariant::ToLdr => ShaderAsset::ToLdr,
            PipelineVariant::Blit => ShaderAsset::Blit,
        }
    }

    /// The format of the color target of each variant.
    pub open spec fn spec_format(&self) -> TextureFormat {
        match self {
            PipelineVariant::FxaaLdr => TextureFormat::DisplayDefault,
            PipelineVariant::FxaaHdr => TextureFormat::Hdr,
            PipelineVariant::ToLdr => TextureFormat::Hdr,
            PipelineVariant::Blit => TextureFormat::DisplayDefault,
        }
    }

    /// The format of the color target that the variant writes.
    #[verifier::when_used_as_spec(spec_format)]
    pub fn format(&self) -> (format: TextureFormat)
        ensures
            format == self.spec_format(),
    {
        match self {
            PipelineVariant::FxaaLdr => TextureFormat::DisplayDefault,
            PipelineVariant::FxaaHdr => TextureFormat::Hdr,
            PipelineVariant::ToLdr => TextureFormat::Hdr,
            PipelineVariant::Blit => TextureFormat::DisplayDefault,
        }
    }

    /// The label of the pipeline of each variant.
    pub open spec fn spec_label(&self) -> Seq<char> {
        match self {
            PipelineVariant::FxaaLdr => "fxaa ldr pipeline"@,
            PipelineVariant::FxaaHdr => "fxaa hdr pipeline"@,
            PipelineVariant::ToLdr => "to ldr pipeline"@,
            PipelineVariant::Blit => "blit pipeline"@,
        }
    }

    /// The label of the variant's pipeline.
    pub fn label(&self) -> (label: &'static str)
        ensures
            label@ == self.spec_label(),
    {
        match self {
            PipelineVariant::FxaaLdr => "fxaa ldr pipeline",
            PipelineVariant::FxaaHdr => "fxaa hdr pipeline",
            PipelineVariant::ToLdr => "to ldr pipeline",
            PipelineVariant::Blit => "blit pipeline",
        }
    }
}

/// One value per pipeline variant: for a camera, the identifiers under which
/// the host's pipeline cache has queued its four pipelines.
#[derive(Debug, PartialEq, Eq)]
pub struct FXAAPipelines<Id> {
    pub fxaa_ldr_pipeline_id: Id,
    pub fxaa_hdr_pipeline_id: Id,
    pub to_ldr_pipeline_id: Id,
    pub blit_pipeline_id: Id,
}

impl<Id> FXAAPipelines<Id> {
    /// The identifier of each variant.
    pub open spec fn spec_get(self, variant: PipelineVariant) -> Id {
        match variant {
            PipelineVariant::FxaaLdr => self.fxaa_ldr_pipeline_id,
            PipelineVariant::FxaaHdr => self.fxaa_hdr_pipeline_id,
            PipelineVariant::ToLdr => self.to_ldr_pipeline_id,
            PipelineVariant::Blit => self.blit_pipeline_id,
        }
    }

    /// The identifier of one variant.
    pub fn get(&self, variant: PipelineVariant) -> (id: &Id)
        ensures
            *id == self.spec_get(variant),
    {
        match variant {
            PipelineVariant::FxaaLdr => &self.fxaa_ldr_pipeline_id,
            PipelineVariant::FxaaHdr => &self.fxaa_hdr_pipeline_id,
            PipelineVariant::ToLdr => &self.to_ldr_pipeline_id,
            PipelineVariant::Blit => &self.blit_pipeline_id,
        }
    }
}

/// Which of a camera's pipeline identifiers resolve to a compiled pipeline at
/// the time the frame node runs. Compilation is deferred by the host, so any
/// of them may still be pending.
#[derive(Clone, Copy, Debug, PartialEq, Eq, Structural)]
pub struct CompiledPipelines {
    pub fxaa_ldr: bool,
    pub fxaa_hdr: bool,
    pub to_ldr: bool,
    pub blit: bool,
}

impl CompiledPipelines {
    /// Whether each variant is compiled.
    pub open spec fn spec_is_compiled(&self, variant: PipelineVariant) -> bool {
        match variant {
            PipelineVariant::FxaaLdr => self.fxaa_ldr,
            PipelineVariant::FxaaHdr => self.fxaa_hdr,
            PipelineVariant::ToLdr => self.to_ldr,
            PipelineVariant::Blit => self.blit,
        }
    }

    /// Whether the pipeline of one variant is compiled.
    #[verifier::when_used_as_spec(spec_is_compiled)]
    pub fn is_compiled(&self, variant: PipelineVariant) -> (compiled: bool)
        ensures
            compiled == self.spec_is_compiled(variant),
    {
        match variant {
            PipelineVariant::FxaaLdr => self.fxaa_ldr,
            PipelineVariant::FxaaHdr => self.fxaa_hdr,
            PipelineVariant::ToLdr => self.to_ldr,
            PipelineVariant::Blit => self.blit,
        }
    }
}

/// Describes a pipeline that draws one full-screen triangle: the vertex stage
/// takes no buffers and emits the three vertices itself, the fragment stage
/// runs `entry_point` of `shader` with `shader_defs` defined and writes one
/// color target of `format`, all channels, without blending. There is no
/// depth or stencil state, and a single sample per pixel.
#[derive(Clone, Debug, PartialEq, Eq)]
pub struct RenderPipelineDescriptor {
    pub label: &'static str,
    pub layout: FXAAPipelineBindGroup,
    pub shader: ShaderAsset,
    pub shader_defs: Vec<String>,
    pub entry_point: &'static str,
    pub format: TextureFormat,
}

/// What a pipeline descriptor says.
pub struct RenderPipelineModel {
    pub label: Seq<char>,
    pub layout: FXAAPipelineBindGroup,
    pub shader: ShaderAsset,
    pub shader_defs: Seq<Seq<char>>,
    pub entry_point: Seq<char>,
    pub format: TextureFormat,
}

impl View for RenderPipelineDescriptor {
    type V = RenderPipelineModel;

    open spec fn view(&self) -> RenderPipelineModel {
        RenderPipelineModel {
            label: self.label@,
            layout: self.layout,
            shader: self.shader,
            shader_defs: self.shader_defs.deep_view(),
            entry_point: self.entry_point@,
            format: self.format,
        }
    }
}

/// Describes the full-screen pipeline with the given label, layout, fragment
/// shader, shader definitions, entry point and target format.
pub fn fullscreen_vertex_pipeline_descriptor(
    label: &'static str,
    bind_group_layout: &FXAAPipelineBindGroup,
    shader: ShaderAsset,
    shader_defs: Vec<String>,
    entry_point: &'static str,
    format: TextureFormat,
) -> (descriptor: RenderPipelineDescriptor)
    ensures
        descriptor@ == (RenderPipelineModel {
            label: label@,
            layout: *bind_group_layout,
            shader,
            shader_defs: shader_defs.deep_view(),
            entry_point: entry_point@,
            format,
        }),
{
    RenderPipelineDescriptor {
        label,
        layout: *bind_group_layout,
        shader,
        shader_defs,
        entry_point,
        format,
    }
}

/// The shader definitions of a variant: the anti-aliasing variants take the
/// toggles of the settings, the HDR one `TONEMAP` besides; the other two
/// take none.
pub open spec fn variant_defs(variant: PipelineVariant, fxaa: FXAA) -> Seq<Seq<char>> {
    match variant {
        PipelineVariant::FxaaLdr => fxaa.toggle_names(),
        PipelineVariant::FxaaHdr => fxaa.toggle_names().push("TONEMAP"@),
        PipelineVariant::ToLdr => Seq::empty(),
        PipelineVariant::Blit => Seq::empty(),
    }
}

/// The descriptor of a variant for a camera with the settings `fxaa`.
pub open spec fn pipeline_model(
    layout: FXAAPipelineBindGroup,
    variant: PipelineVariant,
    fxaa: FXAA,
) -> RenderPipelineModel {
    RenderPipelineModel {
        label: variant.spec_label(),
        layout,
        shader: variant.spec_shader(),
        shader_defs: variant_defs(variant, fxaa),
        entry_point: "fs_main"@,
        format: variant.spec_format(),
    }
}

/// The descriptors of a camera's four pipelines, ready to be queued.
#[derive(Clone, Debug, PartialEq, Eq)]
pub struct PipelineDescriptors {
    pub fxaa_ldr: RenderPipelineDescriptor,
    pub fxaa_hdr: RenderPipelineDescriptor,
    pub to_ldr: RenderPipelineDescriptor,
    pub blit: RenderPipelineDescriptor,
}

impl PipelineDescriptors {
    /// Whether these are the descriptors of a camera with the settings `fxaa`.
    pub open spec fn describes(self, layout: FXAAPipelineBindGroup, fxaa: FXAA) -> bool {
        &&& self.fxaa_ldr@ == pipeline_model(layout, PipelineVariant::FxaaLdr, fxaa)
        &&& self.fxaa_hdr@ == pipeline_model(layout, PipelineVariant::FxaaHdr, fxaa)
        &&& self.to_ldr@ == pipeline_model(layout, PipelineVariant::ToLdr, fxaa)
        &&& self.blit@ == pipeline_model(layout, PipelineVariant::Blit, fxaa)
    }
}

/// Builds the descriptors of the four pipelines of a camera, all from the
/// same settings.
pub fn resolve_pipelines(bind_group: &FXAAPipelineBindGroup, fxaa: &FXAA) -> (descriptors:
    PipelineDescriptors)
    ensures
        descriptors.describes(*bind_group, *fxaa),
{
    let shader_defs = fxaa.get_settings();
    let fxaa_ldr = fullscreen_vertex_pipeline_descriptor(
        PipelineVariant::FxaaLdr.label(),
        bind_group,
        PipelineVariant::FxaaLdr.shader(),
        shader_defs,
        "fs_main",
        PipelineVariant::FxaaLdr.format(),
    );
    let mut shader_defs = fxaa.get_settings();
    shader_defs.push(String::from_str("TONEMAP"));
    proof {
        assert(shader_defs.deep_view() =~= variant_defs(PipelineVariant::FxaaHdr, *fxaa));
    }
    let fxaa_hdr = fullscreen_vertex_pipeline_descriptor(
        PipelineVariant::FxaaHdr.label(),
        bind_group,
        PipelineVariant::FxaaHdr.shader(),
        shader_defs,
        "fs_main",
        PipelineVariant::FxaaHdr.format(),
    );
    let no_defs: Vec<String> = Vec::new();
    proof {
        assert(no_defs.deep_view() =~= Seq::<Seq<char>>::empty());
    }
    let to_ldr = fullscreen_vertex_pipeline_descriptor(
        PipelineVariant::ToLdr.label(),
        bind_group,
        PipelineVariant::ToLdr.shader(),
        no_defs,
        "fs_main",
        PipelineVariant::ToLdr.format(),
    );
    let no_defs: Vec<String> = Vec::new();
    proof {
        assert(no_defs.deep_view() =~= Seq::<Seq<char>>::empty());
    }
    let blit = fullscreen_vertex_pipeline_descriptor(
        PipelineVariant::Blit.label(),
        bind_group,
        PipelineVariant::Blit.shader(),
        no_defs,
        "fs_main",
        PipelineVariant::Blit.format(),
    );
    PipelineDescriptors { fxaa_ldr, fxaa_hdr, to_ldr, blit }
}

/// The descriptors of the two anti-aliasing pipelines change exactly when one
/// of the two tiers changes; those of the other two pipelines never do. All
/// four share the layout, and each writes the format of its variant.
pub proof fn lemma_pipelines_follow_settings(
    layout: FXAAPipelineBindGroup,
    variant: PipelineVariant,
    a: FXAA,
    b: FXAA,
)
    ensures
        pipeline_model(layout, variant, a).layout == layout,
        pipeline_model(layout, variant, a).format == variant.spec_format(),
        (variant == PipelineVariant::FxaaLdr || variant == PipelineVariant::FxaaHdr) ==> (
        pipeline_model(layout, variant, a) == pipeline_model(layout, variant, b) <==> (
        a.edge_threshold == b.edge_threshold && a.edge_threshold_min == b.edge_threshold_min)),
        (variant == PipelineVariant::ToLdr || variant == PipelineVariant::Blit) ==> pipeline_model(
            layout,
            variant,
            a,
        ) == pipeline_model(layout, variant, b),
{
    lemma_toggle_names_injective(a, b);
    if variant == PipelineVariant::FxaaHdr {
        let defs_a = variant_defs(variant, a);
        let defs_b = variant_defs(variant, b);
        if defs_a == defs_b {
            assert(a.toggle_names() =~= defs_a.drop_last());
            assert(b.toggle_names() =~= defs_b.drop_last());
        }
    }
}

} // verus!
