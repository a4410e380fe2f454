//! The per-frame preparation of the cameras: which intermediate textures to
//! request, which camera gets which, and the pipelines of each.

use crate::pipeline::{
    resolve_pipelines, FXAAPipelineBindGroup, PipelineDescriptors, TextureFormat,
};
use crate::settings::FXAA;
use crate::target_textures::{target_textures, target_textures_get_or_insert, target_textures_new};
use vstd::prelude::*;

verus! {

/// Describes an intermediate texture: two-dimensional, one layer, one mip
/// level, one sample per pixel.
#[derive(Clone, Copy, Debug, PartialEq, Eq, Structural)]
pub struct TextureDescriptor {
    pub width: u32,
    pub height: u32,
    pub depth_or_array_layers: u32,
    pub mip_level_count: u32,
    pub sample_count: u32,
    pub format: TextureFormat,
    /// The texture can be the color attachment of a pass.
    pub render_attachment: bool,
    /// The texture can be bound and sampled.
    pub texture_binding: bool,
}

impl TextureDescriptor {
    /// The intermediate texture of a view: as large as the camera's physical
    /// target, in the format of the view.
    pub open spec fn of_view(width: u32, height: u32, hdr: bool) -> TextureDescriptor {
        TextureDescriptor {
            width,
            height,
            depth_or_array_layers: 1,
            mip_level_count: 1,
            sample_count: 1,
            format: TextureFormat::spec_of_view(hdr),
            render_attachment: true,
            texture_binding: true,
        }
    }

    /// Describes the intermediate texture of a view whose target has the
    /// given size in physical pixels.
    pub fn for_view(width: u32, height: u32, hdr: bool) -> (descriptor: Self)
        ensures
            descriptor == Self::of_view(width, height, hdr),
    {
        TextureDescriptor {
            width,
            height,
            depth_or_array_layers: 1,
            mip_level_count: 1,
            sample_count: 1,
            format: TextureFormat::of_view(hdr),
            render_attachment: true,
            texture_binding: true,
        }
    }

    /// The label under which intermediate textures are requested.
    pub fn label() -> (label: &'static str)
        ensures
            label@ == "fxaa_view_target_texture"@,
    {
        "fxaa_view_target_texture"
    }
}

/// What the preparation reads of one camera in one frame.
#[derive(Clone, Copy, Debug, PartialEq, Eq)]
pub struct CameraView {
    /// The camera's entity.
    pub entity: u64,
    /// The identity of the render target. Cameras that render to the same
    /// target have equal identities.
    pub target: u64,
    /// Width and height of the target in physical pixels. `None` where the
    /// camera has no target in this frame.
    pub physical_target_size: Option<(u32, u32)>,
    /// Whether the view is HDR.
    pub hdr: bool,
    pub fxaa: FXAA,
}

impl CameraView {
    /// Whether the camera is prepared in this frame.
    pub open spec fn eligible(self) -> bool {
        self.physical_target_size is Some
    }

    /// The intermediate texture that this camera asks for.
    pub open spec fn texture(self) -> TextureDescriptor {
        TextureDescriptor::of_view(
            self.physical_target_size->Some_0.0,
            self.physical_target_size->Some_0.1,
            self.hdr,
        )
    }
}

/// The intermediate texture of a camera: the position of its request in
/// [`Preparation::textures`].
#[derive(Clone, Copy, Debug, PartialEq, Eq, Structural)]
pub struct FXAATexture {
    pub output: usize,
}

/// What is attached to a prepared camera.
#[derive(Clone, Debug, PartialEq, Eq)]
pub struct PreparedView {
    pub entity: u64,
    pub texture: FXAATexture,
    pub pipelines: PipelineDescriptors,
}

/// The outcome of preparing one frame.
#[derive(Clone, Debug, PartialEq, Eq)]
pub struct Preparation {
    /// The textures to request from the host's texture cache: one for each
    /// render target that a prepared camera renders to, in the order in which
    /// the targets first occur.
    pub textures: Vec<TextureDescriptor>,
    /// For each camera, in the order given, what to attach to it; `None` for
    /// a camera that is skipped.
    pub views: Vec<Option<PreparedView>>,
}

/// The first prepared camera among the first `n` that renders to `target`.
pub open spec fn first_user(views: Seq<CameraView>, target: u64, n: int) -> Option<int>
    decreases n,
{
    if n <= 0 {
        None
    } else {
        match first_user(views, target, n - 1) {
            Some(first) => Some(first),
            None => if views[n - 1].eligible() && views[n - 1].target == target {
                Some(n - 1)
            } else {
                None
            },
        }
    }
}

/// Whether camera `i` is prepared and no prepared camera before it renders to
/// its target.
pub open spec fn is_first_user(views: Seq<CameraView>, i: int) -> bool {
    views[i].eligible() && first_user(views, views[i].target, i) is None
}

/// The textures requested for the first `n` cameras: the request of each
/// camera that is the first user of its target, in order.
pub open spec fn requested_textures(views: Seq<CameraView>, n: int) -> Seq<TextureDescriptor>
    decreases n,
{
    if n <= 0 {
        Seq::empty()
    } else if is_first_user(views, n - 1) {
        requested_textures(views, n - 1).push(views[n - 1].texture())
    } else {
        requested_textures(views, n - 1)
    }
}

/// The camera whose request serves camera `i`: the first prepared camera
/// that renders to the target of camera `i`.
pub open spec fn texture_owner(views: Seq<CameraView>, i: int) -> int {
    match first_user(views, views[i].target, i) {
        Some(first) => first,
        None => i,
    }
}

/// The position, among the requested textures, of the texture of camera `i`:
/// that of the request made by the first user of the camera's target.
pub open spec fn texture_of(views: Seq<CameraView>, i: int) -> int {
    requested_textures(views, texture_owner(views, i)).len() as int
}

/// The requests only grow as more cameras are taken in.
proof fn lemma_requested_textures_grow(views: Seq<CameraView>, m: int, n: int)
    requires
        0 <= m <= n,
    ensures
        requested_textures(views, m).len() <= requested_textures(views, n).len(),
        requested_textures(views, n).len() <= n,
        forall|k: int|
            0 <= k < requested_textures(views, m).len() ==> requested_textures(views, m)[k]
                == requested_textures(views, n)[k],
    decreases n,
{
    if n > 0 {
        if m < n {
            lemma_requested_textures_grow(views, m, n - 1);
        } else {
            lemma_requested_textures_grow(views, m - 1, n - 1);
        }
    }
}

/// Prepares the cameras of one frame. A camera without a target size is
/// skipped. Every other camera gets the descriptors of its four pipelines,
/// derived from its settings as they are in this frame, and an intermediate
/// texture. Cameras that render to the same target share one texture: the
/// one requested for the first of them.
pub fn prepare_fxaa_texture(bind_group: &FXAAPipelineBindGroup, views: &Vec<CameraView>) -> (frame:
    Preparation)
    ensures
        frame.textures@ == requested_textures(views@, views@.len() as int),
        frame.views@.len() == views@.len(),
        forall|i: int|
            0 <= i < views@.len() ==> (#[trigger] frame.views@[i] is Some) == views@[i].eligible(),
        forall|i: int|
            0 <= i < views@.len() && views@[i].eligible() ==> {
                let prepared = (#[trigger] frame.views@[i])->Some_0;
                &&& prepared.entity == views@[i].entity
                &&& prepared.texture.output == texture_of(views@, i)
                &&& prepared.pipelines.describes(*bind_group, views@[i].fxaa)
            },
{
    let mut output_textures = target_textures_new();
    let mut textures: Vec<TextureDescriptor> = Vec::new();
    let mut prepared: Vec<Option<PreparedView>> = Vec::new();
    let mut n: usize = 0;
    while n < views.len()
        invariant
            n <= views@.len(),
            textures@ == requested_textures(views@, n as int),
            prepared@.len() == n,
            forall|target: u64| #[trigger]
                target_textures(output_textures).contains_key(target) == (first_user(
                    views@,
                    target,
                    n as int,
                ) is Some),
            forall|target: u64|
                first_user(views@, target, n as int) is Some ==> (#[trigger] target_textures(
                    output_textures,
                )[target]) as int == requested_textures(
                    views@,
                    first_user(views@, target, n as int)->Some_0,
                ).len() && 0 <= first_user(views@, target, n as int)->Some_0 < n
                    && is_first_user(views@, first_user(views@, target, n as int)->Some_0),
            forall|i: int|
                0 <= i < n ==> (#[trigger] prepared@[i] is Some) == views@[i].eligible(),
            forall|i: int|
                0 <= i < n && views@[i].eligible() ==> {
                    let done = (#[trigger] prepared@[i])->Some_0;
                    &&& done.entity == views@[i].entity
                    &&& done.texture.output == texture_of(views@, i)
                    &&& done.pipelines.describes(*bind_group, views@[i].fxaa)
                },
        decreases views@.len() - n,
    {
        let view = views[n];
        let ghost before = target_textures(output_textures);
        proof {
            lemma_requested_textures_grow(views@, n as int, n as int);
        }
        match view.physical_target_size {
            Some(physical_target_size) => {
                let texture_descriptor = TextureDescriptor::for_view(
                    physical_target_size.0,
                    physical_target_size.1,
                    view.hdr,
                );
                let output = target_textures_get_or_insert(
                    &mut output_textures,
                    view.target,
                    textures.len(),
                );
                proof {
                    if before.contains_key(view.target) {
                        let first = first_user(views@, view.target, n as int)->Some_0;
                        lemma_requested_textures_grow(views@, first, first + 1);
                        lemma_requested_textures_grow(views@, first + 1, n as int);
                    }
                }
                if output == textures.len() {
                    textures.push(texture_descriptor);
                }
                let pipelines = resolve_pipelines(bind_group, &view.fxaa);
                prepared.push(
                    Some(
                        PreparedView {
                            entity: view.entity,
                            texture: FXAATexture { output },
                            pipelines,
                        },
                    ),
                );
            },
            None => {
                prepared.push(None);
            },
        }
        proof {
            let after = target_textures(output_textures);
            assert forall|target: u64| first_user(views@, target, n + 1) is Some implies {
                let first = first_user(views@, target, n + 1)->Some_0;
                &&& (#[trigger] after[target]) as int == requested_textures(views@, first).len()
                &&& 0 <= first < n + 1
                &&& is_first_user(views@, first)
            } by {
                if first_user(views@, target, n as int) is Some {
                    assert(before.contains_key(target));
                    assert(after[target] == before[target]);
                } else {
                    assert(view.eligible() && target == view.target);
                    assert(first_user(views@, target, n + 1) == Some(n as int));
                }
            }
        }
        n = n + 1;
    }
    Preparation { textures, views: prepared }
}

/// What `first_user` finds is a prepared camera that renders to the target,
/// and the first such; where it finds none, there is none.
pub proof fn lemma_first_user(views: Seq<CameraView>, target: u64, n: int)
    ensures
        first_user(views, target, n) matches Some(first) ==> 0 <= first < n
            && views[first].eligible() && views[first].target == target && first_user(
            views,
            target,
            first,
        ) is None,
        first_user(views, target, n) is None ==> forall|j: int|
            0 <= j < n ==> !((#[trigger] views[j]).eligible() && views[j].target == target),
    decreases n,
{
    if n > 0 {
        lemma_first_user(views, target, n - 1);
    }
}

/// Once a target has a first user, it keeps it as more cameras are taken in.
proof fn lemma_first_user_stable(views: Seq<CameraView>, target: u64, m: int, n: int)
    requires
        0 <= m <= n,
        first_user(views, target, m) is Some,
    ensures
        first_user(views, target, n) == first_user(views, target, m),
    decreases n,
{
    if m < n {
        lemma_first_user_stable(views, target, m, n - 1);
    }
}

/// The owner of a prepared camera's texture is a prepared camera at or before
/// it, renders to the same target, and is the first user of that target.
pub proof fn lemma_texture_owner(views: Seq<CameraView>, i: int)
    requires
        0 <= i < views.len(),
        views[i].eligible(),
    ensures
        0 <= texture_owner(views, i) <= i,
        is_first_user(views, texture_owner(views, i)),
        views[texture_owner(views, i)].target == views[i].target,
        first_user(views, views[i].target, i + 1) == Some(texture_owner(views, i)),
{
    lemma_first_user(views, views[i].target, i);
}

/// One intermediate texture per render target and frame: two prepared
/// cameras get the same texture exactly when they render to the same target.
pub proof fn lemma_one_texture_per_target(views: Seq<CameraView>, i: int, j: int)
    requires
        0 <= i < views.len(),
        0 <= j < views.len(),
        views[i].eligible(),
        views[j].eligible(),
    ensures
        texture_of(views, i) == texture_of(views, j) <==> views[i].target == views[j].target,
{
    lemma_texture_owner(views, i);
    lemma_texture_owner(views, j);
    let a = texture_owner(views, i);
    let b = texture_owner(views, j);
    if views[i].target == views[j].target {
        if i <= j {
            lemma_first_user_stable(views, views[i].target, i + 1, j + 1);
        } else {
            lemma_first_user_stable(views, views[i].target, j + 1, i + 1);
        }
    } else {
        if a < b {
            lemma_requested_textures_grow(views, a + 1, b);
        } else {
            lemma_requested_textures_grow(views, b + 1, a);
        }
    }
}

/// The texture of a prepared camera is among those requested, and is the one
/// that the first user of the camera's target asked for.
pub proof fn lemma_texture_is_owners_request(views: Seq<CameraView>, i: int)
    requires
        0 <= i < views.len(),
        views[i].eligible(),
    ensures
        0 <= texture_of(views, i) < requested_textures(views, views.len() as int).len(),
        requested_textures(views, views.len() as int)[texture_of(views, i)] == views[texture_owner(
            views,
            i,
        )].texture(),
{
    lemma_texture_owner(views, i);
    let owner = texture_owner(views, i);
    lemma_requested_textures_grow(views, owner + 1, views.len() as int);
}

/// No texture is requested in vain: each requested texture is the texture of
/// a prepared camera.
pub proof fn lemma_every_texture_used(views: Seq<CameraView>, n: int, k: int)
    requires
        0 <= n <= views.len(),
        0 <= k < requested_textures(views, n).len(),
    ensures
        exists|i: int|
            0 <= i < n && (#[trigger] views[i]).eligible() && texture_of(views, i) == k,
    decreases n,
{
    if n > 0 {
        if is_first_user(views, n - 1) && k == requested_textures(views, n - 1).len() {
            assert(views[n - 1].eligible() && texture_of(views, n - 1) == k);
        } else {
            lemma_every_texture_used(views, n - 1, k);
            let i = choose|i: int|
                0 <= i < n - 1 && (#[trigger] views[i]).eligible() && texture_of(views, i) == k;
            assert(0 <= i < n && views[i].eligible() && texture_of(views, i) == k);
        }
    }
}

/// The intermediate texture that a camera asks for has the size of the
/// camera's target and the format of its view. Two requests are the same
/// exactly when size and dynamic range are: a resize or a switch of the HDR
/// mode changes the request, and nothing else does.
pub proof fn lemma_texture_follows_view(one: CameraView, other: CameraView)
    requires
        one.eligible(),
        other.eligible(),
    ensures
        one.texture().width == one.physical_target_size->Some_0.0,
        one.texture().height == one.physical_target_size->Some_0.1,
        one.texture().format == TextureFormat::spec_of_view(one.hdr),
        one.texture() == other.texture() <==> (one.physical_target_size
            == other.physical_target_size && one.hdr == other.hdr),
{
}

/// After a resize, a camera that is the first on its target gets a texture of
/// the new size: what is requested for it in the frame at hand is what it
/// asks for now, and differs from what it asked for before the resize.
pub proof fn lemma_resize_requests_new_texture(
    before: CameraView,
    views: Seq<CameraView>,
    i: int,
)
    requires
        0 <= i < views.len(),
        before.eligible(),
        views[i].eligible(),
        is_first_user(views, i),
        before.physical_target_size != views[i].physical_target_size,
    ensures
        requested_textures(views, views.len() as int)[texture_of(views, i)] == views[i].texture(),
        views[i].texture().width == views[i].physical_target_size->Some_0.0,
        views[i].texture().height == views[i].physical_target_size->Some_0.1,
        views[i].texture() != before.texture(),
{
    lemma_texture_is_owners_request(views, i);
    lemma_texture_follows_view(views[i], before);
}

} // verus!
