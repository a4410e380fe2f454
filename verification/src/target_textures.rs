//! The map from render targets to intermediate textures that the preparation
//! of a frame fills. The map is the engine's hash map; what is said of it
//! here is taken from its source, not proved.

use vstd::prelude::*;

verus! {

/// The intermediate textures handed out in the current frame: for each render
/// target seen so far, the position of its texture among the requests. It
/// lives for one frame, in a `bevy::utils::HashMap`.
#[verifier::external_body]
pub struct TargetTextures {
    map: bevy::utils::HashMap<u64, usize>,
}

/// What a [`TargetTextures`] holds.
pub uninterp spec fn target_textures(pool: TargetTextures) -> Map<u64, usize>;

/// `bevy::utils::HashMap::default`: a new map holds nothing.
#[verifier::external_body]
pub(crate) fn target_textures_new() -> (pool: TargetTextures)
    ensures
        target_textures(pool) == (Map::<u64, usize>::empty()),
{
    TargetTextures { map: bevy::utils::HashMap::default() }
}

/// `entry(target).or_insert(texture)` of `bevy::utils::HashMap`: where the
/// map holds `target`, its value is returned and the map stays as it is;
/// where it does not, `texture` is inserted under `target` and returned.
#[verifier::external_body]
pub(crate) fn target_textures_get_or_insert(
    pool: &mut TargetTextures,
    target: u64,
    texture: usize,
) -> (found: usize)
    ensures
        found == (if target_textures(*old(pool)).contains_key(target) {
            target_textures(*old(pool))[target]
        } else {
            texture
        }),
        target_textures(*final(pool)) == (if target_textures(*old(pool)).contains_key(target) {
            target_textures(*old(pool))
        } else {
            target_textures(*old(pool)).insert(target, texture)
        }),
{
    *pool.map.entry(target).or_insert(texture)
}

} // verus!
