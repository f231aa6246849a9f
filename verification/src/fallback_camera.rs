//! The fallback camera. GPU performance drops sharply when no window or camera is spawned, so
//! when the application has no camera the plugin spawns one, and it removes its own cameras
//! again once more than one camera exists.
use vstd::prelude::*;

verus! {

/// Marks the camera that the plugin spawned.
pub struct BevyGpuComputeFallbackCamera;

/// What the fallback-camera system does in a frame.
#[derive(Clone, Copy, Debug, PartialEq, Eq, Structural)]
pub enum FallbackCameraAction {
    /// Spawn a fallback camera.
    Spawn,
    /// Leave the cameras as they are.
    Nothing,
    /// Despawn every fallback camera.
    DespawnFallbacks,
}

/// The action for a frame with `num_cameras` cameras, `num_fallback_cameras` of them spawned by
/// the plugin: spawn one when there is none, keep a single camera, and with several cameras
/// despawn the fallback ones, if any.
pub fn fallback_camera_action(num_cameras: usize, num_fallback_cameras: usize) -> (r: FallbackCameraAction)
    ensures
        r == FallbackCameraAction::Spawn <==> num_cameras == 0,
        r == FallbackCameraAction::DespawnFallbacks <==> num_cameras >= 2 && num_fallback_cameras > 0,
        r == FallbackCameraAction::Nothing <==> num_cameras == 1 || (num_cameras >= 2 && num_fallback_cameras == 0),
{
    if num_cameras == 0 {
        FallbackCameraAction::Spawn
    } else if num_cameras == 1 {
        FallbackCameraAction::Nothing
    } else if num_fallback_cameras > 0 {
        FallbackCameraAction::DespawnFallbacks
    } else {
        FallbackCameraAction::Nothing
    }
}

/// The number of cameras after `action`, starting from `user` cameras of the application and
/// `fallback` cameras of the plugin.
pub open spec fn cameras_after(user: nat, fallback: nat, action: FallbackCameraAction) -> nat {
    match action {
        FallbackCameraAction::Spawn => user + fallback + 1,
        FallbackCameraAction::Nothing => user + fallback,
        FallbackCameraAction::DespawnFallbacks => user,
    }
}

/// The fallback-camera system never despawns a camera of the application, and after it runs
/// there is a camera whenever the application has one or there was none at all.
pub proof fn lemma_fallback_keeps_a_camera(user: nat, fallback: nat, action: FallbackCameraAction)
    requires
        action == FallbackCameraAction::Spawn <==> user + fallback == 0,
        action == FallbackCameraAction::DespawnFallbacks <==> user + fallback >= 2 && fallback > 0,
        !(user == 0 && fallback >= 2),
    ensures
        cameras_after(user, fallback, action) >= user,
        cameras_after(user, fallback, action) >= 1,
{
}

} // verus!
