use bevy_gpu_compute::fallback_camera::{fallback_camera_action, FallbackCameraAction};
use bevy_gpu_compute::lengths::LengthTable;
use bevy_gpu_compute::plugin::{BevyGpuComputePlugin, BevyGpuComputeState};
use bevy_gpu_compute::task_deleter::find_task_by_name;

#[test]
fn plugin_schedules() {
    assert!(BevyGpuComputePlugin::default().with_default_schedule());
    assert!(!BevyGpuComputePlugin::no_default_schedule().with_default_schedule());
    assert_eq!(BevyGpuComputeState::default(), BevyGpuComputeState::Running);
}

#[test]
fn fallback_camera_actions() {
    assert_eq!(fallback_camera_action(0, 0), FallbackCameraAction::Spawn);
    assert_eq!(fallback_camera_action(1, 1), FallbackCameraAction::Nothing);
    assert_eq!(fallback_camera_action(1, 0), FallbackCameraAction::Nothing);
    assert_eq!(fallback_camera_action(2, 1), FallbackCameraAction::DespawnFallbacks);
    assert_eq!(fallback_camera_action(3, 0), FallbackCameraAction::Nothing);
}

#[test]
fn find_task_picks_the_first_match() {
    let names = vec!["a".to_string(), "b".to_string(), "b".to_string()];
    assert_eq!(find_task_by_name(&names, "b"), Some(1));
    assert_eq!(find_task_by_name(&names, "a"), Some(0));
    assert_eq!(find_task_by_name(&names, "c"), None);
    assert_eq!(find_task_by_name(&Vec::new(), "a"), None);
}

#[test]
fn length_table_set_and_get() {
    let mut t = LengthTable::new();
    assert_eq!(t.get("x"), None);
    assert!(!t.contains("x"));
    t.set("x", 3);
    t.set("y", 4);
    t.set("x", 5);
    assert_eq!(t.get("x"), Some(5));
    assert_eq!(t.get_by_name("y"), 4);
    assert!(t.contains("y"));
    assert_eq!(t.get("z"), None);
}
