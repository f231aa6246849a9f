use bevy_gpu_compute::iteration::{GpuWorkgroupSizes, GpuWorkgroupSpace, IterationSpace};

#[test]
fn dimensions_follow_the_extents() {
    assert_eq!(IterationSpace::new(30, 20, 1).num_dimmensions(), 2);
    assert_eq!(IterationSpace::new(30, 1, 1).num_dimmensions(), 1);
    assert_eq!(IterationSpace::new(1, 1, 2).num_dimmensions(), 3);
    assert_eq!(IterationSpace::new(1, 5, 7).num_dimmensions(), 3);
    assert_eq!(IterationSpace::new(1, 1, 1).num_dimmensions(), 1);
}

#[test]
fn workgroup_sizes_per_dimension() {
    let one = GpuWorkgroupSizes::from_iter_space(&IterationSpace::new(1000, 1, 1));
    assert_eq!((one.x(), one.y(), one.z(), one.num_dimmensions()), (64, 1, 1, 1));
    let two = GpuWorkgroupSizes::from_iter_space(&IterationSpace::new(10, 10, 1));
    assert_eq!((two.x(), two.y(), two.z(), two.num_dimmensions()), (8, 8, 1, 2));
    let three = GpuWorkgroupSizes::from_iter_space(&IterationSpace::new(10, 10, 10));
    assert_eq!((three.x(), three.y(), three.z(), three.num_dimmensions()), (4, 4, 4, 3));
}

#[test]
fn workgroup_space_rounds_up() {
    let it = IterationSpace::new(65, 1, 1);
    let wg = GpuWorkgroupSizes::from_iter_space(&it);
    let space = GpuWorkgroupSpace::from_iter_space_and_wrkgrp_sizes(&it, &wg);
    assert_eq!((space.x, space.y, space.z), (2, 1, 1));
    let it = IterationSpace::new(64, 1, 1);
    let space = GpuWorkgroupSpace::from_iter_space_and_wrkgrp_sizes(&it, &wg);
    assert_eq!((space.x, space.y, space.z), (1, 1, 1));
    let it = IterationSpace::new(9, 17, 5);
    let wg = GpuWorkgroupSizes::from_iter_space(&it);
    let space = GpuWorkgroupSpace::from_iter_space_and_wrkgrp_sizes(&it, &wg);
    assert_eq!((space.x, space.y, space.z), (3, 5, 2));
}

#[test]
fn try_new_refuses_empty_extents() {
    assert!(IterationSpace::try_new(0, 1, 1).is_none());
    assert!(IterationSpace::try_new(1, 0, 1).is_none());
    assert!(IterationSpace::try_new(1, 1, 0).is_none());
    let s = IterationSpace::try_new(3, 2, 1).unwrap();
    assert_eq!((s.x(), s.y(), s.z(), s.num_dimmensions()), (3, 2, 1, 2));
}
