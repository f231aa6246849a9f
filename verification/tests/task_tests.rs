use bevy_gpu_compute::configuration::{InputTypeMetadata, OutputTypeMetadata};
use bevy_gpu_compute::data::TaskData;
use bevy_gpu_compute::iteration::IterationSpace;
use bevy_gpu_compute::lengths::LengthTable;
use bevy_gpu_compute::runtime::{check_max_lengths, MaxLengthsError, PipelineKey};
use bevy_gpu_compute::task::{BevyGpuComputeTask, PipelineConstsError, PipelineUpdate, TaskMutationError};

fn input(name: &str, bytes: usize, binding: u32) -> InputTypeMetadata {
    InputTypeMetadata {
        bytes,
        binding_number: binding,
        name: name.to_string(),
        length_const_name: format!("{}_INPUT_ARRAY_LENGTH", name.to_uppercase()),
    }
}

fn output(name: &str, bytes: usize, binding: u32) -> OutputTypeMetadata {
    OutputTypeMetadata {
        bytes,
        binding_number: binding,
        include_count: true,
        count_binding_number: Some(binding + 1),
        name: name.to_string(),
        length_const_name: format!("{}_OUTPUT_ARRAY_LENGTH", name.to_uppercase()),
    }
}

fn lengths(entries: &[(&str, usize)]) -> LengthTable {
    let mut t = LengthTable::new();
    for (n, l) in entries {
        t.set(n, *l);
    }
    t
}

fn collision_task() -> BevyGpuComputeTask<Vec<u8>> {
    BevyGpuComputeTask::create_manually(
        "collision_detection",
        IterationSpace::new(100, 100, 1),
        lengths(&[("CollisionResult", 100)]),
        vec![input("Position", 8, 1), input("Radius", 4, 2)],
        vec![],
        vec![output("CollisionResult", 8, 3)],
        vec![7u8],
    )
}

#[test]
fn create_manually_derives_runtime_state() {
    let task = collision_task();
    assert_eq!(task.name(), "collision_detection");
    assert_eq!(task.configuration().version(), 0);
    let rt = task.runtime_state();
    let wg = rt.workgroup_sizes();
    assert_eq!((wg.x(), wg.y(), wg.z(), wg.num_dimmensions()), (8, 8, 1, 2));
    let space = rt.workgroup_space();
    assert_eq!((space.x, space.y, space.z), (13, 13, 1));
    assert_eq!(rt.max_output_bytes().bytes(), &vec![800]);
    assert!(!rt.pipeline_cache().contains_key(&PipelineKey { pipeline_consts_version: 0 }));
    assert_eq!(task.buffers(), &vec![7u8]);
    assert!(task.current_data().input_lengths().is_none());
}

#[test]
fn mutate_updates_runtime_state_and_version() {
    let mut task = collision_task();
    task.mutate(Some(IterationSpace::new(16, 16, 1)), Some(lengths(&[("CollisionResult", 256)])));
    assert_eq!(task.configuration().version(), 2);
    let it = task.configuration().iteration_space();
    assert_eq!((it.x(), it.y(), it.z()), (16, 16, 1));
    let space = task.runtime_state().workgroup_space();
    assert_eq!((space.x, space.y, space.z), (2, 2, 1));
    assert_eq!(task.runtime_state().max_output_bytes().bytes(), &vec![2048]);
}

#[test]
fn mutate_with_none_keeps_values() {
    let mut task = collision_task();
    task.mutate(None, None);
    assert_eq!(task.configuration().version(), 0);
    let it = task.configuration().iteration_space();
    assert_eq!((it.x(), it.y(), it.z()), (100, 100, 1));
    assert_eq!(task.configuration().outputs().max_lengths().get("CollisionResult"), Some(100));
    task.mutate(None, Some(lengths(&[("CollisionResult", 5)])));
    assert_eq!(task.configuration().version(), 1);
    let it = task.configuration().iteration_space();
    assert_eq!((it.x(), it.y(), it.z()), (100, 100, 1));
    assert_eq!(task.runtime_state().max_output_bytes().bytes(), &vec![40]);
}

#[test]
fn pipeline_consts_not_ready_without_inputs() {
    let task = collision_task();
    assert_eq!(task.check_pipeline_consts(), Err(PipelineConstsError::InputLengthsNotSet));
    assert!(matches!(task.plan_pipeline_update(), PipelineUpdate::NotReady));
}

#[test]
fn pipeline_consts_missing_input_length() {
    let mut task = collision_task();
    task.current_data_mut().set_input_lengths(lengths(&[("Position", 16)]));
    assert_eq!(task.check_pipeline_consts(), Err(PipelineConstsError::InputLengthMissing(1)));
}

#[test]
fn pipeline_consts_missing_max_length() {
    let mut task = collision_task();
    task.mutate(None, Some(lengths(&[("CollisionResult", 3)])));
    task.current_data_mut().set_input_lengths(lengths(&[("Position", 16), ("Radius", 16)]));
    assert_eq!(task.check_pipeline_consts(), Ok(()));
    let mut other = BevyGpuComputeTask::create_manually(
        "other",
        IterationSpace::new(4, 1, 1),
        lengths(&[]),
        vec![],
        vec![],
        vec![],
        (),
    );
    other.current_data_mut().set_input_lengths(lengths(&[]));
    assert_eq!(other.check_pipeline_consts(), Ok(()));
    assert!(other.get_pipeline_consts().is_empty());
}

#[test]
fn pipeline_consts_list_inputs_then_outputs() {
    let mut task = collision_task();
    task.current_data_mut().set_input_lengths(lengths(&[("Radius", 16), ("Position", 15)]));
    let consts = task.get_pipeline_consts();
    assert_eq!(
        consts,
        vec![
            ("POSITION_INPUT_ARRAY_LENGTH".to_string(), 15),
            ("RADIUS_INPUT_ARRAY_LENGTH".to_string(), 16),
            ("COLLISIONRESULT_OUTPUT_ARRAY_LENGTH".to_string(), 100),
        ]
    );
}

#[test]
fn pipeline_is_built_once_per_version() {
    let mut task = collision_task();
    task.current_data_mut().set_input_lengths(lengths(&[("Position", 16), ("Radius", 16)]));
    let key = match task.plan_pipeline_update() {
        PipelineUpdate::Build(key, consts) => {
            assert_eq!(consts.len(), 3);
            key
        }
        _ => panic!("expected a pipeline to build"),
    };
    assert_eq!(key, PipelineKey { pipeline_consts_version: 0 });
    task.runtime_state_mut().pipeline_cache_mut().insert(key);
    assert!(matches!(task.plan_pipeline_update(), PipelineUpdate::Cached(k) if k == key));
    task.mutate(Some(IterationSpace::new(16, 16, 1)), None);
    match task.plan_pipeline_update() {
        PipelineUpdate::Build(k, _) => assert_eq!(k, PipelineKey { pipeline_consts_version: 1 }),
        _ => panic!("a changed configuration needs a new pipeline"),
    }
}

#[test]
fn task_data_default_has_no_inputs() {
    let mut data = TaskData::default();
    assert!(data.input_lengths().is_none());
    data.set_input_lengths(lengths(&[("A", 1)]));
    assert_eq!(data.input_lengths().as_ref().unwrap().get("A"), Some(1));
}

#[test]
fn try_mutate_refuses_a_change_of_dimensions() {
    let mut task = collision_task();
    assert_eq!(
        task.try_mutate(Some(IterationSpace::new(30, 1, 1)), None),
        Err(TaskMutationError::DimensionsChanged)
    );
    assert_eq!(task.configuration().version(), 0);
    let it = task.configuration().iteration_space();
    assert_eq!((it.x(), it.y(), it.z()), (100, 100, 1));
}

#[test]
fn try_mutate_refuses_incomplete_max_lengths() {
    let mut task = collision_task();
    assert_eq!(
        task.try_mutate(None, Some(lengths(&[("Other", 3)]))),
        Err(TaskMutationError::MaxLengths(MaxLengthsError::Missing(0)))
    );
    assert_eq!(
        task.try_mutate(None, Some(lengths(&[("CollisionResult", usize::MAX)]))),
        Err(TaskMutationError::MaxLengths(MaxLengthsError::BytesOverflow(0)))
    );
    assert_eq!(task.configuration().outputs().max_lengths().get("CollisionResult"), Some(100));
}

#[test]
fn try_mutate_applies_an_allowed_change() {
    let mut task = collision_task();
    assert_eq!(task.try_mutate(Some(IterationSpace::new(20, 3, 1)), None), Ok(()));
    assert_eq!(task.configuration().version(), 1);
    let space = task.runtime_state().workgroup_space();
    assert_eq!((space.x, space.y, space.z), (3, 1, 1));
}

#[test]
fn check_max_lengths_names_the_first_fault() {
    let outs = vec![output("A", 4, 0), output("B", 2, 2)];
    assert_eq!(check_max_lengths(&lengths(&[("A", 1), ("B", 1)]), &outs), Ok(()));
    assert_eq!(check_max_lengths(&lengths(&[("A", 1)]), &outs), Err(MaxLengthsError::Missing(1)));
    assert_eq!(
        check_max_lengths(&lengths(&[("A", usize::MAX / 2), ("B", 1)]), &outs),
        Err(MaxLengthsError::BytesOverflow(0))
    );
}
