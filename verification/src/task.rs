//! A GPU compute task: its configuration, the runtime state derived from it, its buffers and
//! its current data. A task can only run once per run of the task system set, which by
//! default means once per frame.
use vstd::prelude::*;
use crate::configuration::{InputSpec, InputTypeMetadata, OutputSpec, OutputTypeMetadata, TaskConfiguration};
use crate::data::TaskData;
use crate::iteration::{
    workgroup_sizes_for, workgroup_space_for, GpuWorkgroupSizes, GpuWorkgroupSpace, IterationSpace,
};
use crate::lengths::LengthTable;
use crate::runtime::{
    check_max_lengths, is_first_fault, max_lengths_cover, max_output_bytes_for, output_bytes_fit,
    MaxLengthsError, MaxOutputBytes, PipelineKey, TaskRuntimeState,
};

verus! {

/// The runtime state holds what the configuration determines: the workgroup sizes for the
/// number of dimensions, the workgroup counts that cover the iteration space, and the largest
/// size of every output buffer.
pub open spec fn runtime_matches(config: TaskConfiguration, rt: TaskRuntimeState) -> bool {
    &&& rt.spec_workgroup_sizes()@ == workgroup_sizes_for(config.spec_dims())
    &&& rt.spec_workgroup_space() == workgroup_space_for(
        config.spec_iteration_space(),
        rt.spec_workgroup_sizes()@,
    )
    &&& rt.spec_max_output_bytes() == max_output_bytes_for(
        config.spec_max_lengths(),
        config.spec_outputs(),
    )
}

/// The maximum output lengths are complete for the outputs and every output buffer's size fits.
pub open spec fn max_lengths_usable(max_lengths: Map<Seq<char>, usize>, outputs: Seq<OutputTypeMetadata>) -> bool {
    max_lengths_cover(max_lengths, outputs) && output_bytes_fit(max_lengths, outputs)
}

/// The key under which the pipeline for the configuration's current version is cached.
pub open spec fn current_key(config: TaskConfiguration) -> PipelineKey {
    PipelineKey { pipeline_consts_version: config.spec_version() }
}

/// No cached pipeline belongs to a version newer than the configuration's.
pub open spec fn cache_not_ahead(config: TaskConfiguration, rt: TaskRuntimeState) -> bool {
    forall|k: PipelineKey| #[trigger] rt.spec_cache().contains(k) ==> k.pipeline_consts_version <= config.spec_version()
}

/// Every input array has a length and every output array has a maximum length, so that all
/// pipeline constants have a value.
pub open spec fn consts_defined(config: TaskConfiguration, data: TaskData) -> bool {
    &&& data.spec_input_lengths() is Some
    &&& forall|i: int| 0 <= i < config.spec_inputs().len() ==>
            data.spec_input_lengths().unwrap().contains_key(#[trigger] config.spec_inputs()[i].name@)
    &&& max_lengths_cover(config.spec_max_lengths(), config.spec_outputs())
}

/// The pipeline constants: the length of each input array under its length constant, then the
/// maximum length of each output array under its length constant.
pub open spec fn pipeline_consts_for(config: TaskConfiguration, lengths: Map<Seq<char>, usize>) -> Seq<(Seq<char>, usize)> {
    Seq::new(
        config.spec_inputs().len(),
        |i: int| (config.spec_inputs()[i].length_const_name@, lengths[config.spec_inputs()[i].name@]),
    ) + Seq::new(
        config.spec_outputs().len(),
        |j: int|
            (
                config.spec_outputs()[j].length_const_name@,
                config.spec_max_lengths()[config.spec_outputs()[j].name@],
            ),
    )
}

/// The view of a list of constants: each name by its text, with its value.
pub open spec fn consts_view(v: Seq<(String, usize)>) -> Seq<(Seq<char>, usize)> {
    v.map_values(|p: (String, usize)| (p.0@, p.1))
}

/// Why the pipeline constants of a task cannot be computed.
#[derive(Clone, Copy, Debug, PartialEq, Eq, Structural)]
pub enum PipelineConstsError {
    /// No inputs have been set yet.
    InputLengthsNotSet,
    /// Input array `index` has no length among the current inputs.
    InputLengthMissing(usize),
    /// Output array `index` has no maximum length.
    MaxLengthMissing(usize),
}

/// What bringing a task's compute pipeline up to date takes.
pub enum PipelineUpdate {
    /// No inputs are set yet, so nothing is compiled.
    NotReady,
    /// A pipeline for the current configuration is already cached under this key.
    Cached(PipelineKey),
    /// A pipeline must be compiled with these constants and cached under this key.
    Build(PipelineKey, Vec<(String, usize)>),
}

/// The maximum output lengths in force after a mutation that passes `new_max`.
pub open spec fn effective_max_lengths(config: TaskConfiguration, new_max: Option<LengthTable>) -> Map<Seq<char>, usize> {
    match new_max {
        Some(m) => m@,
        None => config.spec_max_lengths(),
    }
}

/// How many new configuration versions a mutation uses: one per value it replaces.
pub open spec fn version_steps(new_iteration_space: Option<IterationSpace>, new_max: Option<LengthTable>) -> int {
    (if new_iteration_space is Some {
        1int
    } else {
        0int
    }) + (if new_max is Some {
        1int
    } else {
        0int
    })
}

/// The given iteration space has a different number of dimensions than the configuration's.
pub open spec fn changes_dims(config: TaskConfiguration, new_iteration_space: Option<IterationSpace>) -> bool {
    match new_iteration_space {
        Some(s) => s.dims() != config.spec_dims(),
        None => false,
    }
}

/// A mutation keeps the number of dimensions, leaves room for the configuration versions it
/// uses, and ends with maximum lengths that size every output buffer.
pub open spec fn mutation_allowed<B>(
    task: BevyGpuComputeTask<B>,
    new_iteration_space: Option<IterationSpace>,
    new_max: Option<LengthTable>,
) -> bool {
    &&& !changes_dims(task.spec_configuration(), new_iteration_space)
    &&& task.spec_configuration().spec_version() + version_steps(new_iteration_space, new_max) <= u64::MAX
    &&& max_lengths_usable(
        effective_max_lengths(task.spec_configuration(), new_max),
        task.spec_configuration().spec_outputs(),
    )
}

/// `new` is `old` after replacing the iteration space and/or the maximum output lengths that
/// are given: each given value becomes a new configuration version, the metadata, name,
/// buffers, data and pipeline cache stay, the output buffer sizes and workgroup counts are
/// recomputed, and the workgroup sizes are recomputed only when their number of dimensions
/// does not match the iteration space.
pub open spec fn mutation_applied<B>(
    old: BevyGpuComputeTask<B>,
    new: BevyGpuComputeTask<B>,
    new_iteration_space: Option<IterationSpace>,
    new_max: Option<LengthTable>,
) -> bool {
    let oc = old.spec_configuration();
    let nc = new.spec_configuration();
    let ort = old.spec_runtime_state();
    let nrt = new.spec_runtime_state();
    &&& nc.spec_iteration_space() == (match new_iteration_space {
        Some(s) => s@,
        None => oc.spec_iteration_space(),
    })
    &&& nc.spec_max_lengths() == effective_max_lengths(oc, new_max)
    &&& nc.spec_dims() == oc.spec_dims()
    &&& nc.spec_version() == oc.spec_version() + version_steps(new_iteration_space, new_max)
    &&& nc.spec_inputs() == oc.spec_inputs()
    &&& nc.spec_configs() == oc.spec_configs()
    &&& nc.spec_outputs() == oc.spec_outputs()
    &&& new.spec_name() == old.spec_name()
    &&& new.spec_buffers() == old.spec_buffers()
    &&& new.spec_current_data() == old.spec_current_data()
    &&& nrt.spec_cache() == ort.spec_cache()
    &&& nrt.spec_max_output_bytes() == max_output_bytes_for(nc.spec_max_lengths(), nc.spec_outputs())
    &&& nrt.spec_workgroup_space() == workgroup_space_for(
        nc.spec_iteration_space(),
        nrt.spec_workgroup_sizes()@,
    )
    &&& ort.spec_workgroup_sizes()@.3 == oc.spec_dims() ==> nrt.spec_workgroup_sizes()
        == ort.spec_workgroup_sizes()
    &&& ort.spec_workgroup_sizes()@.3 != oc.spec_dims() ==> nrt.spec_workgroup_sizes()@
        == workgroup_sizes_for(oc.spec_dims())
}

/// Why a mutation of a task is refused.
#[derive(Clone, Copy, Debug, PartialEq, Eq, Structural)]
pub enum TaskMutationError {
    /// The new iteration space has a different number of dimensions.
    DimensionsChanged,
    /// The configuration has run out of versions.
    VersionExhausted,
    /// The maximum output lengths cannot size the output buffers.
    MaxLengths(MaxLengthsError),
}

/// A task, with the GPU buffers of type `B` that the render side allocates for it.
pub struct BevyGpuComputeTask<B> {
    name: String,
    configuration: TaskConfiguration,
    runtime_state: TaskRuntimeState,
    buffers: B,
    current_data: TaskData,
}

impl<B> BevyGpuComputeTask<B> {
    pub closed spec fn spec_name(&self) -> Seq<char> {
        self.name@
    }

    pub closed spec fn spec_configuration(&self) -> TaskConfiguration {
        self.configuration
    }

    pub closed spec fn spec_runtime_state(&self) -> TaskRuntimeState {
        self.runtime_state
    }

    pub closed spec fn spec_buffers(&self) -> B {
        self.buffers
    }

    pub closed spec fn spec_current_data(&self) -> TaskData {
        self.current_data
    }

    pub fn name(&self) -> (r: &str)
        ensures
            r@ == self.spec_name(),
    {
        self.name.as_str()
    }

    pub fn configuration(&self) -> (r: &TaskConfiguration)
        ensures
            *r == self.spec_configuration(),
    {
        &self.configuration
    }

    pub fn runtime_state(&self) -> (r: &TaskRuntimeState)
        ensures
            *r == self.spec_runtime_state(),
    {
        &self.runtime_state
    }

    pub fn runtime_state_mut(&mut self) -> (r: &mut TaskRuntimeState)
        ensures
            *r == old(self).spec_runtime_state(),
            final(self).spec_runtime_state() == *final(r),
            final(self).spec_name() == old(self).spec_name(),
            final(self).spec_configuration() == old(self).spec_configuration(),
            final(self).spec_buffers() == old(self).spec_buffers(),
            final(self).spec_current_data() == old(self).spec_current_data(),
    {
        &mut self.runtime_state
    }

    pub fn buffers(&self) -> (r: &B)
        ensures
            *r == self.spec_buffers(),
    {
        &self.buffers
    }

    pub fn buffers_mut(&mut self) -> (r: &mut B)
        ensures
            *r == old(self).spec_buffers(),
            final(self).spec_buffers() == *final(r),
            final(self).spec_name() == old(self).spec_name(),
            final(self).spec_configuration() == old(self).spec_configuration(),
            final(self).spec_runtime_state() == old(self).spec_runtime_state(),
            final(self).spec_current_data() == old(self).spec_current_data(),
    {
        &mut self.buffers
    }

    pub fn current_data(&self) -> (r: &TaskData)
        ensures
            *r == self.spec_current_data(),
    {
        &self.current_data
    }

    pub fn current_data_mut(&mut self) -> (r: &mut TaskData)
        ensures
            *r == old(self).spec_current_data(),
            final(self).spec_current_data() == *final(r),
            final(self).spec_name() == old(self).spec_name(),
            final(self).spec_configuration() == old(self).spec_configuration(),
            final(self).spec_runtime_state() == old(self).spec_runtime_state(),
            final(self).spec_buffers() == old(self).spec_buffers(),
    {
        &mut self.current_data
    }
}

impl<B> BevyGpuComputeTask<B> {
    /// Builds a task from its parts; its runtime state is derived from the configuration and
    /// no pipeline is compiled yet. Remember to send the relevant update events afterwards.
    pub fn create_manually(
        name: &str,
        iteration_space: IterationSpace,
        max_output_array_lengths: LengthTable,
        input_metadata: Vec<InputTypeMetadata>,
        config_input_metadata: Vec<InputTypeMetadata>,
        output_metadata: Vec<OutputTypeMetadata>,
        buffers: B,
    ) -> (r: Self)
        requires
            max_lengths_usable(max_output_array_lengths@, output_metadata@),
        ensures
            r.spec_name() == name@,
            r.spec_configuration().spec_version() == 0,
            r.spec_configuration().spec_iteration_space() == iteration_space@,
            r.spec_configuration().spec_dims() == iteration_space.dims(),
            r.spec_configuration().spec_inputs() == input_metadata@,
            r.spec_configuration().spec_configs() == config_input_metadata@,
            r.spec_configuration().spec_outputs() == output_metadata@,
            r.spec_configuration().spec_max_lengths() == max_output_array_lengths@,
            runtime_matches(r.spec_configuration(), r.spec_runtime_state()),
            r.spec_runtime_state().spec_cache() == Set::<PipelineKey>::empty(),
            r.spec_buffers() == buffers,
            r.spec_current_data().spec_input_lengths() is None,
    {
        let configuration = TaskConfiguration::new(
            iteration_space,
            InputSpec::new(input_metadata, config_input_metadata),
            OutputSpec::new(output_metadata, max_output_array_lengths),
        );
        let workgroup_sizes = GpuWorkgroupSizes::from_iter_space(configuration.iteration_space());
        let workgroup_space = GpuWorkgroupSpace::from_iter_space_and_wrkgrp_sizes(
            configuration.iteration_space(),
            &workgroup_sizes,
        );
        let max_output_bytes = MaxOutputBytes::from_max_lengths_and_spec(
            configuration.outputs().max_lengths(),
            configuration.outputs().arrays(),
        );
        let runtime_state = TaskRuntimeState::new(workgroup_sizes, workgroup_space, max_output_bytes);
        BevyGpuComputeTask {
            name: name.to_owned(),
            configuration,
            runtime_state,
            buffers,
            current_data: TaskData::default(),
        }
    }

    /// Brings the runtime state in line with the configuration after the iteration space or
    /// the maximum output lengths changed: the output buffer sizes and the workgroup counts are
    /// recomputed, and the workgroup sizes are recomputed when their number of dimensions no
    /// longer matches.
    fn update_runtime_state_on_iter_space_or_max_output_lengths_change(&mut self)
        requires
            max_lengths_usable(
                old(self).spec_configuration().spec_max_lengths(),
                old(self).spec_configuration().spec_outputs(),
            ),
        ensures
            final(self).spec_name() == old(self).spec_name(),
            final(self).spec_configuration() == old(self).spec_configuration(),
            final(self).spec_buffers() == old(self).spec_buffers(),
            final(self).spec_current_data() == old(self).spec_current_data(),
            final(self).spec_runtime_state().spec_cache() == old(self).spec_runtime_state().spec_cache(),
            final(self).spec_runtime_state().spec_max_output_bytes() == max_output_bytes_for(
                old(self).spec_configuration().spec_max_lengths(),
                old(self).spec_configuration().spec_outputs(),
            ),
            old(self).spec_runtime_state().spec_workgroup_sizes()@.3 == old(self).spec_configuration().spec_dims()
                ==> final(self).spec_runtime_state().spec_workgroup_sizes() == old(self).spec_runtime_state().spec_workgroup_sizes(),
            old(self).spec_runtime_state().spec_workgroup_sizes()@.3 != old(self).spec_configuration().spec_dims()
                ==> final(self).spec_runtime_state().spec_workgroup_sizes()@ == workgroup_sizes_for(
                old(self).spec_configuration().spec_dims(),
            ),
            final(self).spec_runtime_state().spec_workgroup_space() == workgroup_space_for(
                old(self).spec_configuration().spec_iteration_space(),
                final(self).spec_runtime_state().spec_workgroup_sizes()@,
            ),
    {
        let max_output_bytes = MaxOutputBytes::from_max_lengths_and_spec(
            self.configuration.outputs().max_lengths(),
            self.configuration.outputs().arrays(),
        );
        self.runtime_state._internal_set_max_output_bytes(max_output_bytes);
        let mut wg_sizes = *self.runtime_state.workgroup_sizes();
        if self.configuration.iteration_space().num_dimmensions() != wg_sizes.num_dimmensions() {
            wg_sizes = GpuWorkgroupSizes::from_iter_space(self.configuration.iteration_space());
            self.runtime_state._internal_set_workgroup_sizes(wg_sizes);
        }
        let workgroup_space = GpuWorkgroupSpace::from_iter_space_and_wrkgrp_sizes(
            self.configuration.iteration_space(),
            &wg_sizes,
        );
        self.runtime_state._internal_set_workgroup_space(workgroup_space);
    }

    /// Changes the iteration space and/or the maximum output lengths; a parameter that is
    /// `None` keeps the existing value. The runtime state is updated once for both changes.
    /// The number of dimensions of the iteration space cannot change after the task is created.
    pub fn mutate(
        &mut self,
        new_iteration_space: Option<IterationSpace>,
        new_max_output_array_lengths: Option<LengthTable>,
    )
        requires
            mutation_allowed(*old(self), new_iteration_space, new_max_output_array_lengths),
        ensures
            mutation_applied(*old(self), *final(self), new_iteration_space, new_max_output_array_lengths),
            runtime_matches(old(self).spec_configuration(), old(self).spec_runtime_state())
                ==> runtime_matches(final(self).spec_configuration(), final(self).spec_runtime_state()),
            cache_not_ahead(old(self).spec_configuration(), old(self).spec_runtime_state())
                ==> cache_not_ahead(final(self).spec_configuration(), final(self).spec_runtime_state()),
            cache_not_ahead(old(self).spec_configuration(), old(self).spec_runtime_state())
                && (new_iteration_space is Some || new_max_output_array_lengths is Some)
                ==> !final(self).spec_runtime_state().spec_cache().contains(
                current_key(final(self).spec_configuration()),
            ),
    {
        if let Some(iter_space) = new_iteration_space {
            self.configuration._internal_set_iteration_space(iter_space);
        }
        if let Some(output_lengths) = new_max_output_array_lengths {
            self.configuration._internal_set_max_lengths(output_lengths);
        }
        self.update_runtime_state_on_iter_space_or_max_output_lengths_change();
    }
}

impl<B> BevyGpuComputeTask<B> {
    /// Like `mutate`, but refuses a mutation that `mutate` does not allow, leaving the task
    /// unchanged and saying why: first a change in the number of dimensions, then exhausted
    /// versions, then the first output array that the resulting maximum lengths cannot size.
    pub fn try_mutate(
        &mut self,
        new_iteration_space: Option<IterationSpace>,
        new_max_output_array_lengths: Option<LengthTable>,
    ) -> (r: Result<(), TaskMutationError>)
        ensures
            r is Ok <==> mutation_allowed(*old(self), new_iteration_space, new_max_output_array_lengths),
            r is Ok ==> mutation_applied(*old(self), *final(self), new_iteration_space, new_max_output_array_lengths),
            r is Err ==> *final(self) == *old(self),
            r == Err::<(), TaskMutationError>(TaskMutationError::DimensionsChanged)
                <==> changes_dims(old(self).spec_configuration(), new_iteration_space),
            new_iteration_space matches Some(s) ==> (r == Err::<(), TaskMutationError>(
                TaskMutationError::DimensionsChanged,
            ) <==> s.dims() != old(self).spec_configuration().spec_dims()),
            new_iteration_space is None ==> r != Err::<(), TaskMutationError>(TaskMutationError::DimensionsChanged),
            (match new_iteration_space {
                Some(s) => s.dims() == old(self).spec_configuration().spec_dims(),
                None => true,
            }) && old(self).spec_configuration().spec_version() + version_steps(
                new_iteration_space,
                new_max_output_array_lengths,
            ) <= u64::MAX && max_lengths_cover(
                (match new_max_output_array_lengths {
                    Some(m) => m@,
                    None => old(self).spec_configuration().spec_max_lengths(),
                }),
                old(self).spec_configuration().spec_outputs(),
            ) && output_bytes_fit(
                (match new_max_output_array_lengths {
                    Some(m) => m@,
                    None => old(self).spec_configuration().spec_max_lengths(),
                }),
                old(self).spec_configuration().spec_outputs(),
            ) ==> r is Ok,
            r is Ok ==> final(self).spec_configuration().spec_iteration_space() == (match new_iteration_space {
                Some(s) => s@,
                None => old(self).spec_configuration().spec_iteration_space(),
            }),
            r == Err::<(), TaskMutationError>(TaskMutationError::VersionExhausted) <==> {
                &&& !changes_dims(old(self).spec_configuration(), new_iteration_space)
                &&& old(self).spec_configuration().spec_version() + version_steps(
                    new_iteration_space,
                    new_max_output_array_lengths,
                ) > u64::MAX
            },
            r matches Err(TaskMutationError::MaxLengths(e)) ==> {
                &&& !changes_dims(old(self).spec_configuration(), new_iteration_space)
                &&& old(self).spec_configuration().spec_version() + version_steps(
                    new_iteration_space,
                    new_max_output_array_lengths,
                ) <= u64::MAX
                &&& is_first_fault(
                    effective_max_lengths(old(self).spec_configuration(), new_max_output_array_lengths),
                    old(self).spec_configuration().spec_outputs(),
                    e,
                )
            },
    {
        if let Some(s) = &new_iteration_space {
            if s.num_dimmensions() != self.configuration.iteration_space().num_dimmensions() {
                return Err(TaskMutationError::DimensionsChanged);
            }
        }
        let space_step: u64 = if new_iteration_space.is_some() { 1 } else { 0 };
        let lengths_step: u64 = if new_max_output_array_lengths.is_some() { 1 } else { 0 };
        let steps: u64 = space_step + lengths_step;
        if self.configuration.version() > u64::MAX - steps {
            return Err(TaskMutationError::VersionExhausted);
        }
        let checked = match &new_max_output_array_lengths {
            Some(m) => check_max_lengths(m, self.configuration.outputs().arrays()),
            None => check_max_lengths(
                self.configuration.outputs().max_lengths(),
                self.configuration.outputs().arrays(),
            ),
        };
        match checked {
            Err(e) => Err(TaskMutationError::MaxLengths(e)),
            Ok(()) => {
                self.mutate(new_iteration_space, new_max_output_array_lengths);
                Ok(())
            },
        }
    }
}

impl<B> BevyGpuComputeTask<B> {
    /// Whether every pipeline constant has a value, and if not, the first reason why.
    pub fn check_pipeline_consts(&self) -> (r: Result<(), PipelineConstsError>)
        ensures
            r is Ok <==> consts_defined(self.spec_configuration(), self.spec_current_data()),
            r == Err::<(), PipelineConstsError>(PipelineConstsError::InputLengthsNotSet)
                <==> self.spec_current_data().spec_input_lengths() is None,
            r matches Err(PipelineConstsError::InputLengthMissing(i)) ==> {
                &&& self.spec_current_data().spec_input_lengths() is Some
                &&& i < self.spec_configuration().spec_inputs().len()
                &&& !self.spec_current_data().spec_input_lengths().unwrap().contains_key(
                    self.spec_configuration().spec_inputs()[i as int].name@,
                )
                &&& forall|j: int| 0 <= j < i ==> self.spec_current_data().spec_input_lengths().unwrap().contains_key(
                    #[trigger] self.spec_configuration().spec_inputs()[j].name@,
                )
            },
            r matches Err(PipelineConstsError::MaxLengthMissing(i)) ==> {
                &&& self.spec_current_data().spec_input_lengths() is Some
                &&& forall|j: int| 0 <= j < self.spec_configuration().spec_inputs().len()
                    ==> self.spec_current_data().spec_input_lengths().unwrap().contains_key(
                    #[trigger] self.spec_configuration().spec_inputs()[j].name@,
                )
                &&& i < self.spec_configuration().spec_outputs().len()
                &&& !self.spec_configuration().spec_max_lengths().contains_key(
                    self.spec_configuration().spec_outputs()[i as int].name@,
                )
                &&& forall|j: int| 0 <= j < i ==> self.spec_configuration().spec_max_lengths().contains_key(
                    #[trigger] self.spec_configuration().spec_outputs()[j].name@,
                )
            },
    {
        let lengths = match self.current_data.input_lengths() {
            Some(t) => t,
            None => {
                return Err(PipelineConstsError::InputLengthsNotSet);
            },
        };
        let inputs = self.configuration.inputs().arrays();
        let n = inputs.len();
        let mut i: usize = 0;
        while i < n
            invariant
                n == inputs@.len(),
                inputs@ == self.spec_configuration().spec_inputs(),
                self.spec_current_data().spec_input_lengths() == Some(lengths@),
                0 <= i <= n,
                forall|j: int| 0 <= j < i ==> lengths@.contains_key(#[trigger] inputs@[j].name@),
            decreases n - i,
        {
            if !lengths.contains(inputs[i].name.as_str()) {
                return Err(PipelineConstsError::InputLengthMissing(i));
            }
            i += 1;
        }
        let outputs = self.configuration.outputs().arrays();
        let max_lengths = self.configuration.outputs().max_lengths();
        let m = outputs.len();
        let mut k: usize = 0;
        while k < m
            invariant
                m == outputs@.len(),
                outputs@ == self.spec_configuration().spec_outputs(),
                max_lengths@ == self.spec_configuration().spec_max_lengths(),
                self.spec_current_data().spec_input_lengths() == Some(lengths@),
                forall|j: int| 0 <= j < self.spec_configuration().spec_inputs().len()
                    ==> lengths@.contains_key(#[trigger] self.spec_configuration().spec_inputs()[j].name@),
                0 <= k <= m,
                forall|j: int| 0 <= j < k ==> max_lengths@.contains_key(#[trigger] outputs@[j].name@),
            decreases m - k,
        {
            if !max_lengths.contains(outputs[k].name.as_str()) {
                return Err(PipelineConstsError::MaxLengthMissing(k));
            }
            k += 1;
        }
        Ok(())
    }

    /// The pipeline constants of the task: for each input array, in order, its length constant
    /// with the current length of that input; then for each output array, in order, its length
    /// constant with its maximum length. Every input must have a length and every output a
    /// maximum length.
    pub fn get_pipeline_consts(&self) -> (r: Vec<(String, usize)>)
        requires
            consts_defined(self.spec_configuration(), self.spec_current_data()),
        ensures
            consts_view(r@) == pipeline_consts_for(
                self.spec_configuration(),
                self.spec_current_data().spec_input_lengths().unwrap(),
            ),
            r@.len() == self.spec_configuration().spec_inputs().len() + self.spec_configuration().spec_outputs().len(),
            forall|i: int| 0 <= i < self.spec_configuration().spec_inputs().len() ==> {
                &&& (#[trigger] r@[i]).0@ == self.spec_configuration().spec_inputs()[i].length_const_name@
                &&& r@[i].1 == self.spec_current_data().spec_input_lengths().unwrap()[self.spec_configuration().spec_inputs()[i].name@]
            },
            forall|j: int| 0 <= j < self.spec_configuration().spec_outputs().len() ==> {
                &&& (#[trigger] r@[self.spec_configuration().spec_inputs().len() + j]).0@
                    == self.spec_configuration().spec_outputs()[j].length_const_name@
                &&& r@[self.spec_configuration().spec_inputs().len() + j].1
                    == self.spec_configuration().spec_max_lengths()[self.spec_configuration().spec_outputs()[j].name@]
            },
    {
        let ghost config = self.spec_configuration();
        let lengths = match self.current_data.input_lengths() {
            Some(t) => t,
            None => {
                return Vec::new();
            },
        };
        let ghost target = pipeline_consts_for(config, lengths@);
        let mut consts: Vec<(String, usize)> = Vec::new();
        let inputs = self.configuration.inputs().arrays();
        let n = inputs.len();
        let mut i: usize = 0;
        while i < n
            invariant
                n == inputs@.len(),
                inputs@ == config.spec_inputs(),
                consts_defined(config, self.spec_current_data()),
                self.spec_current_data().spec_input_lengths() == Some(lengths@),
                target == pipeline_consts_for(config, lengths@),
                0 <= i <= n,
                consts@.len() == i,
                forall|j: int| 0 <= j < i ==> consts_view(consts@)[j] == #[trigger] target[j],
            decreases n - i,
        {
            let meta = &inputs[i];
            assert(lengths@.contains_key(inputs@[i as int].name@));
            let len = lengths.get_by_name(meta.name.as_str());
            let ghost before = consts@;
            consts.push((meta.length_const_name.clone(), len));
            proof {
                assert(consts_view(consts@)[i as int] == target[i as int]);
                assert forall|j: int| 0 <= j < i + 1 implies consts_view(consts@)[j] == #[trigger] target[j] by {
                    if j < i {
                        assert(consts_view(consts@)[j] == consts_view(before)[j]);
                    }
                }
            }
            i += 1;
        }
        let outputs = self.configuration.outputs().arrays();
        let max_lengths = self.configuration.outputs().max_lengths();
        let m = outputs.len();
        let mut k: usize = 0;
        while k < m
            invariant
                m == outputs@.len(),
                n == config.spec_inputs().len(),
                outputs@ == config.spec_outputs(),
                max_lengths@ == config.spec_max_lengths(),
                consts_defined(config, self.spec_current_data()),
                target == pipeline_consts_for(config, lengths@),
                0 <= k <= m,
                consts@.len() == n + k,
                forall|j: int| 0 <= j < n + k ==> consts_view(consts@)[j] == #[trigger] target[j],
            decreases m - k,
        {
            let meta = &outputs[k];
            assert(max_lengths@.contains_key(outputs@[k as int].name@));
            let len = max_lengths.get_by_name(meta.name.as_str());
            let ghost before = consts@;
            consts.push((meta.length_const_name.clone(), len));
            proof {
                assert(consts_view(consts@)[n + k] == target[n + k]);
                assert forall|j: int| 0 <= j < n + k + 1 implies consts_view(consts@)[j] == #[trigger] target[j] by {
                    if j < n + k {
                        assert(consts_view(consts@)[j] == consts_view(before)[j]);
                    }
                }
            }
            k += 1;
        }
        assert(consts_view(consts@) =~= target);
        proof {
            lemma_consts_len(config, lengths@);
            assert forall|i: int| 0 <= i < config.spec_inputs().len() implies {
                &&& (#[trigger] consts@[i]).0@ == config.spec_inputs()[i].length_const_name@
                &&& consts@[i].1 == lengths@[config.spec_inputs()[i].name@]
            } by {
                lemma_input_const_at(config, lengths@, i);
                assert(consts_view(consts@)[i] == target[i]);
            }
            assert forall|j: int| 0 <= j < config.spec_outputs().len() implies {
                &&& (#[trigger] consts@[config.spec_inputs().len() + j]).0@ == config.spec_outputs()[j].length_const_name@
                &&& consts@[config.spec_inputs().len() + j].1 == config.spec_max_lengths()[config.spec_outputs()[j].name@]
            } by {
                lemma_output_const_at(config, lengths@, j);
                assert(consts_view(consts@)[config.spec_inputs().len() + j] == target[config.spec_inputs().len() + j]);
            }
        }
        consts
    }

    /// Decides what keeping the task's compute pipeline current takes: nothing before inputs are
    /// set; nothing when a pipeline for the configuration's version is cached; otherwise a new
    /// pipeline with the task's constants, to be cached under the version's key.
    pub fn plan_pipeline_update(&self) -> (r: PipelineUpdate)
        requires
            self.spec_current_data().spec_input_lengths() is Some
                && !self.spec_runtime_state().spec_cache().contains(current_key(self.spec_configuration()))
                ==> consts_defined(self.spec_configuration(), self.spec_current_data()),
        ensures
            r is NotReady <==> self.spec_current_data().spec_input_lengths() is None,
            r matches PipelineUpdate::Cached(key) ==> {
                &&& key == current_key(self.spec_configuration())
                &&& self.spec_current_data().spec_input_lengths() is Some
                &&& self.spec_runtime_state().spec_cache().contains(key)
            },
            r matches PipelineUpdate::Build(key, consts) ==> {
                &&& key == current_key(self.spec_configuration())
                &&& self.spec_current_data().spec_input_lengths() is Some
                &&& !self.spec_runtime_state().spec_cache().contains(key)
                &&& consts_view(consts@) == pipeline_consts_for(
                    self.spec_configuration(),
                    self.spec_current_data().spec_input_lengths().unwrap(),
                )
            },
    {
        if self.current_data.input_lengths().is_none() {
            return PipelineUpdate::NotReady;
        }
        let key = PipelineKey { pipeline_consts_version: self.configuration.version() };
        if self.runtime_state.pipeline_cache().contains_key(&key) {
            PipelineUpdate::Cached(key)
        } else {
            PipelineUpdate::Build(key, self.get_pipeline_consts())
        }
    }
}

/// Caching the pipeline built for the current configuration version means the next update
/// finds it cached, and no cached pipeline is ahead of the configuration afterwards.
pub proof fn lemma_cached_pipeline_is_reused(
    config: TaskConfiguration,
    before: TaskRuntimeState,
    after: TaskRuntimeState,
)
    requires
        cache_not_ahead(config, before),
        after.spec_cache() == before.spec_cache().insert(current_key(config)),
    ensures
        after.spec_cache().contains(current_key(config)),
        cache_not_ahead(config, after),
{
}

/// A new task has no pipeline cached ahead of its configuration.
pub proof fn lemma_new_task_cache_not_ahead(config: TaskConfiguration, rt: TaskRuntimeState)
    requires
        rt.spec_cache() == Set::<PipelineKey>::empty(),
    ensures
        cache_not_ahead(config, rt),
{
}

/// There is one pipeline constant per input array and one per output array.
pub proof fn lemma_consts_len(config: TaskConfiguration, lengths: Map<Seq<char>, usize>)
    ensures
        pipeline_consts_for(config, lengths).len() == config.spec_inputs().len() + config.spec_outputs().len(),
{
}

/// The constant at input position `i` is input array `i`'s length constant with that array's
/// current length.
pub proof fn lemma_input_const_at(config: TaskConfiguration, lengths: Map<Seq<char>, usize>, i: int)
    requires
        0 <= i < config.spec_inputs().len(),
    ensures
        pipeline_consts_for(config, lengths)[i] == (
            config.spec_inputs()[i].length_const_name@,
            lengths[config.spec_inputs()[i].name@],
        ),
{
}

/// The constant after the inputs at position `j` is output array `j`'s length constant with that
/// same array's maximum length.
pub proof fn lemma_output_const_at(config: TaskConfiguration, lengths: Map<Seq<char>, usize>, j: int)
    requires
        0 <= j < config.spec_outputs().len(),
    ensures
        pipeline_consts_for(config, lengths)[config.spec_inputs().len() + j] == (
            config.spec_outputs()[j].length_const_name@,
            config.spec_max_lengths()[config.spec_outputs()[j].name@],
        ),
{
}

/// A mutation is refused for its iteration space exactly when that space's number of dimensions
/// differs from the task's; a space of the same number of dimensions is never refused on that
/// account, whatever its extents.
pub proof fn lemma_dims_refusal_exact(config: TaskConfiguration, s: IterationSpace)
    ensures
        changes_dims(config, Some(s)) <==> s.dims() != config.spec_dims(),
        !changes_dims(config, None::<IterationSpace>),
{
}

/// A mutation to a space of the same number of dimensions, with versions left and maximum
/// lengths that size every output, is allowed, and it makes that space the task's.
pub proof fn lemma_same_dims_mutation_allowed<B>(
    task: BevyGpuComputeTask<B>,
    after: BevyGpuComputeTask<B>,
    s: IterationSpace,
)
    requires
        s.dims() == task.spec_configuration().spec_dims(),
        task.spec_configuration().spec_version() < u64::MAX,
        max_lengths_cover(task.spec_configuration().spec_max_lengths(), task.spec_configuration().spec_outputs()),
        output_bytes_fit(task.spec_configuration().spec_max_lengths(), task.spec_configuration().spec_outputs()),
    ensures
        mutation_allowed(task, Some(s), None),
        mutation_applied(task, after, Some(s), None) ==> after.spec_configuration().spec_iteration_space() == s@
            && after.spec_configuration().spec_version() == task.spec_configuration().spec_version() + 1,
{
}

/// A runtime state that matches its configuration sizes output buffer `i` for output array `i`:
/// its maximum length times the size of one of its elements.
pub proof fn lemma_runtime_bytes_per_output(config: TaskConfiguration, rt: TaskRuntimeState, i: int)
    requires
        runtime_matches(config, rt),
        0 <= i < config.spec_outputs().len(),
    ensures
        rt.spec_max_output_bytes().len() == config.spec_outputs().len(),
        rt.spec_max_output_bytes()[i] == config.spec_max_lengths()[config.spec_outputs()[i].name@]
            * config.spec_outputs()[i].bytes,
{
}

} // verus!
