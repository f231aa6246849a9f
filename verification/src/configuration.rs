//! What a task is configured with: its iteration space, the shapes of its inputs and outputs,
//! and the maximum lengths of its outputs. Every change bumps the configuration's version, so
//! that pipelines compiled for an older configuration are not reused.
use vstd::prelude::*;
use crate::iteration::IterationSpace;
use crate::lengths::LengthTable;

verus! {

/// Describes one input array or configuration input of the shader.
pub struct InputTypeMetadata {
    /// Size in bytes of one element.
    pub bytes: usize,
    pub binding_number: u32,
    /// The name of the shader type.
    pub name: String,
    /// The name of the pipeline constant that carries the array's length.
    pub length_const_name: String,
}

/// Describes one output array of the shader.
pub struct OutputTypeMetadata {
    /// Size in bytes of one element.
    pub bytes: usize,
    pub binding_number: u32,
    pub include_count: bool,
    pub count_binding_number: Option<u32>,
    /// The name of the shader type.
    pub name: String,
    /// The name of the pipeline constant that carries the array's maximum length.
    pub length_const_name: String,
}

/// The input arrays and configuration inputs of a task.
pub struct InputSpec {
    arrays: Vec<InputTypeMetadata>,
    configs: Vec<InputTypeMetadata>,
}

impl InputSpec {
    pub closed spec fn spec_arrays(&self) -> Seq<InputTypeMetadata> {
        self.arrays@
    }

    pub closed spec fn spec_configs(&self) -> Seq<InputTypeMetadata> {
        self.configs@
    }

    pub fn new(arrays: Vec<InputTypeMetadata>, configs: Vec<InputTypeMetadata>) -> (r: Self)
        ensures
            r.spec_arrays() == arrays@,
            r.spec_configs() == configs@,
    {
        InputSpec { arrays, configs }
    }

    pub fn arrays(&self) -> (r: &Vec<InputTypeMetadata>)
        ensures
            r@ == self.spec_arrays(),
    {
        &self.arrays
    }

    pub fn configs(&self) -> (r: &Vec<InputTypeMetadata>)
        ensures
            r@ == self.spec_configs(),
    {
        &self.configs
    }
}

/// The output arrays of a task and the maximum number of elements each may hold.
pub struct OutputSpec {
    arrays: Vec<OutputTypeMetadata>,
    max_lengths: LengthTable,
}

impl OutputSpec {
    pub closed spec fn spec_arrays(&self) -> Seq<OutputTypeMetadata> {
        self.arrays@
    }

    pub closed spec fn spec_max_lengths(&self) -> Map<Seq<char>, usize> {
        self.max_lengths@
    }

    pub fn new(arrays: Vec<OutputTypeMetadata>, max_lengths: LengthTable) -> (r: Self)
        ensures
            r.spec_arrays() == arrays@,
            r.spec_max_lengths() == max_lengths@,
    {
        OutputSpec { arrays, max_lengths }
    }

    pub fn arrays(&self) -> (r: &Vec<OutputTypeMetadata>)
        ensures
            r@ == self.spec_arrays(),
    {
        &self.arrays
    }

    pub fn max_lengths(&self) -> (r: &LengthTable)
        ensures
            r@ == self.spec_max_lengths(),
    {
        &self.max_lengths
    }

    pub fn _internal_set_max_lengths(&mut self, max_lengths: LengthTable)
        ensures
            final(self).spec_max_lengths() == max_lengths@,
            final(self).spec_arrays() == old(self).spec_arrays(),
    {
        self.max_lengths = max_lengths;
    }
}

/// The configuration of a task.
pub struct TaskConfiguration {
    version: u64,
    iteration_space: IterationSpace,
    inputs: InputSpec,
    outputs: OutputSpec,
}

impl TaskConfiguration {
    /// The version of the configuration; pipeline constants are compiled per version.
    pub closed spec fn spec_version(&self) -> u64 {
        self.version
    }

    pub closed spec fn spec_iteration_space(&self) -> (nat, nat, nat) {
        self.iteration_space@
    }

    /// The number of dimensions of the iteration space.
    pub closed spec fn spec_dims(&self) -> nat {
        self.iteration_space.dims()
    }

    pub closed spec fn spec_inputs(&self) -> Seq<InputTypeMetadata> {
        self.inputs.spec_arrays()
    }

    pub closed spec fn spec_configs(&self) -> Seq<InputTypeMetadata> {
        self.inputs.spec_configs()
    }

    pub closed spec fn spec_outputs(&self) -> Seq<OutputTypeMetadata> {
        self.outputs.spec_arrays()
    }

    pub closed spec fn spec_max_lengths(&self) -> Map<Seq<char>, usize> {
        self.outputs.spec_max_lengths()
    }

    /// A fresh configuration, at version zero.
    pub fn new(iteration_space: IterationSpace, inputs: InputSpec, outputs: OutputSpec) -> (r: Self)
        ensures
            r.spec_version() == 0,
            r.spec_iteration_space() == iteration_space@,
            r.spec_dims() == iteration_space.dims(),
            r.spec_inputs() == inputs.spec_arrays(),
            r.spec_configs() == inputs.spec_configs(),
            r.spec_outputs() == outputs.spec_arrays(),
            r.spec_max_lengths() == outputs.spec_max_lengths(),
    {
        TaskConfiguration { version: 0, iteration_space, inputs, outputs }
    }

    pub fn version(&self) -> (r: u64)
        ensures
            r == self.spec_version(),
    {
        self.version
    }

    pub fn iteration_space(&self) -> (r: &IterationSpace)
        ensures
            r@ == self.spec_iteration_space(),
            r.dims() == self.spec_dims(),
    {
        &self.iteration_space
    }

    pub fn inputs(&self) -> (r: &InputSpec)
        ensures
            r.spec_arrays() == self.spec_inputs(),
            r.spec_configs() == self.spec_configs(),
    {
        &self.inputs
    }

    pub fn outputs(&self) -> (r: &OutputSpec)
        ensures
            r.spec_arrays() == self.spec_outputs(),
            r.spec_max_lengths() == self.spec_max_lengths(),
    {
        &self.outputs
    }

    /// Replaces the iteration space, as a new version of the configuration.
    pub fn _internal_set_iteration_space(&mut self, iteration_space: IterationSpace)
        requires
            old(self).spec_version() < u64::MAX,
        ensures
            final(self).spec_version() == old(self).spec_version() + 1,
            final(self).spec_iteration_space() == iteration_space@,
            final(self).spec_dims() == iteration_space.dims(),
            final(self).spec_inputs() == old(self).spec_inputs(),
            final(self).spec_configs() == old(self).spec_configs(),
            final(self).spec_outputs() == old(self).spec_outputs(),
            final(self).spec_max_lengths() == old(self).spec_max_lengths(),
    {
        self.iteration_space = iteration_space;
        self.version = self.version + 1;
    }

    /// Replaces the maximum output lengths, as a new version of the configuration.
    pub fn _internal_set_max_lengths(&mut self, max_lengths: LengthTable)
        requires
            old(self).spec_version() < u64::MAX,
        ensures
            final(self).spec_version() == old(self).spec_version() + 1,
            final(self).spec_max_lengths() == max_lengths@,
            final(self).spec_iteration_space() == old(self).spec_iteration_space(),
            final(self).spec_dims() == old(self).spec_dims(),
            final(self).spec_inputs() == old(self).spec_inputs(),
            final(self).spec_configs() == old(self).spec_configs(),
            final(self).spec_outputs() == old(self).spec_outputs(),
    {
        self.outputs._internal_set_max_lengths(max_lengths);
        self.version = self.version + 1;
    }
}

} // verus!
