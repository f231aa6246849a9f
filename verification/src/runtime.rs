//! The runtime state of a task: what is derived from its configuration (workgroup layout and
//! output buffer sizes) and which pipeline versions have been compiled.
use vstd::prelude::*;
use crate::configuration::OutputTypeMetadata;
use crate::iteration::{GpuWorkgroupSizes, GpuWorkgroupSpace};
use crate::lengths::LengthTable;

verus! {

/// Every output array has a maximum length.
pub open spec fn max_lengths_cover(max_lengths: Map<Seq<char>, usize>, outputs: Seq<OutputTypeMetadata>) -> bool {
    forall|i: int| 0 <= i < outputs.len() ==> max_lengths.contains_key(#[trigger] outputs[i].name@)
}

/// The largest size in bytes that output array `i` can take.
pub open spec fn output_bytes(max_lengths: Map<Seq<char>, usize>, out: OutputTypeMetadata) -> int {
    max_lengths[out.name@] * out.bytes
}

/// Every output array's largest size fits in a `usize`.
pub open spec fn output_bytes_fit(max_lengths: Map<Seq<char>, usize>, outputs: Seq<OutputTypeMetadata>) -> bool {
    forall|i: int| 0 <= i < outputs.len() ==> #[trigger] output_bytes(max_lengths, outputs[i]) <= usize::MAX
}

/// The largest size in bytes of each output array, in the order of the outputs.
pub open spec fn max_output_bytes_for(max_lengths: Map<Seq<char>, usize>, outputs: Seq<OutputTypeMetadata>) -> Seq<int> {
    Seq::new(outputs.len(), |i: int| output_bytes(max_lengths, outputs[i]))
}

/// Why a table of maximum lengths cannot size a task's output buffers.
#[derive(Clone, Copy, Debug, PartialEq, Eq, Structural)]
pub enum MaxLengthsError {
    /// Output array `index` has no maximum length.
    Missing(usize),
    /// The largest size of output array `index` does not fit in a `usize`.
    BytesOverflow(usize),
}

/// Output array `out` has a maximum length and its largest size fits in a `usize`.
pub open spec fn output_sizable(max_lengths: Map<Seq<char>, usize>, out: OutputTypeMetadata) -> bool {
    max_lengths.contains_key(out.name@) && output_bytes(max_lengths, out) <= usize::MAX
}

/// `e` names the first output array that `max_lengths` cannot size, and why.
pub open spec fn is_first_fault(max_lengths: Map<Seq<char>, usize>, outputs: Seq<OutputTypeMetadata>, e: MaxLengthsError) -> bool {
    match e {
        MaxLengthsError::Missing(i) => {
            &&& i < outputs.len()
            &&& !max_lengths.contains_key(outputs[i as int].name@)
            &&& forall|j: int| 0 <= j < i ==> #[trigger] output_sizable(max_lengths, outputs[j])
        },
        MaxLengthsError::BytesOverflow(i) => {
            &&& i < outputs.len()
            &&& max_lengths.contains_key(outputs[i as int].name@)
            &&& output_bytes(max_lengths, outputs[i as int]) > usize::MAX
            &&& forall|j: int| 0 <= j < i ==> #[trigger] output_sizable(max_lengths, outputs[j])
        },
    }
}

/// Checks that `max_lengths` has a length for every output array and that every output
/// buffer's largest size fits; on failure, names the first output array at fault.
pub fn check_max_lengths(max_lengths: &LengthTable, outputs: &Vec<OutputTypeMetadata>) -> (r: Result<(), MaxLengthsError>)
    ensures
        r is Ok <==> max_lengths_cover(max_lengths@, outputs@) && output_bytes_fit(max_lengths@, outputs@),
        r matches Err(e) ==> is_first_fault(max_lengths@, outputs@, e),
{
    let n = outputs.len();
    let mut i: usize = 0;
    while i < n
        invariant
            n == outputs@.len(),
            0 <= i <= n,
            forall|j: int| 0 <= j < i ==> #[trigger] output_sizable(max_lengths@, outputs@[j]),
        decreases n - i,
    {
        let out = &outputs[i];
        match max_lengths.get(out.name.as_str()) {
            None => {
                return Err(MaxLengthsError::Missing(i));
            },
            Some(len) => {
                if len.checked_mul(out.bytes).is_none() {
                    assert(output_bytes(max_lengths@, outputs@[i as int]) > usize::MAX);
                    return Err(MaxLengthsError::BytesOverflow(i));
                }
            },
        }
        i += 1;
    }
    assert forall|j: int| 0 <= j < outputs@.len() implies max_lengths@.contains_key(#[trigger] outputs@[j].name@) by {
        assert(output_sizable(max_lengths@, outputs@[j]));
    }
    assert forall|j: int| 0 <= j < outputs@.len() implies #[trigger] output_bytes(max_lengths@, outputs@[j]) <= usize::MAX by {
        assert(output_sizable(max_lengths@, outputs@[j]));
    }
    Ok(())
}

/// Output buffer `i` is sized for output array `i`: its maximum length times the size of one of
/// its elements, and there is one size per output array.
pub proof fn lemma_output_bytes_per_index(
    max_lengths: Map<Seq<char>, usize>,
    outputs: Seq<OutputTypeMetadata>,
    i: int,
)
    requires
        0 <= i < outputs.len(),
    ensures
        max_output_bytes_for(max_lengths, outputs).len() == outputs.len(),
        max_output_bytes_for(max_lengths, outputs)[i] == max_lengths[outputs[i].name@] * outputs[i].bytes,
{
}

/// The largest size in bytes of each output array, in the order of the outputs.
pub struct MaxOutputBytes {
    bytes: Vec<usize>,
}

impl MaxOutputBytes {
    pub closed spec fn spec_bytes(&self) -> Seq<int> {
        self.bytes@.map_values(|b: usize| b as int)
    }

    /// Each output's maximum length times the size of one of its elements.
    pub fn from_max_lengths_and_spec(max_lengths: &LengthTable, outputs: &Vec<OutputTypeMetadata>) -> (r: Self)
        requires
            max_lengths_cover(max_lengths@, outputs@),
            output_bytes_fit(max_lengths@, outputs@),
        ensures
            r.spec_bytes() == max_output_bytes_for(max_lengths@, outputs@),
            r.spec_bytes().len() == outputs@.len(),
            forall|i: int| 0 <= i < outputs@.len() ==> #[trigger] r.spec_bytes()[i]
                == max_lengths@[outputs@[i].name@] * outputs@[i].bytes,
    {
        let mut bytes: Vec<usize> = Vec::new();
        let n = outputs.len();
        let mut i: usize = 0;
        while i < n
            invariant
                n == outputs@.len(),
                0 <= i <= n,
                bytes@.len() == i,
                max_lengths_cover(max_lengths@, outputs@),
                output_bytes_fit(max_lengths@, outputs@),
                forall|j: int| 0 <= j < i ==> bytes@[j] == #[trigger] output_bytes(max_lengths@, outputs@[j]),
            decreases n - i,
        {
            let out = &outputs[i];
            assert(max_lengths@.contains_key(outputs@[i as int].name@));
            assert(output_bytes(max_lengths@, outputs@[i as int]) <= usize::MAX);
            let len = max_lengths.get_by_name(out.name.as_str());
            bytes.push(len * out.bytes);
            i += 1;
        }
        let r = MaxOutputBytes { bytes };
        assert(r.spec_bytes() =~= max_output_bytes_for(max_lengths@, outputs@));
        r
    }

    /// The largest size in bytes of each output array.
    pub fn bytes(&self) -> (r: &Vec<usize>)
        ensures
            r@.map_values(|b: usize| b as int) == self.spec_bytes(),
    {
        &self.bytes
    }
}

/// Identifies a compiled pipeline by the configuration version its constants came from.
#[derive(Clone, Copy, Debug, PartialEq, Eq, Hash, Structural)]
pub struct PipelineKey {
    pub pipeline_consts_version: u64,
}

/// The keys of the pipelines compiled so far.
pub struct PipelineCache {
    keys: Vec<PipelineKey>,
}

impl View for PipelineCache {
    type V = Set<PipelineKey>;

    closed spec fn view(&self) -> Set<PipelineKey> {
        self.keys@.to_set()
    }
}

impl PipelineCache {
    /// An empty cache.
    pub fn new() -> (r: Self)
        ensures
            r@ == Set::<PipelineKey>::empty(),
    {
        let r = PipelineCache { keys: Vec::new() };
        assert(r@ =~= Set::<PipelineKey>::empty());
        r
    }

    pub fn contains_key(&self, key: &PipelineKey) -> (r: bool)
        ensures
            r == self@.contains(*key),
    {
        let n = self.keys.len();
        let mut i: usize = 0;
        while i < n
            invariant
                n == self.keys@.len(),
                0 <= i <= n,
                forall|j: int| 0 <= j < i ==> self.keys@[j] != *key,
            decreases n - i,
        {
            if self.keys[i] == *key {
                assert(self.keys@.contains(*key));
                return true;
            }
            i += 1;
        }
        false
    }

    /// Records that a pipeline exists under `key`.
    pub fn insert(&mut self, key: PipelineKey)
        ensures
            final(self)@ == old(self)@.insert(key),
    {
        if !self.contains_key(&key) {
            self.keys.push(key);
            proof {
                assert(self.keys@.to_set() =~= old(self)@.insert(key)) by {
                    assert forall|k: PipelineKey| #[trigger] self.keys@.to_set().contains(k) == old(self)@.insert(key).contains(k) by {
                        if old(self).keys@.contains(k) {
                            let j = choose|j: int| 0 <= j < old(self).keys@.len() && old(self).keys@[j] == k;
                            assert(self.keys@[j] == k);
                        }
                        if k == key {
                            assert(self.keys@[self.keys@.len() - 1] == k);
                        }
                        if self.keys@.contains(k) {
                            let j = choose|j: int| 0 <= j < self.keys@.len() && self.keys@[j] == k;
                            if j < old(self).keys@.len() {
                                assert(old(self).keys@[j] == k);
                            }
                        }
                    }
                }
            }
        }
    }
}

/// The runtime state of a task.
pub struct TaskRuntimeState {
    workgroup_sizes: GpuWorkgroupSizes,
    workgroup_space: GpuWorkgroupSpace,
    max_output_bytes: MaxOutputBytes,
    pipeline_cache: PipelineCache,
}

impl TaskRuntimeState {
    pub closed spec fn spec_workgroup_sizes(&self) -> GpuWorkgroupSizes {
        self.workgroup_sizes
    }

    pub closed spec fn spec_workgroup_space(&self) -> GpuWorkgroupSpace {
        self.workgroup_space
    }

    pub closed spec fn spec_max_output_bytes(&self) -> Seq<int> {
        self.max_output_bytes.spec_bytes()
    }

    pub closed spec fn spec_cache(&self) -> Set<PipelineKey> {
        self.pipeline_cache@
    }

    /// A runtime state with no compiled pipeline.
    pub fn new(
        workgroup_sizes: GpuWorkgroupSizes,
        workgroup_space: GpuWorkgroupSpace,
        max_output_bytes: MaxOutputBytes,
    ) -> (r: Self)
        ensures
            r.spec_workgroup_sizes() == workgroup_sizes,
            r.spec_workgroup_space() == workgroup_space,
            r.spec_max_output_bytes() == max_output_bytes.spec_bytes(),
            r.spec_cache() == Set::<PipelineKey>::empty(),
    {
        TaskRuntimeState { workgroup_sizes, workgroup_space, max_output_bytes, pipeline_cache: PipelineCache::new() }
    }

    pub fn workgroup_sizes(&self) -> (r: &GpuWorkgroupSizes)
        ensures
            *r == self.spec_workgroup_sizes(),
    {
        &self.workgroup_sizes
    }

    pub fn workgroup_space(&self) -> (r: &GpuWorkgroupSpace)
        ensures
            *r == self.spec_workgroup_space(),
    {
        &self.workgroup_space
    }

    pub fn max_output_bytes(&self) -> (r: &MaxOutputBytes)
        ensures
            r.spec_bytes() == self.spec_max_output_bytes(),
    {
        &self.max_output_bytes
    }

    pub fn pipeline_cache(&self) -> (r: &PipelineCache)
        ensures
            r@ == self.spec_cache(),
    {
        &self.pipeline_cache
    }

    pub fn pipeline_cache_mut(&mut self) -> (r: &mut PipelineCache)
        ensures
            r@ == old(self).spec_cache(),
            final(self).spec_cache() == final(r)@,
            final(self).spec_workgroup_sizes() == old(self).spec_workgroup_sizes(),
            final(self).spec_workgroup_space() == old(self).spec_workgroup_space(),
            final(self).spec_max_output_bytes() == old(self).spec_max_output_bytes(),
    {
        &mut self.pipeline_cache
    }

    pub fn _internal_set_max_output_bytes(&mut self, max_output_bytes: MaxOutputBytes)
        ensures
            final(self).spec_max_output_bytes() == max_output_bytes.spec_bytes(),
            final(self).spec_workgroup_sizes() == old(self).spec_workgroup_sizes(),
            final(self).spec_workgroup_space() == old(self).spec_workgroup_space(),
            final(self).spec_cache() == old(self).spec_cache(),
    {
        self.max_output_bytes = max_output_bytes;
    }

    pub fn _internal_set_workgroup_sizes(&mut self, workgroup_sizes: GpuWorkgroupSizes)
        ensures
            final(self).spec_workgroup_sizes() == workgroup_sizes,
            final(self).spec_workgroup_space() == old(self).spec_workgroup_space(),
            final(self).spec_max_output_bytes() == old(self).spec_max_output_bytes(),
            final(self).spec_cache() == old(self).spec_cache(),
    {
        self.workgroup_sizes = workgroup_sizes;
    }

    pub fn _internal_set_workgroup_space(&mut self, workgroup_space: GpuWorkgroupSpace)
        ensures
            final(self).spec_workgroup_space() == workgroup_space,
            final(self).spec_workgroup_sizes() == old(self).spec_workgroup_sizes(),
            final(self).spec_max_output_bytes() == old(self).spec_max_output_bytes(),
            final(self).spec_cache() == old(self).spec_cache(),
    {
        self.workgroup_space = workgroup_space;
    }
}

} // verus!
