//! The data a task currently works on.
use vstd::prelude::*;
use crate::lengths::LengthTable;

verus! {

/// The current data of a task: so far, the lengths of its input arrays, once inputs are set.
pub struct TaskData {
    input_lengths: Option<LengthTable>,
}

impl TaskData {
    /// The length of each input array, keyed by the array's type name, once inputs are set.
    pub closed spec fn spec_input_lengths(&self) -> Option<Map<Seq<char>, usize>> {
        match self.input_lengths {
            Some(t) => Some(t@),
            None => None,
        }
    }

    pub fn input_lengths(&self) -> (r: &Option<LengthTable>)
        ensures
            match r {
                Some(t) => self.spec_input_lengths() == Some(t@),
                None => self.spec_input_lengths() is None,
            },
    {
        &self.input_lengths
    }

    /// Records the lengths of the input arrays that were just set.
    pub fn set_input_lengths(&mut self, lengths: LengthTable)
        ensures
            final(self).spec_input_lengths() == Some(lengths@),
    {
        self.input_lengths = Some(lengths);
    }
}

impl Default for TaskData {
    /// No inputs yet.
    fn default() -> (r: Self)
        ensures
            r.spec_input_lengths() is None,
    {
        TaskData { input_lengths: None }
    }
}

} // verus!
