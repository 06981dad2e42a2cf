//! The state resolver: lookups over the finite set of lifecycle states, by
//! stable identifier or by ordinal progress value. Both are pure reads; a
//! miss is reported as the raw `StateNotFound` signal, which callers
//! translate into their own domain error.

use vstd::prelude::*;
use crate::error::Error;
use crate::model::State;

verus! {

/// The set of lifecycle states: reference data, not created or destroyed by
/// this core.
pub struct StateSet {
    pub states: Vec<State>,
}

impl StateSet {
    /// The reference-data invariant: identifiers, progress names and ordinal
    /// progress values are unique within the set.
    pub open spec fn wf(self) -> bool {
        forall|i: int, j: int|
            0 <= i < j < self.states@.len() ==> self.states@[i].id@ != self.states@[j].id@
                && self.states@[i].name@ != self.states@[j].name@ && self.states@[i].progress
                != self.states@[j].progress
    }

    /// Some state carries this identifier.
    pub open spec fn has_id(self, id: Seq<char>) -> bool {
        exists|i: int| 0 <= i < self.states@.len() && self.states@[i].id@ == id
    }

    /// Some state carries this ordinal progress value.
    pub open spec fn has_progress(self, progress: i32) -> bool {
        exists|i: int| 0 <= i < self.states@.len() && self.states@[i].progress == progress
    }

    pub fn new(states: Vec<State>) -> (r: StateSet)
        ensures
            r.states == states,
    {
        StateSet { states }
    }

    /// Exact lookup by identifier: the matching state when one exists,
    /// `StateNotFound` when none does.
    pub fn find_by_id<'a>(&'a self, id: &String) -> (r: Result<&'a State, Error>)
        ensures
            match r {
                Ok(st) => st.id@ == id@ && exists|i: int|
                    0 <= i < self.states@.len() && self.states@[i] == *st,
                Err(e) => e == Error::StateNotFound && !self.has_id(id@),
            },
    {
        let mut i: usize = 0;
        while i < self.states.len()
            invariant
                i <= self.states@.len(),
                forall|j: int| 0 <= j < i ==> self.states@[j].id@ != id@,
            decreases self.states@.len() - i,
        {
            if self.states[i].id == *id {
                return Ok(&self.states[i]);
            }
            i = i + 1;
        }
        Err(Error::StateNotFound)
    }

    /// Lookup by ordinal progress value: the matching state when one exists,
    /// `StateNotFound` when none does.
    pub fn find_by_progress<'a>(&'a self, progress: i32) -> (r: Result<&'a State, Error>)
        ensures
            match r {
                Ok(st) => st.progress == progress && exists|i: int|
                    0 <= i < self.states@.len() && self.states@[i] == *st,
                Err(e) => e == Error::StateNotFound && !self.has_progress(progress),
            },
    {
        let mut i: usize = 0;
        while i < self.states.len()
            invariant
                i <= self.states@.len(),
                forall|j: int| 0 <= j < i ==> self.states@[j].progress != progress,
            decreases self.states@.len() - i,
        {
            if self.states[i].progress == progress {
                return Ok(&self.states[i]);
            }
            i = i + 1;
        }
        Err(Error::StateNotFound)
    }
}

/// Under the reference-data invariant, a progress value picks out at most
/// one state: any two matches are the same entry.
pub proof fn lemma_progress_unique(s: StateSet, i: int, j: int)
    requires
        s.wf(),
        0 <= i < s.states@.len(),
        0 <= j < s.states@.len(),
        s.states@[i].progress == s.states@[j].progress,
    ensures
        i == j,
{
}

} // verus!
