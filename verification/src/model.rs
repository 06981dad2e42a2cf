//! Data model: lifecycle states, task records, hydrated outputs, operation
//! inputs, and the rows handed to the store.
//!
//! Identities are carried as their canonical text, timestamps as UTC
//! nanoseconds, so that every field the logic reads is a plain value.

use vstd::prelude::*;

verus! {

/// A named lifecycle stage. States are reference data: never created or
/// destroyed by this core. Progress names and ordinal values are unique
/// within the set of states.
#[derive(Clone, Debug)]
pub struct State {
    /// Stable identifier.
    pub id: String,
    /// Human-readable progress name.
    pub name: String,
    /// Ordinal progress value.
    pub progress: i32,
}

/// A persisted task record, as the store holds it: the lifecycle state is a
/// bare reference by identifier. `id` and `nr` are immutable once created;
/// `updated_at` strictly advances on every mutation.
#[derive(Clone, Debug)]
pub struct Task {
    pub id: String,
    /// Sequential, human-facing number.
    pub nr: i32,
    pub title: String,
    pub description: String,
    /// Identifier of the task's lifecycle state.
    pub state: String,
    pub created_by: String,
    pub taken_by: Option<String>,
    /// UTC nanoseconds.
    pub created_at: i128,
    /// UTC nanoseconds.
    pub updated_at: i128,
    pub taken_at: Option<i128>,
    pub completed_at: Option<i128>,
}

/// A hydrated task representation: the record's fields enriched with the
/// resolved state name and progress value for presentation.
#[derive(Clone, Debug)]
pub struct TaskOutput {
    pub id: String,
    pub nr: i32,
    pub title: String,
    pub description: String,
    /// Identifier of the task's lifecycle state.
    pub state: String,
    /// Resolved human-readable progress name.
    pub state_name: String,
    /// Resolved ordinal progress value.
    pub progress: i32,
    pub created_by: String,
    pub taken_by: Option<String>,
    pub created_at: i128,
    pub updated_at: i128,
    pub taken_at: Option<i128>,
    pub completed_at: Option<i128>,
}

/// Creation request: required title and description, and a state reference
/// by identifier. The creator identity comes from the caller's context.
#[derive(Clone, Debug)]
pub struct CreateInput {
    pub title: String,
    pub description: String,
    /// Identifier of the initial lifecycle state.
    pub state: String,
}

/// Update request: any omitted field is left unchanged. Progress refers to a
/// state by its ordinal value, not by its identifier.
#[derive(Clone, Debug)]
pub struct UpdateTaskInput {
    pub title: Option<String>,
    pub description: Option<String>,
    pub progress: Option<i32>,
}

/// Raw search criteria: all fields optional, possibly with surrounding
/// whitespace; absence means "no constraint on this field".
#[derive(Clone, Debug)]
pub struct SearchTaskInput {
    /// Progress filter, as raw text still to be parsed.
    pub progress: Option<String>,
    pub title: Option<String>,
    pub description: Option<String>,
    pub created_by: Option<String>,
    pub taken_by: Option<String>,
}

/// Normalized search criteria, as the store's query takes them: the progress
/// parsed, the free-text fields turned into wildcard patterns, the identity
/// filters trimmed.
#[derive(Clone, Debug)]
pub struct SearchTaskData {
    pub progress: Option<i32>,
    pub created_by: Option<String>,
    pub taken_by: Option<String>,
    pub title: Option<String>,
    pub description: Option<String>,
}

/// The row handed to the store's create operation.
#[derive(Clone, Debug)]
pub struct CreateTaskData {
    pub state: State,
    pub created_by: String,
    pub created_at: i128,
    pub updated_at: i128,
    pub title: String,
    pub description: String,
}

/// The diff handed to the store's update operation: a supplied field is
/// rewritten, an absent one left untouched. Nullable columns carry a nested
/// option, so that clearing and leaving alone stay distinct.
#[derive(Clone, Debug)]
pub struct UpdateTaskData {
    pub state: Option<String>,
    pub created_by: Option<String>,
    pub taken_by: Option<Option<String>>,
    pub created_at: Option<i128>,
    pub updated_at: Option<i128>,
    pub taken_at: Option<Option<i128>>,
    pub completed_at: Option<Option<i128>>,
    pub title: Option<String>,
    pub description: Option<String>,
}

impl Task {
    /// A record never carries an update time before its creation time.
    pub open spec fn wf(self) -> bool {
        self.created_at <= self.updated_at
    }

    /// The record the store holds right after creating from `data`, once the
    /// store has assigned `id` and `nr`: nothing is taken or completed yet.
    pub open spec fn created(data: CreateTaskData, id: String, nr: i32) -> Task {
        Task {
            id,
            nr,
            title: data.title,
            description: data.description,
            state: data.state.id,
            created_by: data.created_by,
            taken_by: None,
            created_at: data.created_at,
            updated_at: data.updated_at,
            taken_at: None,
            completed_at: None,
        }
    }

    /// Builds the record that creation persists.
    pub fn from_create(data: CreateTaskData, id: String, nr: i32) -> (t: Task)
        ensures
            t == Task::created(data, id, nr),
    {
        Task {
            id,
            nr,
            title: data.title,
            description: data.description,
            state: data.state.id,
            created_by: data.created_by,
            taken_by: None,
            created_at: data.created_at,
            updated_at: data.updated_at,
            taken_at: None,
            completed_at: None,
        }
    }

    /// The record after the store applies `diff`: each supplied field is
    /// rewritten, each absent field keeps its prior value; `id` and `nr`
    /// never move.
    pub open spec fn applied(self, diff: UpdateTaskData) -> Task {
        Task {
            id: self.id,
            nr: self.nr,
            title: match diff.title {
                Some(t) => t,
                None => self.title,
            },
            description: match diff.description {
                Some(d) => d,
                None => self.description,
            },
            state: match diff.state {
                Some(s) => s,
                None => self.state,
            },
            created_by: match diff.created_by {
                Some(c) => c,
                None => self.created_by,
            },
            taken_by: match diff.taken_by {
                Some(t) => t,
                None => self.taken_by,
            },
            created_at: match diff.created_at {
                Some(c) => c,
                None => self.created_at,
            },
            updated_at: match diff.updated_at {
                Some(u) => u,
                None => self.updated_at,
            },
            taken_at: match diff.taken_at {
                Some(t) => t,
                None => self.taken_at,
            },
            completed_at: match diff.completed_at {
                Some(c) => c,
                None => self.completed_at,
            },
        }
    }

    /// Rewrites the record as the store's update operation does.
    pub fn apply_update(self, diff: UpdateTaskData) -> (t: Task)
        ensures
            t == self.applied(diff),
    {
        Task {
            id: self.id,
            nr: self.nr,
            title: match diff.title {
                Some(t) => t,
                None => self.title,
            },
            description: match diff.description {
                Some(d) => d,
                None => self.description,
            },
            state: match diff.state {
                Some(s) => s,
                None => self.state,
            },
            created_by: match diff.created_by {
                Some(c) => c,
                None => self.created_by,
            },
            taken_by: match diff.taken_by {
                Some(t) => t,
                None => self.taken_by,
            },
            created_at: match diff.created_at {
                Some(c) => c,
                None => self.created_at,
            },
            updated_at: match diff.updated_at {
                Some(u) => u,
                None => self.updated_at,
            },
            taken_at: match diff.taken_at {
                Some(t) => t,
                None => self.taken_at,
            },
            completed_at: match diff.completed_at {
                Some(c) => c,
                None => self.completed_at,
            },
        }
    }
}

impl TaskOutput {
    /// The hydrated view of `task` under its resolved `state`.
    pub open spec fn hydrated(task: Task, state: State) -> TaskOutput {
        TaskOutput {
            id: task.id,
            nr: task.nr,
            title: task.title,
            description: task.description,
            state: task.state,
            state_name: state.name,
            progress: state.progress,
            created_by: task.created_by,
            taken_by: task.taken_by,
            created_at: task.created_at,
            updated_at: task.updated_at,
            taken_at: task.taken_at,
            completed_at: task.completed_at,
        }
    }

    /// Enriches a record with its resolved state for presentation.
    pub fn from_task(task: Task, state: &State) -> (out: TaskOutput)
        requires
            task.state@ == state.id@,
        ensures
            out == TaskOutput::hydrated(task, *state),
    {
        TaskOutput {
            id: task.id,
            nr: task.nr,
            title: task.title,
            description: task.description,
            state: task.state,
            state_name: state.name.clone(),
            progress: state.progress,
            created_by: task.created_by,
            taken_by: task.taken_by,
            created_at: task.created_at,
            updated_at: task.updated_at,
            taken_at: task.taken_at,
            completed_at: task.completed_at,
        }
    }
}

} // verus!
