//! Properties of the service, stated and proved once for all inputs.

use vstd::prelude::*;
use crate::error::Error;
use crate::model::{CreateInput, CreateTaskData, State, SearchTaskData, Task, TaskOutput,
    UpdateTaskData, UpdateTaskInput};
use crate::pattern::criteria_match;
use crate::service::{TaskService, UpdateAction};

verus! {

/// An update whose supplied title and description equal the current values,
/// and whose progress is absent or resolves to the current state, decides
/// `Unchanged`: no write happens and the record keeps its original
/// `updated_at`.
pub proof fn unchanged_update_is_noop(
    old: Task,
    input: UpdateTaskInput,
    lookup: Option<Result<State, Error>>,
    now: i128,
)
    requires
        match input.title {
            Some(t) => t@ == old.title@,
            None => true,
        },
        match input.description {
            Some(d) => d@ == old.description@,
            None => true,
        },
        match lookup {
            Some(res) => res matches Ok(st) && st.id@ == old.state@,
            None => true,
        },
    ensures
        TaskService::update_result(old, input, lookup, now) == Ok::<UpdateAction, Error>(
            UpdateAction::Unchanged,
        ),
{
}

/// An update with at least one genuinely changed field rewrites exactly the
/// changed fields and `updated_at`: the record after the write carries
/// `updated_at == now`, strictly past the prior one whenever the clock
/// advanced, and every untouched field keeps its prior value.
pub proof fn genuine_update_advances(
    old: Task,
    input: UpdateTaskInput,
    lookup: Option<Result<State, Error>>,
    now: i128,
    d: UpdateTaskData,
)
    requires
        now > old.updated_at,
        input.progress is Some <==> lookup is Some,
        TaskService::update_result(old, input, lookup, now) == Ok::<UpdateAction, Error>(
            UpdateAction::Write(d),
        ),
    ensures
        old.applied(d).updated_at == now,
        old.applied(d).updated_at > old.updated_at,
        old.applied(d).id == old.id,
        old.applied(d).nr == old.nr,
        old.applied(d).created_by == old.created_by,
        old.applied(d).taken_by == old.taken_by,
        old.applied(d).created_at == old.created_at,
        old.applied(d).taken_at == old.taken_at,
        old.applied(d).completed_at == old.completed_at,
        d.title is None ==> old.applied(d).title == old.title,
        d.description is None ==> old.applied(d).description == old.description,
        d.state is None ==> old.applied(d).state == old.state,
        input.title is None ==> old.applied(d).title == old.title,
        input.description is None ==> old.applied(d).description == old.description,
        input.progress is None ==> old.applied(d).state == old.state,
        old.wf() ==> old.applied(d).wf(),
{
}

/// A search with no criteria constrains nothing: every task matches.
pub proof fn no_criteria_matches_all(d: SearchTaskData, t: TaskOutput)
    requires
        d.progress is None,
        d.title is None,
        d.description is None,
        d.created_by is None,
        d.taken_by is None,
    ensures
        criteria_match(d, t),
{
}

/// A creation decision stamps creation and update time to one instant, and
/// the record the store then holds is well formed.
pub proof fn creation_stamps_one_instant(
    created_by: String,
    input: CreateInput,
    lookup: Result<State, Error>,
    now: i128,
    data: CreateTaskData,
    id: String,
    nr: i32,
)
    requires
        TaskService::create_result(created_by, input, lookup, now) == Ok::<CreateTaskData, Error>(
            data,
        ),
    ensures
        data.created_at == now,
        data.updated_at == now,
        Task::created(data, id, nr).created_at == Task::created(data, id, nr).updated_at,
        Task::created(data, id, nr).wf(),
{
}

/// The raw resolver signal `StateNotFound` never surfaces from a creation:
/// it is always translated to `ProgressStateNotFound`.
pub proof fn create_never_surfaces_state_not_found(
    created_by: String,
    input: CreateInput,
    lookup: Result<State, Error>,
    now: i128,
)
    ensures
        TaskService::create_result(created_by, input, lookup, now) != Err::<CreateTaskData, Error>(
            Error::StateNotFound,
        ),
{
}

/// The raw resolver signal `StateNotFound` never surfaces from an update
/// either.
pub proof fn update_never_surfaces_state_not_found(
    old: Task,
    input: UpdateTaskInput,
    lookup: Option<Result<State, Error>>,
    now: i128,
)
    ensures
        TaskService::update_result(old, input, lookup, now) != Err::<UpdateAction, Error>(
            Error::StateNotFound,
        ),
{
}

} // verus!
