//! The task service: search normalization, creation, and minimal-diff
//! updates. State lookups come in as resolver results; the raw resolver
//! signal `StateNotFound` is translated here into the domain-facing
//! `ProgressStateNotFound`, and every other failure propagates unchanged.
//!
//! The store round trips themselves happen outside this core: each
//! operation decides, from the current record and the resolver's answer,
//! exactly what the store is to be asked.

use vstd::prelude::*;
use crate::error::Error;
use crate::model::{
    CreateInput,
    CreateTaskData,
    SearchTaskData,
    SearchTaskInput,
    State,
    Task,
    UpdateTaskData,
    UpdateTaskInput,
};
use crate::parse::{int_value, is_i32_text, parse_i32};
use crate::text::{build_like_pattern, like_pattern, trim_spec, trim_str};

verus! {

/// The outcome of an update decision: either nothing genuinely changed and
/// the store is left untouched, or a diff is to be persisted.
#[derive(Clone, Debug)]
pub enum UpdateAction {
    /// Nothing would change: skip persistence and hand back the current
    /// record with its original `updated_at`.
    Unchanged,
    /// Persist this diff under the task's identifier.
    Write(UpdateTaskData),
}

/// The task lifecycle and search operations.
pub struct TaskService;

impl TaskService {
    /// The diff of one text field: kept only when supplied and genuinely
    /// different from the current value.
    pub open spec fn text_diff(supplied: Option<String>, current: String) -> Option<String> {
        match supplied {
            Some(t) => if t@ != current@ {
                Some(t)
            } else {
                None
            },
            None => None,
        }
    }

    /// The state part of an update diff: nothing when no progress was
    /// supplied or the resolved state is already current; the resolved
    /// identifier when it differs; `ProgressStateNotFound` when the lookup
    /// matched nothing; any other lookup failure unchanged.
    pub open spec fn state_diff(
        lookup: Option<Result<State, Error>>,
        current_state: String,
    ) -> Result<Option<String>, Error> {
        match lookup {
            None => Ok(None),
            Some(Ok(st)) => Ok(
                if st.id@ != current_state@ {
                    Some(st.id)
                } else {
                    None
                },
            ),
            Some(Err(Error::StateNotFound)) => Err(Error::ProgressStateNotFound),
            Some(Err(e)) => Err(e),
        }
    }

    /// What `update` decides: the minimal diff, `Unchanged` when that diff
    /// is empty, and on a genuine change a diff that touches nothing beyond
    /// the changed fields and `updated_at`.
    pub open spec fn update_result(
        old: Task,
        input: UpdateTaskInput,
        lookup: Option<Result<State, Error>>,
        now: i128,
    ) -> Result<UpdateAction, Error> {
        match Self::state_diff(lookup, old.state) {
            Err(e) => Err(e),
            Ok(state) => {
                let title = Self::text_diff(input.title, old.title);
                let description = Self::text_diff(input.description, old.description);
                if title is None && description is None && state is None {
                    Ok(UpdateAction::Unchanged)
                } else {
                    Ok(
                        UpdateAction::Write(
                            UpdateTaskData {
                                state,
                                created_by: None,
                                taken_by: None,
                                created_at: None,
                                updated_at: Some(now),
                                taken_at: None,
                                completed_at: None,
                                title,
                                description,
                            },
                        ),
                    )
                }
            },
        }
    }

    /// What `create` returns: on a resolved state, the row to persist, with
    /// creation and update time both stamped to the same instant; on a
    /// failed lookup, `ProgressStateNotFound` for the raw "no such state"
    /// signal and the original failure otherwise.
    pub open spec fn create_result(
        created_by: String,
        input: CreateInput,
        lookup: Result<State, Error>,
        now: i128,
    ) -> Result<CreateTaskData, Error> {
        match lookup {
            Err(Error::StateNotFound) => Err(Error::ProgressStateNotFound),
            Err(e) => Err(e),
            Ok(state) => Ok(
                CreateTaskData {
                    state,
                    created_by,
                    created_at: now,
                    updated_at: now,
                    title: input.title,
                    description: input.description,
                },
            ),
        }
    }

    /// Normalizes raw search criteria into the store's query data: the
    /// progress filter parsed (failing with `InvalidParam` when not a
    /// number), the free-text filters turned into wildcard patterns, the
    /// identity filters trimmed, and absent fields left absent.
    pub fn search(input: SearchTaskInput) -> (r: Result<SearchTaskData, Error>)
        ensures
            match r {
                Ok(d) => {
                    &&& match input.progress {
                        Some(p) => is_i32_text(p@) && (d.progress matches Some(v) && v as int
                            == int_value(p@)),
                        None => d.progress is None,
                    }
                    &&& match input.title {
                        Some(t) => d.title matches Some(pat) && pat@ == like_pattern(t@),
                        None => d.title is None,
                    }
                    &&& match input.description {
                        Some(t) => d.description matches Some(pat) && pat@ == like_pattern(t@),
                        None => d.description is None,
                    }
                    &&& match input.created_by {
                        Some(c) => d.created_by matches Some(x) && x@ == trim_spec(c@),
                        None => d.created_by is None,
                    }
                    &&& match input.taken_by {
                        Some(c) => d.taken_by matches Some(x) && x@ == trim_spec(c@),
                        None => d.taken_by is None,
                    }
                },
                Err(e) => {
                    &&& e == Error::InvalidParam
                    &&& input.progress matches Some(p) && !is_i32_text(p@)
                },
            },
    {
        let progress = match input.progress {
            Some(p) => match parse_i32(p.as_str()) {
                Ok(v) => Some(v),
                Err(err) => {
                    return Err(err);
                },
            },
            None => None,
        };
        let title = match input.title {
            Some(t) => Some(build_like_pattern(t.as_str())),
            None => None,
        };
        let description = match input.description {
            Some(t) => Some(build_like_pattern(t.as_str())),
            None => None,
        };
        let created_by = match input.created_by {
            Some(c) => Some(trim_str(c.as_str())),
            None => None,
        };
        let taken_by = match input.taken_by {
            Some(c) => Some(trim_str(c.as_str())),
            None => None,
        };
        Ok(SearchTaskData { progress, created_by, taken_by, title, description })
    }

    /// Decides a creation: translates the resolver's answer and stamps both
    /// timestamps to the same instant. The returned row is exactly what the
    /// store is to persist; on an error, nothing is to be persisted.
    pub fn create(
        created_by: String,
        input: CreateInput,
        state_lookup: Result<State, Error>,
        now: i128,
    ) -> (r: Result<CreateTaskData, Error>)
        ensures
            r == Self::create_result(created_by, input, state_lookup, now),
    {
        let state = match state_lookup {
            Ok(state) => state,
            Err(Error::StateNotFound) => {
                return Err(Error::ProgressStateNotFound);
            },
            Err(err) => {
                return Err(err);
            },
        };
        Ok(
            CreateTaskData {
                state,
                created_by,
                created_at: now,
                updated_at: now,
                title: input.title,
                description: input.description,
            },
        )
    }

    /// Decides an update against the current record. `state_lookup` is the
    /// resolver's answer for the supplied progress value, present exactly
    /// when the input carries one.
    pub fn update(
        old: &Task,
        input: UpdateTaskInput,
        state_lookup: Option<Result<State, Error>>,
        now: i128,
    ) -> (r: Result<UpdateAction, Error>)
        requires
            input.progress is Some <==> state_lookup is Some,
        ensures
            r == Self::update_result(*old, input, state_lookup, now),
    {
        let title = match input.title {
            Some(title) => if title != old.title {
                Some(title)
            } else {
                None
            },
            None => None,
        };
        let description = match input.description {
            Some(description) => if description != old.description {
                Some(description)
            } else {
                None
            },
            None => None,
        };
        let state = match state_lookup {
            Some(lookup) => match lookup {
                Ok(st) => if st.id != old.state {
                    Some(st.id)
                } else {
                    None
                },
                Err(Error::StateNotFound) => {
                    return Err(Error::ProgressStateNotFound);
                },
                Err(err) => {
                    return Err(err);
                },
            },
            None => None,
        };
        if title.is_none() && description.is_none() && state.is_none() {
            return Ok(UpdateAction::Unchanged);
        }
        Ok(
            UpdateAction::Write(
                UpdateTaskData {
                    state,
                    created_by: None,
                    taken_by: None,
                    created_at: None,
                    updated_at: Some(now),
                    taken_at: None,
                    completed_at: None,
                    title,
                    description,
                },
            ),
        )
    }
}

} // verus!
