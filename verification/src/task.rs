//! Tasks (to-dos) and their extraction from raw records.

use vstd::prelude::*;

use crate::error::ExtractError;
use crate::extract::{collect_text_values, find_component_idx, first_stamp, first_stamp_value,
    first_u32, first_u32_value, multi_texts, opt_view, single_text, single_text_value, strs_view,
    text_or, text_value_or};
use crate::markup::{ical_doc, parse_ical_components};
use crate::model::{CompKind, Component, ComponentV, components_view, find_component};

verus! {

/// One task. `status` defaults to `NEEDS-ACTION` when the source
/// record carries none; `uid` defaults to the empty string. Whether a
/// `completed_date` is present is not reconciled with the status.
#[derive(Debug, Clone)]
pub struct Task {
    pub summary: Option<String>,
    pub description: Option<String>,
    pub due_date: Option<i64>,
    pub completed_date: Option<i64>,
    pub status: String,
    pub uid: String,
    pub start_date: Option<i64>,
    pub priority: Option<u32>,
    pub categories: Vec<String>,
    pub percent_complete: Option<u32>,
    pub created: Option<i64>,
    pub last_modified: Option<i64>,
    pub location: Option<String>,
    pub url: Option<String>,
    pub class: Option<String>,
}

/// Mathematical image of a `Task`.
pub struct TaskV {
    pub summary: Option<Seq<char>>,
    pub description: Option<Seq<char>>,
    pub due_date: Option<i64>,
    pub completed_date: Option<i64>,
    pub status: Seq<char>,
    pub uid: Seq<char>,
    pub start_date: Option<i64>,
    pub priority: Option<u32>,
    pub categories: Seq<Seq<char>>,
    pub percent_complete: Option<u32>,
    pub created: Option<i64>,
    pub last_modified: Option<i64>,
    pub location: Option<Seq<char>>,
    pub url: Option<Seq<char>>,
    pub class: Option<Seq<char>>,
}

impl View for Task {
    type V = TaskV;

    open spec fn view(&self) -> TaskV {
        TaskV {
            summary: opt_view(self.summary),
            description: opt_view(self.description),
            due_date: self.due_date,
            completed_date: self.completed_date,
            status: self.status@,
            uid: self.uid@,
            start_date: self.start_date,
            priority: self.priority,
            categories: strs_view(self.categories@),
            percent_complete: self.percent_complete,
            created: self.created,
            last_modified: self.last_modified,
            location: opt_view(self.location),
            url: opt_view(self.url),
            class: opt_view(self.class),
        }
    }
}

/// What extraction yields for a given to-do component.
pub open spec fn task_of(c: ComponentV) -> TaskV {
    TaskV {
        summary: single_text(c.props, "SUMMARY"@),
        description: single_text(c.props, "DESCRIPTION"@),
        due_date: first_stamp(c.props, "DUE"@),
        completed_date: first_stamp(c.props, "COMPLETED"@),
        status: text_or(c.props, "STATUS"@, "NEEDS-ACTION"@),
        uid: text_or(c.props, "UID"@, ""@),
        start_date: first_stamp(c.props, "DTSTART"@),
        priority: first_u32(c.props, "PRIORITY"@),
        categories: multi_texts(c.props, "CATEGORIES"@),
        percent_complete: first_u32(c.props, "PERCENT-COMPLETE"@),
        created: first_stamp(c.props, "CREATED"@),
        last_modified: first_stamp(c.props, "LAST-MODIFIED"@),
        location: single_text(c.props, "LOCATION"@),
        url: single_text(c.props, "URL"@),
        class: single_text(c.props, "CLASS"@),
    }
}

/// What `Task::from_str` yields for a given raw record.
pub open spec fn task_from_text(s: Seq<char>) -> Result<TaskV, ExtractError> {
    match ical_doc(s) {
        None => Err(ExtractError::Syntax),
        Some(comps) => match find_component(comps, CompKind::Todo) {
            None => Err(ExtractError::MissingComponent),
            Some(c) => Ok(task_of(c)),
        },
    }
}

impl Task {
    /// A task counts as completed exactly when its status says so.
    pub fn is_completed(&self) -> (r: bool)
        ensures
            r == (self.status@ == "COMPLETED"@),
    {
        self.status == "COMPLETED".to_owned()
    }

    /// A task counts as cancelled exactly when its status says so.
    pub fn is_cancelled(&self) -> (r: bool)
        ensures
            r == (self.status@ == "CANCELLED"@),
    {
        self.status == "CANCELLED".to_owned()
    }

    /// Extract a task from one component, under the uniform field
    /// policy.
    pub fn extract(c: &Component) -> (t: Task)
        ensures
            t@ == task_of(c@),
    {
        Task {
            summary: single_text_value(&c.props, "SUMMARY"),
            description: single_text_value(&c.props, "DESCRIPTION"),
            due_date: first_stamp_value(&c.props, "DUE"),
            completed_date: first_stamp_value(&c.props, "COMPLETED"),
            status: text_value_or(&c.props, "STATUS", "NEEDS-ACTION"),
            uid: text_value_or(&c.props, "UID", ""),
            start_date: first_stamp_value(&c.props, "DTSTART"),
            priority: first_u32_value(&c.props, "PRIORITY"),
            categories: collect_text_values(&c.props, "CATEGORIES"),
            percent_complete: first_u32_value(&c.props, "PERCENT-COMPLETE"),
            created: first_stamp_value(&c.props, "CREATED"),
            last_modified: first_stamp_value(&c.props, "LAST-MODIFIED"),
            location: single_text_value(&c.props, "LOCATION"),
            url: single_text_value(&c.props, "URL"),
            class: single_text_value(&c.props, "CLASS"),
        }
    }

    /// Extract a task from a parsed component list: the first to-do
    /// component wins; a list without one yields `None`.
    pub fn from_components(comps: &Vec<Component>) -> (r: Option<Task>)
        ensures
            r is Some <==> find_component(components_view(comps@), CompKind::Todo) is Some,
            r matches Some(t) ==> t@ == task_of(
                find_component(components_view(comps@), CompKind::Todo).unwrap(),
            ),
    {
        match find_component_idx(comps, CompKind::Todo) {
            None => None,
            Some(i) => Some(Task::extract(&comps[i])),
        }
    }

    /// Parse a raw calendar record and extract its task.
    ///
    /// Returns `Err(Syntax)` exactly when the text is no calendar
    /// record, `Err(MissingComponent)` exactly when it holds no to-do
    /// component, and the extracted task otherwise.
    pub fn from_str(s: &str) -> (r: Result<Task, ExtractError>)
        ensures
            (match task_from_text(s@) {
                Ok(tv) => r matches Ok(t) && t@ == tv,
                Err(er) => r == Err::<Task, ExtractError>(er),
            }),
    {
        match parse_ical_components(s) {
            None => Err(ExtractError::Syntax),
            Some(comps) => match Task::from_components(&comps) {
                None => Err(ExtractError::MissingComponent),
                Some(t) => Ok(t),
            },
        }
    }
}

/// Law: a to-do component without a `STATUS` property yields the
/// default status, and such a task counts as neither completed nor
/// cancelled.
pub proof fn lemma_task_status_default(c: ComponentV)
    requires
        crate::extract::find_prop(c.props, "STATUS"@) is None,
    ensures
        task_of(c).status == "NEEDS-ACTION"@,
        task_of(c).status != "COMPLETED"@,
        task_of(c).status != "CANCELLED"@,
{
    reveal_strlit("NEEDS-ACTION");
    reveal_strlit("COMPLETED");
    reveal_strlit("CANCELLED");
}

} // verus!
