//! Calendar events and their extraction from raw records.

use vstd::prelude::*;

use crate::error::ExtractError;
use crate::extract::{collect_text_values, find_component_idx, first_rrule, first_rrule_value,
    first_stamp, first_stamp_value, first_u32, first_u32_value, multi_texts, opt_view,
    single_text, single_text_value, strs_view, text_or, text_value_or};
use crate::markup::{ical_doc, parse_ical_components};
use crate::model::{CompKind, Component, ComponentV, components_view, find_component};

verus! {

/// One calendar event. Every field but `uid` is optional; `uid`
/// defaults to the empty string when the source record lacks one.
#[derive(Debug, Clone)]
pub struct Event {
    pub summary: Option<String>,
    pub description: Option<String>,
    pub start_time: Option<i64>,
    pub end_time: Option<i64>,
    pub uid: String,
    pub location: Option<String>,
    pub categories: Vec<String>,
    pub priority: Option<u32>,
    pub organizer: Option<String>,
    pub attendees: Vec<String>,
    pub status: Option<String>,
    pub transparency: Option<String>,
    pub class: Option<String>,
    pub created: Option<i64>,
    pub last_modified: Option<i64>,
    pub url: Option<String>,
    pub rrule: Option<String>,
}

/// Mathematical image of an `Event`.
pub struct EventV {
    pub summary: Option<Seq<char>>,
    pub description: Option<Seq<char>>,
    pub start_time: Option<i64>,
    pub end_time: Option<i64>,
    pub uid: Seq<char>,
    pub location: Option<Seq<char>>,
    pub categories: Seq<Seq<char>>,
    pub priority: Option<u32>,
    pub organizer: Option<Seq<char>>,
    pub attendees: Seq<Seq<char>>,
    pub status: Option<Seq<char>>,
    pub transparency: Option<Seq<char>>,
    pub class: Option<Seq<char>>,
    pub created: Option<i64>,
    pub last_modified: Option<i64>,
    pub url: Option<Seq<char>>,
    pub rrule: Option<Seq<char>>,
}

impl View for Event {
    type V = EventV;

    open spec fn view(&self) -> EventV {
        EventV {
            summary: opt_view(self.summary),
            description: opt_view(self.description),
            start_time: self.start_time,
            end_time: self.end_time,
            uid: self.uid@,
            location: opt_view(self.location),
            categories: strs_view(self.categories@),
            priority: self.priority,
            organizer: opt_view(self.organizer),
            attendees: strs_view(self.attendees@),
            status: opt_view(self.status),
            transparency: opt_view(self.transparency),
            class: opt_view(self.class),
            created: self.created,
            last_modified: self.last_modified,
            url: opt_view(self.url),
            rrule: opt_view(self.rrule),
        }
    }
}

/// What extraction yields for a given event component.
pub open spec fn event_of(c: ComponentV) -> EventV {
    EventV {
        summary: single_text(c.props, "SUMMARY"@),
        description: single_text(c.props, "DESCRIPTION"@),
        start_time: first_stamp(c.props, "DTSTART"@),
        end_time: first_stamp(c.props, "DTEND"@),
        uid: text_or(c.props, "UID"@, ""@),
        location: single_text(c.props, "LOCATION"@),
        categories: multi_texts(c.props, "CATEGORIES"@),
        priority: first_u32(c.props, "PRIORITY"@),
        organizer: single_text(c.props, "ORGANIZER"@),
        attendees: multi_texts(c.props, "ATTENDEE"@),
        status: single_text(c.props, "STATUS"@),
        transparency: single_text(c.props, "TRANSP"@),
        class: single_text(c.props, "CLASS"@),
        created: first_stamp(c.props, "CREATED"@),
        last_modified: first_stamp(c.props, "LAST-MODIFIED"@),
        url: single_text(c.props, "URL"@),
        rrule: first_rrule(c.props, "RRULE"@),
    }
}

/// What `Event::from_str` yields for a given raw record.
pub open spec fn event_from_text(s: Seq<char>) -> Result<EventV, ExtractError> {
    match ical_doc(s) {
        None => Err(ExtractError::Syntax),
        Some(comps) => match find_component(comps, CompKind::Event) {
            None => Err(ExtractError::MissingComponent),
            Some(c) => Ok(event_of(c)),
        },
    }
}

impl Event {
    /// Extract an event from one component, under the uniform field
    /// policy.
    pub fn extract(c: &Component) -> (e: Event)
        ensures
            e@ == event_of(c@),
    {
        Event {
            summary: single_text_value(&c.props, "SUMMARY"),
            description: single_text_value(&c.props, "DESCRIPTION"),
            start_time: first_stamp_value(&c.props, "DTSTART"),
            end_time: first_stamp_value(&c.props, "DTEND"),
            uid: text_value_or(&c.props, "UID", ""),
            location: single_text_value(&c.props, "LOCATION"),
            categories: collect_text_values(&c.props, "CATEGORIES"),
            priority: first_u32_value(&c.props, "PRIORITY"),
            organizer: single_text_value(&c.props, "ORGANIZER"),
            attendees: collect_text_values(&c.props, "ATTENDEE"),
            status: single_text_value(&c.props, "STATUS"),
            transparency: single_text_value(&c.props, "TRANSP"),
            class: single_text_value(&c.props, "CLASS"),
            created: first_stamp_value(&c.props, "CREATED"),
            last_modified: first_stamp_value(&c.props, "LAST-MODIFIED"),
            url: single_text_value(&c.props, "URL"),
            rrule: first_rrule_value(&c.props, "RRULE"),
        }
    }

    /// Extract an event from a parsed component list: the first event
    /// component wins; a list without one yields `None`.
    pub fn from_components(comps: &Vec<Component>) -> (r: Option<Event>)
        ensures
            r is Some <==> find_component(components_view(comps@), CompKind::Event) is Some,
            r matches Some(e) ==> e@ == event_of(
                find_component(components_view(comps@), CompKind::Event).unwrap(),
            ),
    {
        match find_component_idx(comps, CompKind::Event) {
            None => None,
            Some(i) => Some(Event::extract(&comps[i])),
        }
    }

    /// Parse a raw calendar record and extract its event.
    ///
    /// Returns `Err(Syntax)` exactly when the text is no calendar
    /// record, `Err(MissingComponent)` exactly when it holds no event
    /// component, and the extracted event otherwise.
    pub fn from_str(s: &str) -> (r: Result<Event, ExtractError>)
        ensures
            (match event_from_text(s@) {
                Ok(ev) => r matches Ok(e) && e@ == ev,
                Err(er) => r == Err::<Event, ExtractError>(er),
            }),
    {
        match parse_ical_components(s) {
            None => Err(ExtractError::Syntax),
            Some(comps) => match Event::from_components(&comps) {
                None => Err(ExtractError::MissingComponent),
                Some(e) => Ok(e),
            },
        }
    }
}

/// Law: a date field that did not resolve degrades to absent without
/// failing the record — an event whose start value is no resolved
/// stamp has no start time, while its resolved end stamp is kept.
pub proof fn lemma_event_partial_date_tolerance(c: ComponentV)
    requires
        (match crate::extract::first_value(c.props, "DTSTART"@) {
            Some(v) => !(v is Stamp),
            None => true,
        }),
        crate::extract::first_value(c.props, "DTEND"@) matches Some(v) && v is Stamp,
    ensures
        event_of(c).start_time is None,
        event_of(c).end_time is Some,
{
}

} // verus!
