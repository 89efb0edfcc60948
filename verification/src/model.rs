//! The property model that record extraction works on.
//!
//! A raw calendar or contact record is a list of components; each
//! component carries a kind and an ordered list of properties; each
//! property has a name and an ordered list of typed values. A vCard
//! record is a single flat list of properties.

use vstd::prelude::*;

verus! {

/// The kind of a calendar component, as far as extraction cares.
#[derive(Debug, Clone, Copy, PartialEq, Eq, Structural)]
pub enum CompKind {
    /// An event component.
    Event,
    /// A to-do component.
    Todo,
    /// Any other component (the calendar wrapper, time zones, alarms...).
    Other,
}

/// One typed property value.
#[derive(Debug, Clone)]
pub enum PropValue {
    /// A value with a textual form: plain text, URIs and the named
    /// enumerated values (status, transparency, classification...).
    Text(String),
    /// An integer value.
    Integer(i64),
    /// A date-time that resolves in UTC, as seconds since the Unix epoch.
    Stamp(i64),
    /// A recurrence rule, rendered back to its textual form.
    Rrule(String),
    /// Anything else (binary data, durations, unresolvable date-times...).
    Other,
}

/// One property: a name such as `SUMMARY` and its values in source order.
#[derive(Debug, Clone)]
pub struct Prop {
    pub name: String,
    pub values: Vec<PropValue>,
}

/// One component of a calendar record.
#[derive(Debug, Clone)]
pub struct Component {
    pub kind: CompKind,
    pub props: Vec<Prop>,
}

/// Mathematical image of a `PropValue`.
pub enum PropValueV {
    Text(Seq<char>),
    Integer(i64),
    Stamp(i64),
    Rrule(Seq<char>),
    Other,
}

/// Mathematical image of a `Prop`.
pub struct PropV {
    pub name: Seq<char>,
    pub values: Seq<PropValueV>,
}

/// Mathematical image of a `Component`.
pub struct ComponentV {
    pub kind: CompKind,
    pub props: Seq<PropV>,
}

impl View for PropValue {
    type V = PropValueV;

    open spec fn view(&self) -> PropValueV {
        match self {
            PropValue::Text(s) => PropValueV::Text(s@),
            PropValue::Integer(i) => PropValueV::Integer(*i),
            PropValue::Stamp(t) => PropValueV::Stamp(*t),
            PropValue::Rrule(s) => PropValueV::Rrule(s@),
            PropValue::Other => PropValueV::Other,
        }
    }
}

impl View for Prop {
    type V = PropV;

    open spec fn view(&self) -> PropV {
        PropV { name: self.name@, values: self.values@.map_values(|v: PropValue| v@) }
    }
}

impl View for Component {
    type V = ComponentV;

    open spec fn view(&self) -> ComponentV {
        ComponentV { kind: self.kind, props: self.props@.map_values(|p: Prop| p@) }
    }
}

/// The image of a whole component list.
pub open spec fn components_view(comps: Seq<Component>) -> Seq<ComponentV> {
    comps.map_values(|c: Component| c@)
}

/// The image of a whole property list.
pub open spec fn props_view(props: Seq<Prop>) -> Seq<PropV> {
    props.map_values(|p: Prop| p@)
}

/// The first component of the given kind, if any.
pub open spec fn find_component(comps: Seq<ComponentV>, kind: CompKind) -> Option<ComponentV>
    decreases comps.len(),
{
    if comps.len() == 0 {
        None
    } else if comps[0].kind == kind {
        Some(comps[0])
    } else {
        find_component(comps.drop_first(), kind)
    }
}

} // verus!
