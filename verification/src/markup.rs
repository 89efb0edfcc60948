//! The boundary to the calendar/contact markup parser (the `calcard`
//! crate), and the verified rebuild of its output into the library's
//! own property model.
//!
//! Parsing raw text is done by `calcard`; what it yields for a given
//! input is named by the uninterpreted functions `ical_doc` and
//! `vcard_doc`. The trusted accessors below each expose one projection
//! of that result; `parse_ical_components` and `parse_vcard_props`
//! assemble the full model from them with verified loops.

use vstd::prelude::*;

use crate::model::{CompKind, Component, ComponentV, Prop, PropV, PropValue, components_view,
    props_view};

verus! {

#[verifier::external_type_specification]
#[verifier::external_body]
pub struct ExICalendar(calcard::icalendar::ICalendar);

#[verifier::external_type_specification]
#[verifier::external_body]
pub struct ExVCard(calcard::vcard::VCard);

/// What parsing a calendar record yields: `None` on a syntax error,
/// otherwise the component list in the library's model.
pub uninterp spec fn ical_doc(s: Seq<char>) -> Option<Seq<ComponentV>>;

/// The contents of a parsed calendar document, in the library's model.
pub uninterp spec fn ic_model(ic: calcard::icalendar::ICalendar) -> Seq<ComponentV>;

/// What parsing a contact record yields: `None` on a syntax error,
/// otherwise the property list in the library's model.
pub uninterp spec fn vcard_doc(s: Seq<char>) -> Option<Seq<PropV>>;

/// The contents of a parsed contact document, in the library's model.
pub uninterp spec fn vc_model(vc: calcard::vcard::VCard) -> Seq<PropV>;

/// Relies on calcard's `ICalendar::parse`: a deterministic parser from
/// text to a calendar document, `Err` on input that is no calendar.
#[verifier::external_body]
fn ical_parse(s: &str) -> (r: Option<calcard::icalendar::ICalendar>)
    ensures
        r is Some <==> ical_doc(s@) is Some,
        r matches Some(ic) ==> ic_model(ic) == ical_doc(s@).unwrap(),
{
    calcard::icalendar::ICalendar::parse(s).ok()
}

/// Relies on the `components` field of calcard's `ICalendar`: the
/// parsed components in source order.
#[verifier::external_body]
fn ical_component_count(ic: &calcard::icalendar::ICalendar) -> (n: usize)
    ensures
        n == ic_model(*ic).len(),
{
    ic.components.len()
}

/// Relies on the `component_type` field of calcard's
/// `ICalendarComponent`: which kind of component was parsed.
#[verifier::external_body]
fn ical_component_kind(ic: &calcard::icalendar::ICalendar, i: usize) -> (k: CompKind)
    requires
        i < ic_model(*ic).len(),
    ensures
        k == ic_model(*ic)[i as int].kind,
{
    match ic.components[i].component_type {
        calcard::icalendar::ICalendarComponentType::VEvent => CompKind::Event,
        calcard::icalendar::ICalendarComponentType::VTodo => CompKind::Todo,
        _ => CompKind::Other,
    }
}

/// Relies on the `entries` field of calcard's `ICalendarComponent`:
/// the component's properties in source order.
#[verifier::external_body]
fn ical_prop_count(ic: &calcard::icalendar::ICalendar, i: usize) -> (n: usize)
    requires
        i < ic_model(*ic).len(),
    ensures
        n == ic_model(*ic)[i as int].props.len(),
{
    ic.components[i].entries.len()
}

/// Relies on calcard's `ICalendarProperty::as_str`: the canonical
/// name of a known property, the verbatim name of an unknown one.
#[verifier::external_body]
fn ical_prop_name(ic: &calcard::icalendar::ICalendar, i: usize, j: usize) -> (nm: String)
    requires
        i < ic_model(*ic).len(),
        j < ic_model(*ic)[i as int].props.len(),
    ensures
        nm@ == ic_model(*ic)[i as int].props[j as int].name,
{
    ic.components[i].entries[j].name.as_str().to_string()
}

/// Relies on the `values` field of calcard's `ICalendarEntry`: the
/// property's values in source order.
#[verifier::external_body]
fn ical_value_count(ic: &calcard::icalendar::ICalendar, i: usize, j: usize) -> (n: usize)
    requires
        i < ic_model(*ic).len(),
        j < ic_model(*ic)[i as int].props.len(),
    ensures
        n == ic_model(*ic)[i as int].props[j as int].values.len(),
{
    ic.components[i].entries[j].values.len()
}

/// Relies on calcard's `ICalendarValue` accessors: `as_text` (text,
/// URIs and named enumerated values), `as_integer`,
/// `as_partial_date_time` with `to_date_time_with_tz` resolving in
/// UTC, and the rendering of recurrence rules; the accessors match
/// disjoint variants.
#[verifier::external_body]
fn ical_value_at(ic: &calcard::icalendar::ICalendar, i: usize, j: usize, k: usize) -> (v:
    PropValue)
    requires
        i < ic_model(*ic).len(),
        j < ic_model(*ic)[i as int].props.len(),
        k < ic_model(*ic)[i as int].props[j as int].values.len(),
    ensures
        v@ == ic_model(*ic)[i as int].props[j as int].values[k as int],
{
    let v = &ic.components[i].entries[j].values[k];
    if let calcard::icalendar::ICalendarValue::RecurrenceRule(rule) = v {
        return PropValue::Rrule(rule.to_string());
    }
    if let Some(t) = v.as_text() {
        return PropValue::Text(t.to_string());
    }
    if let Some(n) = v.as_integer() {
        return PropValue::Integer(n);
    }
    match v.as_partial_date_time().and_then(|d| d.to_date_time_with_tz(
        calcard::common::timezone::Tz::UTC)) {
        Some(dt) => PropValue::Stamp(dt.timestamp()),
        None => PropValue::Other,
    }
}

/// Relies on calcard's `VCard::parse`: a deterministic parser from
/// text to a contact record, `Err` on input that is no vCard.
#[verifier::external_body]
fn vcard_parse(s: &str) -> (r: Option<calcard::vcard::VCard>)
    ensures
        r is Some <==> vcard_doc(s@) is Some,
        r matches Some(vc) ==> vc_model(vc) == vcard_doc(s@).unwrap(),
{
    calcard::vcard::VCard::parse(s).ok()
}

/// Relies on the `entries` field of calcard's `VCard`: the record's
/// properties in source order.
#[verifier::external_body]
fn vcard_prop_count(vc: &calcard::vcard::VCard) -> (n: usize)
    ensures
        n == vc_model(*vc).len(),
{
    vc.entries.len()
}

/// Relies on calcard's `VCardProperty::as_str`: the canonical name
/// of a known property, the verbatim name of an unknown one.
#[verifier::external_body]
fn vcard_prop_name(vc: &calcard::vcard::VCard, j: usize) -> (nm: String)
    requires
        j < vc_model(*vc).len(),
    ensures
        nm@ == vc_model(*vc)[j as int].name,
{
    vc.entries[j].name.as_str().to_string()
}

/// Relies on the `values` field of calcard's `VCardEntry`: the
/// property's values in source order.
#[verifier::external_body]
fn vcard_value_count(vc: &calcard::vcard::VCard, j: usize) -> (n: usize)
    requires
        j < vc_model(*vc).len(),
    ensures
        n == vc_model(*vc)[j as int].values.len(),
{
    vc.entries[j].values.len()
}

/// Relies on calcard's `VCardValue` accessors: `as_text` (text, the
/// named enumerated values, and the first element of a structured
/// component value), `as_integer`, and `as_partial_date_time` with
/// `to_date_time_with_tz` resolving in UTC; the accessors match
/// disjoint variants.
#[verifier::external_body]
fn vcard_value_at(vc: &calcard::vcard::VCard, j: usize, k: usize) -> (v: PropValue)
    requires
        j < vc_model(*vc).len(),
        k < vc_model(*vc)[j as int].values.len(),
    ensures
        v@ == vc_model(*vc)[j as int].values[k as int],
{
    let v = &vc.entries[j].values[k];
    if let Some(t) = v.as_text() {
        return PropValue::Text(t.to_string());
    }
    if let Some(n) = v.as_integer() {
        return PropValue::Integer(n);
    }
    match v.as_partial_date_time().and_then(|d| d.to_date_time_with_tz(
        calcard::common::timezone::Tz::UTC)) {
        Some(dt) => PropValue::Stamp(dt.timestamp()),
        None => PropValue::Other,
    }
}

/// Rebuild one property from the trusted accessors.
fn ical_prop_at(ic: &calcard::icalendar::ICalendar, i: usize, j: usize) -> (p: Prop)
    requires
        i < ic_model(*ic).len(),
        j < ic_model(*ic)[i as int].props.len(),
    ensures
        p@ == ic_model(*ic)[i as int].props[j as int],
{
    let name = ical_prop_name(ic, i, j);
    let n = ical_value_count(ic, i, j);
    let mut values: Vec<PropValue> = Vec::new();
    let mut k: usize = 0;
    while k < n
        invariant
            n == ic_model(*ic)[i as int].props[j as int].values.len(),
            i < ic_model(*ic).len(),
            j < ic_model(*ic)[i as int].props.len(),
            k <= n,
            values@.map_values(|v: PropValue| v@) =~= ic_model(*ic)[i as int].props[
                j as int].values.subrange(0, k as int),
        decreases n - k,
    {
        let ghost prev = values@;
        let v = ical_value_at(ic, i, j, k);
        values.push(v);
        k = k + 1;
        proof {
            assert(prev.map_values(|v: PropValue| v@).len() == prev.len());
            assert(values@.map_values(|v: PropValue| v@) =~= ic_model(*ic)[i as int].props[
                j as int].values.subrange(0, k as int));
        }
    }
    let p = Prop { name, values };
    proof {
        assert(ic_model(*ic)[i as int].props[j as int].values.subrange(0,
            ic_model(*ic)[i as int].props[j as int].values.len() as int) =~= ic_model(*ic)[
            i as int].props[j as int].values);
        assert(p@ == ic_model(*ic)[i as int].props[j as int]);
    }
    p
}

/// Rebuild one component from the trusted accessors.
fn ical_component_at(ic: &calcard::icalendar::ICalendar, i: usize) -> (c: Component)
    requires
        i < ic_model(*ic).len(),
    ensures
        c@ == ic_model(*ic)[i as int],
{
    let kind = ical_component_kind(ic, i);
    let n = ical_prop_count(ic, i);
    let mut props: Vec<Prop> = Vec::new();
    let mut j: usize = 0;
    while j < n
        invariant
            n == ic_model(*ic)[i as int].props.len(),
            i < ic_model(*ic).len(),
            j <= n,
            props@.map_values(|p: Prop| p@) =~= ic_model(*ic)[i as int].props.subrange(0, j as int),
        decreases n - j,
    {
        let ghost prev = props@;
        let p = ical_prop_at(ic, i, j);
        props.push(p);
        j = j + 1;
        proof {
            assert(prev.map_values(|p: Prop| p@).len() == prev.len());
            assert(props@.map_values(|p: Prop| p@) =~= ic_model(*ic)[i as int].props.subrange(0,
                j as int));
        }
    }
    let c = Component { kind, props };
    proof {
        assert(ic_model(*ic)[i as int].props.subrange(0,
            ic_model(*ic)[i as int].props.len() as int) =~= ic_model(*ic)[i as int].props);
        assert(c@ == ic_model(*ic)[i as int]);
    }
    c
}

/// Parse a raw calendar record into the library's component model.
/// Returns `None` exactly on a syntax error.
pub fn parse_ical_components(s: &str) -> (r: Option<Vec<Component>>)
    ensures
        r is Some <==> ical_doc(s@) is Some,
        r matches Some(comps) ==> components_view(comps@) == ical_doc(s@).unwrap(),
{
    let ic = match ical_parse(s) {
        Some(ic) => ic,
        None => {
            return None;
        },
    };
    let n = ical_component_count(&ic);
    let mut comps: Vec<Component> = Vec::new();
    let mut i: usize = 0;
    while i < n
        invariant
            n == ic_model(ic).len(),
            i <= n,
            components_view(comps@) =~= ic_model(ic).subrange(0, i as int),
        decreases n - i,
    {
        let ghost prev = comps@;
        let c = ical_component_at(&ic, i);
        comps.push(c);
        i = i + 1;
        proof {
            assert(components_view(prev).len() == prev.len());
            assert(components_view(comps@) =~= ic_model(ic).subrange(0, i as int));
        }
    }
    proof {
        assert(ic_model(ic).subrange(0, ic_model(ic).len() as int) =~= ic_model(ic));
    }
    Some(comps)
}

/// Parse a raw contact record into the library's property model.
/// Returns `None` exactly on a syntax error.
pub fn parse_vcard_props(s: &str) -> (r: Option<Vec<Prop>>)
    ensures
        r is Some <==> vcard_doc(s@) is Some,
        r matches Some(props) ==> props_view(props@) == vcard_doc(s@).unwrap(),
{
    let vc = match vcard_parse(s) {
        Some(vc) => vc,
        None => {
            return None;
        },
    };
    let n = vcard_prop_count(&vc);
    let mut props: Vec<Prop> = Vec::new();
    let mut j: usize = 0;
    while j < n
        invariant
            n == vc_model(vc).len(),
            j <= n,
            props_view(props@) =~= vc_model(vc).subrange(0, j as int),
        decreases n - j,
    {
        let name = vcard_prop_name(&vc, j);
        let m = vcard_value_count(&vc, j);
        let mut values: Vec<PropValue> = Vec::new();
        let mut k: usize = 0;
        while k < m
            invariant
                m == vc_model(vc)[j as int].values.len(),
                j < vc_model(vc).len(),
                k <= m,
                values@.map_values(|v: PropValue| v@) =~= vc_model(vc)[j as int].values.subrange(0,
                    k as int),
            decreases m - k,
        {
            let ghost prev = values@;
            let v = vcard_value_at(&vc, j, k);
            values.push(v);
            k = k + 1;
            proof {
                assert(prev.map_values(|v: PropValue| v@).len() == prev.len());
                assert(values@.map_values(|v: PropValue| v@) =~= vc_model(vc)[
                    j as int].values.subrange(0, k as int));
            }
        }
        proof {
            assert(vc_model(vc)[j as int].values.subrange(0,
                vc_model(vc)[j as int].values.len() as int) =~= vc_model(vc)[j as int].values);
        }
        let p = Prop { name, values };
        let ghost prev = props@;
        props.push(p);
        j = j + 1;
        proof {
            assert(props_view(prev).len() == prev.len());
            assert(props_view(props@) =~= vc_model(vc).subrange(0, j as int));
        }
    }
    proof {
        assert(vc_model(vc).subrange(0, vc_model(vc).len() as int) =~= vc_model(vc));
    }
    Some(props)
}

} // verus!
