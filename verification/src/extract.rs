//! Field extraction over the property model.
//!
//! The policy, applied uniformly by all record extractors: a
//! single-valued field reads the first occurrence of a property and
//! treats an empty string as absent; a multi-valued field collects all
//! occurrences in source order and drops empty strings; date-time and
//! integer fields read the first occurrence and degrade to absent when
//! the value is of another shape.

use vstd::prelude::*;

use crate::model::{CompKind, Component, Prop, PropV, PropValue, PropValueV, components_view,
    find_component, props_view};

verus! {

/// The textual form of a value, if it has one.
pub open spec fn value_text(v: PropValueV) -> Option<Seq<char>> {
    match v {
        PropValueV::Text(s) => Some(s),
        _ => None,
    }
}

/// The first property with the given name, if any.
pub open spec fn find_prop(props: Seq<PropV>, name: Seq<char>) -> Option<PropV>
    decreases props.len(),
{
    if props.len() == 0 {
        None
    } else if props[0].name == name {
        Some(props[0])
    } else {
        find_prop(props.drop_first(), name)
    }
}

/// The first value of the first property with the given name.
pub open spec fn first_value(props: Seq<PropV>, name: Seq<char>) -> Option<PropValueV> {
    match find_prop(props, name) {
        Some(p) => if p.values.len() > 0 {
            Some(p.values[0])
        } else {
            None
        },
        None => None,
    }
}

/// The first value as text, with no further policy applied.
pub open spec fn first_text(props: Seq<PropV>, name: Seq<char>) -> Option<Seq<char>> {
    match first_value(props, name) {
        Some(v) => value_text(v),
        None => None,
    }
}

/// A single-valued textual field: the first value as text, an empty
/// string normalized to absent.
pub open spec fn single_text(props: Seq<PropV>, name: Seq<char>) -> Option<Seq<char>> {
    match first_text(props, name) {
        Some(t) => if t.len() > 0 {
            Some(t)
        } else {
            None
        },
        None => None,
    }
}

/// The first value as text, or a default when there is none.
pub open spec fn text_or(props: Seq<PropV>, name: Seq<char>, dflt: Seq<char>) -> Seq<char> {
    match first_text(props, name) {
        Some(t) => t,
        None => dflt,
    }
}

/// A date-time field: the first value, when it resolved to a UTC stamp.
pub open spec fn first_stamp(props: Seq<PropV>, name: Seq<char>) -> Option<i64> {
    match first_value(props, name) {
        Some(PropValueV::Stamp(t)) => Some(t),
        _ => None,
    }
}

/// An integer field: the first value, when it is an integer, narrowed
/// to 32 bits.
pub open spec fn first_u32(props: Seq<PropV>, name: Seq<char>) -> Option<u32> {
    match first_value(props, name) {
        Some(PropValueV::Integer(i)) => Some(i as u32),
        _ => None,
    }
}

/// A recurrence-rule field: the first value, when it is a non-empty
/// rendered rule.
pub open spec fn first_rrule(props: Seq<PropV>, name: Seq<char>) -> Option<Seq<char>> {
    match first_value(props, name) {
        Some(PropValueV::Rrule(s)) => if s.len() > 0 {
            Some(s)
        } else {
            None
        },
        _ => None,
    }
}

/// The non-empty textual values of one property, in order.
pub open spec fn nonempty_texts(values: Seq<PropValueV>) -> Seq<Seq<char>>
    decreases values.len(),
{
    if values.len() == 0 {
        Seq::empty()
    } else {
        let rest = nonempty_texts(values.drop_first());
        match value_text(values[0]) {
            Some(t) => if t.len() > 0 {
                seq![t] + rest
            } else {
                rest
            },
            None => rest,
        }
    }
}

/// All textual values of one property, empty ones included, in order.
pub open spec fn all_texts(values: Seq<PropValueV>) -> Seq<Seq<char>>
    decreases values.len(),
{
    if values.len() == 0 {
        Seq::empty()
    } else {
        let rest = all_texts(values.drop_first());
        match value_text(values[0]) {
            Some(t) => seq![t] + rest,
            None => rest,
        }
    }
}

/// A multi-valued field: the non-empty textual values of every
/// property with the given name, flattened in source order.
pub open spec fn multi_texts(props: Seq<PropV>, name: Seq<char>) -> Seq<Seq<char>>
    decreases props.len(),
{
    if props.len() == 0 {
        Seq::empty()
    } else {
        let rest = multi_texts(props.drop_first(), name);
        if props[0].name == name {
            nonempty_texts(props[0].values) + rest
        } else {
            rest
        }
    }
}

/// The tail of a semicolon join: `";" t0 ";" t1 ...`.
pub open spec fn join_tail(ts: Seq<Seq<char>>) -> Seq<char>
    decreases ts.len(),
{
    if ts.len() == 0 {
        Seq::empty()
    } else {
        seq![';'] + ts[0] + join_tail(ts.drop_first())
    }
}

/// The parts joined with semicolons.
pub open spec fn join_semi(ts: Seq<Seq<char>>) -> Seq<char> {
    if ts.len() == 0 {
        Seq::empty()
    } else {
        ts[0] + join_tail(ts.drop_first())
    }
}

/// A structured single-valued field: the textual components of the
/// first property with the given name joined with semicolons, an empty
/// result normalized to absent.
pub open spec fn joined_text(props: Seq<PropV>, name: Seq<char>) -> Option<Seq<char>> {
    match find_prop(props, name) {
        Some(p) => {
            let j = join_semi(all_texts(p.values));
            if j.len() > 0 {
                Some(j)
            } else {
                None
            }
        },
        None => None,
    }
}

/// A structured multi-valued field: one semicolon-joined string per
/// property with the given name, empty ones dropped, in source order.
pub open spec fn joined_multi(props: Seq<PropV>, name: Seq<char>) -> Seq<Seq<char>>
    decreases props.len(),
{
    if props.len() == 0 {
        Seq::empty()
    } else {
        let rest = joined_multi(props.drop_first(), name);
        if props[0].name == name {
            let j = join_semi(all_texts(props[0].values));
            if j.len() > 0 {
                seq![j] + rest
            } else {
                rest
            }
        } else {
            rest
        }
    }
}

/// The image of an optional owned string.
pub open spec fn opt_view(o: Option<String>) -> Option<Seq<char>> {
    match o {
        Some(s) => Some(s@),
        None => None,
    }
}

/// The image of a list of owned strings.
pub open spec fn strs_view(v: Seq<String>) -> Seq<Seq<char>> {
    v.map_values(|s: String| s@)
}

/// The image of a list of values.
pub open spec fn values_view(v: Seq<PropValue>) -> Seq<PropValueV> {
    v.map_values(|x: PropValue| x@)
}

/// The index of the first property with the given name.
fn find_prop_idx(props: &Vec<Prop>, name: &str) -> (r: Option<usize>)
    ensures
        (match r {
            Some(i) => i < props.len() && find_prop(props_view(props@), name@) == Some(
                props@[i as int]@,
            ),
            None => find_prop(props_view(props@), name@) is None,
        }),
{
    let ghost s = props_view(props@);
    proof {
        assert(s.skip(0) =~= s);
    }
    let wanted: String = name.to_owned();
    let n = props.len();
    let mut i: usize = 0;
    while i < n
        invariant
            n == props.len(),
            s == props_view(props@),
            s.len() == n,
            wanted@ == name@,
            i <= n,
            find_prop(s, name@) == find_prop(s.skip(i as int), name@),
        decreases n - i,
    {
        proof {
            assert(s.skip(i as int)[0] == s[i as int]);
            assert(s[i as int] == props@[i as int]@);
        }
        if props[i].name == wanted {
            proof {
                assert(find_prop(s.skip(i as int), name@) == Some(s[i as int]));
            }
            return Some(i);
        }
        proof {
            assert(s.skip(i as int).drop_first() =~= s.skip(i + 1));
        }
        i = i + 1;
    }
    proof {
        assert(s.skip(n as int).len() == 0);
    }
    None
}

/// The first value as text, with no further policy applied.
pub fn first_text_value(props: &Vec<Prop>, name: &str) -> (r: Option<String>)
    ensures
        opt_view(r) == first_text(props_view(props@), name@),
{
    match find_prop_idx(props, name) {
        None => None,
        Some(i) => {
            if props[i].values.len() == 0 {
                return None;
            }
            proof {
                assert(props@[i as int]@.values[0] == values_view(props[i as int].values@)[0]);
            }
            match &props[i].values[0] {
                PropValue::Text(s) => Some(s.clone()),
                _ => None,
            }
        },
    }
}

/// A single-valued textual field: first occurrence, empty is absent.
pub fn single_text_value(props: &Vec<Prop>, name: &str) -> (r: Option<String>)
    ensures
        opt_view(r) == single_text(props_view(props@), name@),
{
    match first_text_value(props, name) {
        Some(t) => {
            if t.as_str().is_empty() {
                None
            } else {
                Some(t)
            }
        },
        None => None,
    }
}

/// The first value as text, or the given default.
pub fn text_value_or(props: &Vec<Prop>, name: &str, dflt: &str) -> (r: String)
    ensures
        r@ == text_or(props_view(props@), name@, dflt@),
{
    match first_text_value(props, name) {
        Some(t) => t,
        None => dflt.to_owned(),
    }
}

/// A date-time field: first occurrence, absent unless it resolved.
pub fn first_stamp_value(props: &Vec<Prop>, name: &str) -> (r: Option<i64>)
    ensures
        r == first_stamp(props_view(props@), name@),
{
    match find_prop_idx(props, name) {
        None => None,
        Some(i) => {
            if props[i].values.len() == 0 {
                return None;
            }
            proof {
                assert(props@[i as int]@.values[0] == values_view(props[i as int].values@)[0]);
            }
            match &props[i].values[0] {
                PropValue::Stamp(t) => Some(*t),
                _ => None,
            }
        },
    }
}

/// An integer field: first occurrence, absent unless it is an integer.
pub fn first_u32_value(props: &Vec<Prop>, name: &str) -> (r: Option<u32>)
    ensures
        r == first_u32(props_view(props@), name@),
{
    match find_prop_idx(props, name) {
        None => None,
        Some(i) => {
            if props[i].values.len() == 0 {
                return None;
            }
            proof {
                assert(props@[i as int]@.values[0] == values_view(props[i as int].values@)[0]);
            }
            match &props[i].values[0] {
                PropValue::Integer(v) => Some(#[verifier::truncate] (*v as u32)),
                _ => None,
            }
        },
    }
}

/// A recurrence-rule field: first occurrence, absent when empty.
pub fn first_rrule_value(props: &Vec<Prop>, name: &str) -> (r: Option<String>)
    ensures
        opt_view(r) == first_rrule(props_view(props@), name@),
{
    match find_prop_idx(props, name) {
        None => None,
        Some(i) => {
            if props[i].values.len() == 0 {
                return None;
            }
            proof {
                assert(props@[i as int]@.values[0] == values_view(props[i as int].values@)[0]);
            }
            match &props[i].values[0] {
                PropValue::Rrule(s) => {
                    if s.as_str().is_empty() {
                        None
                    } else {
                        Some(s.clone())
                    }
                },
                _ => None,
            }
        },
    }
}

/// Append clones of all elements of `src` to `dst`.
fn push_all(dst: &mut Vec<String>, src: &Vec<String>)
    ensures
        final(dst)@ == old(dst)@ + src@,
{
    let n = src.len();
    let mut k: usize = 0;
    while k < n
        invariant
            n == src.len(),
            k <= n,
            dst@ =~= old(dst)@ + src@.subrange(0, k as int),
        decreases n - k,
    {
        dst.push(src[k].clone());
        k = k + 1;
        proof {
            assert(dst@ =~= old(dst)@ + src@.subrange(0, k as int));
        }
    }
    proof {
        assert(src@.subrange(0, n as int) =~= src@);
    }
}

/// The non-empty textual values of one property, in order.
fn nonempty_text_values(values: &Vec<PropValue>) -> (r: Vec<String>)
    ensures
        strs_view(r@) == nonempty_texts(values_view(values@)),
{
    let ghost vs = values_view(values@);
    proof {
        assert(vs.skip(0) =~= vs);
    }
    let n = values.len();
    let mut out: Vec<String> = Vec::new();
    let mut k: usize = 0;
    while k < n
        invariant
            n == values.len(),
            vs == values_view(values@),
            vs.len() == n,
            k <= n,
            strs_view(out@) + nonempty_texts(vs.skip(k as int)) =~= nonempty_texts(vs),
        decreases n - k,
    {
        proof {
            assert(vs.skip(k as int)[0] == vs[k as int]);
            assert(vs[k as int] == values@[k as int]@);
            assert(vs.skip(k as int).drop_first() =~= vs.skip(k + 1));
        }
        let ghost prev = out@;
        match &values[k] {
            PropValue::Text(s) => {
                if !s.as_str().is_empty() {
                    out.push(s.clone());
                }
            },
            _ => {},
        }
        k = k + 1;
        proof {
            assert(strs_view(prev).len() == prev.len());
            assert(strs_view(out@) + nonempty_texts(vs.skip(k as int)) =~= nonempty_texts(vs));
        }
    }
    proof {
        assert(nonempty_texts(vs.skip(n as int)) =~= Seq::<Seq<char>>::empty());
        assert(strs_view(out@) =~= nonempty_texts(vs));
    }
    out
}

/// All textual values of one property, empty ones included, in order.
fn all_text_values(values: &Vec<PropValue>) -> (r: Vec<String>)
    ensures
        strs_view(r@) == all_texts(values_view(values@)),
{
    let ghost vs = values_view(values@);
    proof {
        assert(vs.skip(0) =~= vs);
    }
    let n = values.len();
    let mut out: Vec<String> = Vec::new();
    let mut k: usize = 0;
    while k < n
        invariant
            n == values.len(),
            vs == values_view(values@),
            vs.len() == n,
            k <= n,
            strs_view(out@) + all_texts(vs.skip(k as int)) =~= all_texts(vs),
        decreases n - k,
    {
        proof {
            assert(vs.skip(k as int)[0] == vs[k as int]);
            assert(vs[k as int] == values@[k as int]@);
            assert(vs.skip(k as int).drop_first() =~= vs.skip(k + 1));
        }
        let ghost prev = out@;
        match &values[k] {
            PropValue::Text(s) => {
                out.push(s.clone());
            },
            _ => {},
        }
        k = k + 1;
        proof {
            assert(strs_view(prev).len() == prev.len());
            assert(strs_view(out@) + all_texts(vs.skip(k as int)) =~= all_texts(vs));
        }
    }
    proof {
        assert(all_texts(vs.skip(n as int)) =~= Seq::<Seq<char>>::empty());
        assert(strs_view(out@) =~= all_texts(vs));
    }
    out
}

/// A multi-valued field: every occurrence's non-empty texts, in order.
pub fn collect_text_values(props: &Vec<Prop>, name: &str) -> (r: Vec<String>)
    ensures
        strs_view(r@) == multi_texts(props_view(props@), name@),
{
    let ghost s = props_view(props@);
    proof {
        assert(s.skip(0) =~= s);
    }
    let wanted: String = name.to_owned();
    let n = props.len();
    let mut out: Vec<String> = Vec::new();
    let mut i: usize = 0;
    while i < n
        invariant
            n == props.len(),
            s == props_view(props@),
            s.len() == n,
            wanted@ == name@,
            i <= n,
            strs_view(out@) + multi_texts(s.skip(i as int), name@) =~= multi_texts(s, name@),
        decreases n - i,
    {
        proof {
            assert(s.skip(i as int)[0] == s[i as int]);
            assert(s[i as int] == props@[i as int]@);
            assert(s.skip(i as int).drop_first() =~= s.skip(i + 1));
        }
        let ghost prev = out@;
        if props[i].name == wanted {
            let part = nonempty_text_values(&props[i].values);
            push_all(&mut out, &part);
            proof {
                assert(strs_view(out@) =~= strs_view(prev) + strs_view(part@));
            }
        }
        i = i + 1;
        proof {
            assert(strs_view(prev).len() == prev.len());
            assert(strs_view(out@) + multi_texts(s.skip(i as int), name@) =~= multi_texts(
                s,
                name@,
            ));
        }
    }
    proof {
        assert(multi_texts(s.skip(n as int), name@) =~= Seq::<Seq<char>>::empty());
        assert(strs_view(out@) =~= multi_texts(s, name@));
    }
    out
}

/// Join parts with semicolons.
fn join_with_semicolon(parts: &Vec<String>) -> (r: String)
    ensures
        r@ == join_semi(strs_view(parts@)),
{
    let ghost ts = strs_view(parts@);
    let n = parts.len();
    if n == 0 {
        let r = String::new();
        return r;
    }
    let mut r: String = parts[0].clone();
    let mut i: usize = 1;
    while i < n
        invariant
            n == parts.len(),
            ts == strs_view(parts@),
            ts.len() == n,
            1 <= i <= n,
            r@ + join_tail(ts.skip(i as int)) =~= join_semi(ts),
        decreases n - i,
    {
        proof {
            assert(ts.skip(i as int)[0] == ts[i as int]);
            assert(ts[i as int] == parts@[i as int]@);
            assert(ts.skip(i as int).drop_first() =~= ts.skip(i + 1));
        }
        r.append(";");
        r.append(parts[i].as_str());
        i = i + 1;
        proof {
            reveal_strlit(";");
            assert(r@ + join_tail(ts.skip(i as int)) =~= join_semi(ts));
        }
    }
    proof {
        assert(join_tail(ts.skip(n as int)) =~= Seq::<char>::empty());
        assert(r@ =~= join_semi(ts));
    }
    r
}

/// A structured single-valued field: components of the first
/// occurrence joined with semicolons, empty normalized to absent.
pub fn joined_text_value(props: &Vec<Prop>, name: &str) -> (r: Option<String>)
    ensures
        opt_view(r) == joined_text(props_view(props@), name@),
{
    match find_prop_idx(props, name) {
        None => None,
        Some(i) => {
            proof {
                assert(props@[i as int]@.values == values_view(props[i as int].values@));
            }
            let parts = all_text_values(&props[i].values);
            let j = join_with_semicolon(&parts);
            if j.as_str().is_empty() {
                None
            } else {
                Some(j)
            }
        },
    }
}

/// A structured multi-valued field: one joined string per occurrence,
/// empty ones dropped, in order.
pub fn joined_multi_values(props: &Vec<Prop>, name: &str) -> (r: Vec<String>)
    ensures
        strs_view(r@) == joined_multi(props_view(props@), name@),
{
    let ghost s = props_view(props@);
    proof {
        assert(s.skip(0) =~= s);
    }
    let wanted: String = name.to_owned();
    let n = props.len();
    let mut out: Vec<String> = Vec::new();
    let mut i: usize = 0;
    while i < n
        invariant
            n == props.len(),
            s == props_view(props@),
            s.len() == n,
            wanted@ == name@,
            i <= n,
            strs_view(out@) + joined_multi(s.skip(i as int), name@) =~= joined_multi(s, name@),
        decreases n - i,
    {
        proof {
            assert(s.skip(i as int)[0] == s[i as int]);
            assert(s[i as int] == props@[i as int]@);
            assert(s.skip(i as int).drop_first() =~= s.skip(i + 1));
        }
        let ghost prev = out@;
        if props[i].name == wanted {
            let parts = all_text_values(&props[i].values);
            let j = join_with_semicolon(&parts);
            if !j.as_str().is_empty() {
                out.push(j);
            }
        }
        i = i + 1;
        proof {
            assert(strs_view(prev).len() == prev.len());
            assert(strs_view(out@) + joined_multi(s.skip(i as int), name@) =~= joined_multi(
                s,
                name@,
            ));
        }
    }
    proof {
        assert(joined_multi(s.skip(n as int), name@) =~= Seq::<Seq<char>>::empty());
        assert(strs_view(out@) =~= joined_multi(s, name@));
    }
    out
}


/// The index of the first component of the given kind.
pub fn find_component_idx(comps: &Vec<Component>, kind: CompKind) -> (r: Option<usize>)
    ensures
        (match r {
            Some(i) => i < comps.len() && find_component(components_view(comps@), kind) == Some(
                comps@[i as int]@,
            ),
            None => find_component(components_view(comps@), kind) is None,
        }),
{
    let ghost s = components_view(comps@);
    proof {
        assert(s.skip(0) =~= s);
    }
    let n = comps.len();
    let mut i: usize = 0;
    while i < n
        invariant
            n == comps.len(),
            s == components_view(comps@),
            s.len() == n,
            i <= n,
            find_component(s, kind) == find_component(s.skip(i as int), kind),
        decreases n - i,
    {
        proof {
            assert(s.skip(i as int)[0] == s[i as int]);
            assert(s[i as int] == comps@[i as int]@);
        }
        if comps[i].kind == kind {
            proof {
                assert(find_component(s.skip(i as int), kind) == Some(s[i as int]));
            }
            return Some(i);
        }
        proof {
            assert(s.skip(i as int).drop_first() =~= s.skip(i + 1));
        }
        i = i + 1;
    }
    proof {
        assert(s.skip(n as int).len() == 0);
    }
    None
}


/// Every value that non-empty collection keeps is non-empty.
proof fn lemma_nonempty_texts_nonempty(values: Seq<PropValueV>)
    ensures
        forall|i: int|
            0 <= i < nonempty_texts(values).len() ==> #[trigger] nonempty_texts(values)[i].len()
                > 0,
    decreases values.len(),
{
    if values.len() > 0 {
        lemma_nonempty_texts_nonempty(values.drop_first());
        let rest = nonempty_texts(values.drop_first());
        assert forall|i: int|
            0 <= i < nonempty_texts(values).len() implies #[trigger] nonempty_texts(values)[
            i].len() > 0 by {
            match value_text(values[0]) {
                Some(t) => {
                    if t.len() > 0 {
                        if i == 0 {
                            assert(nonempty_texts(values)[0] == t);
                        } else {
                            assert(nonempty_texts(values)[i] == rest[i - 1]);
                        }
                    } else {
                        assert(nonempty_texts(values)[i] == rest[i]);
                    }
                },
                None => {
                    assert(nonempty_texts(values)[i] == rest[i]);
                },
            }
        };
    }
}

/// Law: a multi-valued field holds no empty strings — every value
/// that `multi_texts` collects is non-empty.
pub proof fn lemma_multi_texts_nonempty(props: Seq<PropV>, name: Seq<char>)
    ensures
        forall|i: int|
            0 <= i < multi_texts(props, name).len() ==> #[trigger] multi_texts(props, name)[
                i].len() > 0,
    decreases props.len(),
{
    if props.len() > 0 {
        lemma_multi_texts_nonempty(props.drop_first(), name);
        let rest = multi_texts(props.drop_first(), name);
        if props[0].name == name {
            lemma_nonempty_texts_nonempty(props[0].values);
            let head = nonempty_texts(props[0].values);
            assert forall|i: int|
                0 <= i < multi_texts(props, name).len() implies #[trigger] multi_texts(props,
                name)[i].len() > 0 by {
                if i < head.len() {
                    assert(multi_texts(props, name)[i] == head[i]);
                } else {
                    assert(multi_texts(props, name)[i] == rest[i - head.len()]);
                }
            };
        } else {
            assert forall|i: int|
                0 <= i < multi_texts(props, name).len() implies #[trigger] multi_texts(props,
                name)[i].len() > 0 by {
                assert(multi_texts(props, name)[i] == rest[i]);
            };
        }
    }
}

} // verus!
