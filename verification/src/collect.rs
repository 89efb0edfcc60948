//! Best-effort aggregation over many backends, and the
//! configuration-driven filters.
//!
//! One fetch yields, per matching source, either a list of raw
//! records or nothing (the source failed to open or answer). A raw
//! record that does not extract is skipped. Nothing a single source
//! does aborts the whole collection; results keep per-source order.

use vstd::prelude::*;

use crate::contact::{Contact, ContactV, contact_from_text};
use crate::endpoint::SourceKind;
use crate::event::{Event, EventV, event_from_text};
use crate::extract::strs_view;
use crate::source::{SourceInfo, SourceInfoV, SourceType, SourceTypeV};
use crate::task::{Task, TaskV, task_from_text};

verus! {

/// The image of an event list.
pub open spec fn events_view(es: Seq<Event>) -> Seq<EventV> {
    es.map_values(|e: Event| e@)
}

/// The image of a task list.
pub open spec fn tasks_view(ts: Seq<Task>) -> Seq<TaskV> {
    ts.map_values(|t: Task| t@)
}

/// The image of a contact list.
pub open spec fn contacts_view(cs: Seq<Contact>) -> Seq<ContactV> {
    cs.map_values(|c: Contact| c@)
}

/// The image of a source list.
pub open spec fn sources_view(ss: Seq<SourceInfo>) -> Seq<SourceInfoV> {
    ss.map_values(|s: SourceInfo| s@)
}

/// The image of one per-source fetch outcome.
pub open spec fn batch_view(b: Option<Vec<String>>) -> Option<Seq<Seq<char>>> {
    match b {
        Some(v) => Some(strs_view(v@)),
        None => None,
    }
}

/// The image of all per-source fetch outcomes.
pub open spec fn batches_view(bs: Seq<Option<Vec<String>>>) -> Seq<Option<Seq<Seq<char>>>> {
    bs.map_values(|b: Option<Vec<String>>| batch_view(b))
}

/// Whether a source is of the given kind.
pub open spec fn spec_kind_matches(st: SourceTypeV, kind: SourceKind) -> bool {
    match st {
        SourceTypeV::Calendar { .. } => kind is Calendar,
        SourceTypeV::TaskList { .. } => kind is TaskList,
        SourceTypeV::AddressBook { .. } => kind is AddressBook,
    }
}

/// The sources of one kind, in discovery order.
pub open spec fn spec_sources_of_kind(ss: Seq<SourceInfoV>, kind: SourceKind) -> Seq<SourceInfoV>
    decreases ss.len(),
{
    if ss.len() == 0 {
        Seq::empty()
    } else {
        let rest = spec_sources_of_kind(ss.drop_first(), kind);
        if spec_kind_matches(ss[0].source_type, kind) {
            seq![ss[0]] + rest
        } else {
            rest
        }
    }
}

/// Whether a task passes the configuration filter: completed and
/// cancelled tasks only when asked for, and, when a due window is set,
/// no task due after `now` plus that many days. A task without a due
/// date is never dropped by the window.
pub open spec fn spec_task_passes(
    t: TaskV,
    include_completed: bool,
    include_cancelled: bool,
    due_within_days: u32,
    now: i64,
) -> bool {
    &&& !(!include_completed && t.status == "COMPLETED"@)
    &&& !(!include_cancelled && t.status == "CANCELLED"@)
    &&& (due_within_days > 0 ==> match t.due_date {
        Some(d) => d <= now + due_within_days * 86400,
        None => true,
    })
}

/// Whether a contact passes the configuration filter: when only
/// reachable contacts are asked for, it must have an email address.
pub open spec fn spec_contact_passes(c: ContactV, email_only: bool) -> bool {
    !(email_only && c.emails.len() == 0)
}

/// The events extracted from one source's raw records, failing
/// records skipped.
pub open spec fn spec_events_of_raws(raws: Seq<Seq<char>>) -> Seq<EventV>
    decreases raws.len(),
{
    if raws.len() == 0 {
        Seq::empty()
    } else {
        let rest = spec_events_of_raws(raws.drop_first());
        match event_from_text(raws[0]) {
            Ok(ev) => seq![ev] + rest,
            Err(_) => rest,
        }
    }
}

/// The tasks extracted from one source's raw records, failing records
/// skipped and the filter applied.
pub open spec fn spec_tasks_of_raws(
    raws: Seq<Seq<char>>,
    include_completed: bool,
    include_cancelled: bool,
    due_within_days: u32,
    now: i64,
) -> Seq<TaskV>
    decreases raws.len(),
{
    if raws.len() == 0 {
        Seq::empty()
    } else {
        let rest = spec_tasks_of_raws(
            raws.drop_first(),
            include_completed,
            include_cancelled,
            due_within_days,
            now,
        );
        match task_from_text(raws[0]) {
            Ok(tv) => if spec_task_passes(tv, include_completed, include_cancelled,
                due_within_days, now) {
                seq![tv] + rest
            } else {
                rest
            },
            Err(_) => rest,
        }
    }
}

/// The contacts extracted from one source's raw records, failing
/// records skipped and the filter applied.
pub open spec fn spec_contacts_of_raws(raws: Seq<Seq<char>>, email_only: bool) -> Seq<ContactV>
    decreases raws.len(),
{
    if raws.len() == 0 {
        Seq::empty()
    } else {
        let rest = spec_contacts_of_raws(raws.drop_first(), email_only);
        match contact_from_text(raws[0]) {
            Ok(cv) => if spec_contact_passes(cv, email_only) {
                seq![cv] + rest
            } else {
                rest
            },
            Err(_) => rest,
        }
    }
}

/// The events of all sources together: a failed source contributes
/// nothing.
pub open spec fn spec_events_of_batches(bs: Seq<Option<Seq<Seq<char>>>>) -> Seq<EventV>
    decreases bs.len(),
{
    if bs.len() == 0 {
        Seq::empty()
    } else {
        let rest = spec_events_of_batches(bs.drop_first());
        match bs[0] {
            Some(raws) => spec_events_of_raws(raws) + rest,
            None => rest,
        }
    }
}

/// The tasks of all sources together: a failed source contributes
/// nothing.
pub open spec fn spec_tasks_of_batches(
    bs: Seq<Option<Seq<Seq<char>>>>,
    include_completed: bool,
    include_cancelled: bool,
    due_within_days: u32,
    now: i64,
) -> Seq<TaskV>
    decreases bs.len(),
{
    if bs.len() == 0 {
        Seq::empty()
    } else {
        let rest = spec_tasks_of_batches(
            bs.drop_first(),
            include_completed,
            include_cancelled,
            due_within_days,
            now,
        );
        match bs[0] {
            Some(raws) => spec_tasks_of_raws(raws, include_completed, include_cancelled,
                due_within_days, now) + rest,
            None => rest,
        }
    }
}

/// The contacts of all sources together: a failed source contributes
/// nothing.
pub open spec fn spec_contacts_of_batches(bs: Seq<Option<Seq<Seq<char>>>>, email_only: bool) -> Seq<
    ContactV,
>
    decreases bs.len(),
{
    if bs.len() == 0 {
        Seq::empty()
    } else {
        let rest = spec_contacts_of_batches(bs.drop_first(), email_only);
        match bs[0] {
            Some(raws) => spec_contacts_of_raws(raws, email_only) + rest,
            None => rest,
        }
    }
}

/// An owned copy of one source.
fn clone_source(si: &SourceInfo) -> (r: SourceInfo)
    ensures
        r@ == si@,
{
    let source_type = match &si.source_type {
        SourceType::Calendar { backend_name } => (SourceType::Calendar {
            backend_name: backend_name.clone(),
        }),
        SourceType::TaskList { backend_name } => (SourceType::TaskList {
            backend_name: backend_name.clone(),
        }),
        SourceType::AddressBook { backend_name } => (SourceType::AddressBook {
            backend_name: backend_name.clone(),
        }),
    };
    SourceInfo {
        uid: si.uid.clone(),
        path: si.path.clone(),
        display_name: si.display_name.clone(),
        enabled: si.enabled,
        source_type,
    }
}

/// The sources of one kind, in discovery order.
pub fn sources_of_kind(sources: &Vec<SourceInfo>, kind: SourceKind) -> (r: Vec<SourceInfo>)
    ensures
        sources_view(r@) == spec_sources_of_kind(sources_view(sources@), kind),
{
    let ghost s = sources_view(sources@);
    proof {
        assert(s.skip(0) =~= s);
    }
    let n = sources.len();
    let mut out: Vec<SourceInfo> = Vec::new();
    let mut i: usize = 0;
    while i < n
        invariant
            n == sources.len(),
            s == sources_view(sources@),
            s.len() == n,
            i <= n,
            sources_view(out@) + spec_sources_of_kind(s.skip(i as int), kind)
                =~= spec_sources_of_kind(s, kind),
        decreases n - i,
    {
        proof {
            assert(s.skip(i as int)[0] == s[i as int]);
            assert(s[i as int] == sources@[i as int]@);
            assert(s.skip(i as int).drop_first() =~= s.skip(i + 1));
        }
        let ghost prev = out@;
        let matches_kind = match (&sources[i].source_type, kind) {
            (SourceType::Calendar { .. }, SourceKind::Calendar) => true,
            (SourceType::TaskList { .. }, SourceKind::TaskList) => true,
            (SourceType::AddressBook { .. }, SourceKind::AddressBook) => true,
            _ => false,
        };
        if matches_kind {
            let copy = clone_source(&sources[i]);
            out.push(copy);
        }
        i = i + 1;
        proof {
            assert(sources_view(prev).len() == prev.len());
            assert(sources_view(out@) + spec_sources_of_kind(s.skip(i as int), kind)
                =~= spec_sources_of_kind(s, kind));
        }
    }
    proof {
        assert(spec_sources_of_kind(s.skip(n as int), kind) =~= Seq::<SourceInfoV>::empty());
        assert(sources_view(out@) =~= spec_sources_of_kind(s, kind));
    }
    out
}

/// Whether a task passes the configuration filter.
pub fn task_passes_filter(
    t: &Task,
    include_completed: bool,
    include_cancelled: bool,
    due_within_days: u32,
    now: i64,
) -> (r: bool)
    requires
        now + due_within_days * 86400 <= i64::MAX,
    ensures
        r == spec_task_passes(t@, include_completed, include_cancelled, due_within_days, now),
{
    if !include_completed && t.is_completed() {
        return false;
    }
    if !include_cancelled && t.is_cancelled() {
        return false;
    }
    if due_within_days > 0 {
        if let Some(d) = t.due_date {
            let limit: i64 = now + (due_within_days as i64) * 86400;
            if d > limit {
                return false;
            }
        }
    }
    true
}

/// Whether a contact passes the configuration filter.
pub fn contact_passes_filter(c: &Contact, email_only: bool) -> (r: bool)
    ensures
        r == spec_contact_passes(c@, email_only),
{
    !(email_only && c.emails.len() == 0)
}

/// The events of one source's raw records, failing records skipped.
pub fn events_from_raws(raws: &Vec<String>) -> (r: Vec<Event>)
    ensures
        events_view(r@) == spec_events_of_raws(strs_view(raws@)),
{
    let ghost rs = strs_view(raws@);
    proof {
        assert(rs.skip(0) =~= rs);
    }
    let n = raws.len();
    let mut out: Vec<Event> = Vec::new();
    let mut k: usize = 0;
    while k < n
        invariant
            n == raws.len(),
            rs == strs_view(raws@),
            rs.len() == n,
            k <= n,
            events_view(out@) + spec_events_of_raws(rs.skip(k as int)) =~= spec_events_of_raws(rs),
        decreases n - k,
    {
        proof {
            assert(rs.skip(k as int)[0] == rs[k as int]);
            assert(rs[k as int] == raws@[k as int]@);
            assert(rs.skip(k as int).drop_first() =~= rs.skip(k + 1));
        }
        let ghost prev = out@;
        match Event::from_str(raws[k].as_str()) {
            Ok(e) => {
                out.push(e);
            },
            Err(_) => {},
        }
        k = k + 1;
        proof {
            assert(events_view(prev).len() == prev.len());
            assert(events_view(out@) + spec_events_of_raws(rs.skip(k as int))
                =~= spec_events_of_raws(rs));
        }
    }
    proof {
        assert(spec_events_of_raws(rs.skip(n as int)) =~= Seq::<EventV>::empty());
        assert(events_view(out@) =~= spec_events_of_raws(rs));
    }
    out
}

/// The tasks of one source's raw records, failing records skipped and
/// the filter applied.
pub fn tasks_from_raws(
    raws: &Vec<String>,
    include_completed: bool,
    include_cancelled: bool,
    due_within_days: u32,
    now: i64,
) -> (r: Vec<Task>)
    requires
        now + due_within_days * 86400 <= i64::MAX,
    ensures
        tasks_view(r@) == spec_tasks_of_raws(strs_view(raws@), include_completed,
            include_cancelled, due_within_days, now),
{
    let ghost rs = strs_view(raws@);
    proof {
        assert(rs.skip(0) =~= rs);
    }
    let n = raws.len();
    let mut out: Vec<Task> = Vec::new();
    let mut k: usize = 0;
    while k < n
        invariant
            n == raws.len(),
            rs == strs_view(raws@),
            rs.len() == n,
            k <= n,
            now + due_within_days * 86400 <= i64::MAX,
            tasks_view(out@) + spec_tasks_of_raws(rs.skip(k as int), include_completed,
                include_cancelled, due_within_days, now) =~= spec_tasks_of_raws(rs,
                include_completed, include_cancelled, due_within_days, now),
        decreases n - k,
    {
        proof {
            assert(rs.skip(k as int)[0] == rs[k as int]);
            assert(rs[k as int] == raws@[k as int]@);
            assert(rs.skip(k as int).drop_first() =~= rs.skip(k + 1));
        }
        let ghost prev = out@;
        match Task::from_str(raws[k].as_str()) {
            Ok(t) => {
                if task_passes_filter(&t, include_completed, include_cancelled, due_within_days,
                    now) {
                    out.push(t);
                }
            },
            Err(_) => {},
        }
        k = k + 1;
        proof {
            assert(tasks_view(prev).len() == prev.len());
            assert(tasks_view(out@) + spec_tasks_of_raws(rs.skip(k as int), include_completed,
                include_cancelled, due_within_days, now) =~= spec_tasks_of_raws(rs,
                include_completed, include_cancelled, due_within_days, now));
        }
    }
    proof {
        assert(spec_tasks_of_raws(rs.skip(n as int), include_completed, include_cancelled,
            due_within_days, now) =~= Seq::<TaskV>::empty());
        assert(tasks_view(out@) =~= spec_tasks_of_raws(rs, include_completed, include_cancelled,
            due_within_days, now));
    }
    out
}

/// The contacts of one source's raw records, failing records skipped
/// and the filter applied.
pub fn contacts_from_raws(raws: &Vec<String>, email_only: bool) -> (r: Vec<Contact>)
    ensures
        contacts_view(r@) == spec_contacts_of_raws(strs_view(raws@), email_only),
{
    let ghost rs = strs_view(raws@);
    proof {
        assert(rs.skip(0) =~= rs);
    }
    let n = raws.len();
    let mut out: Vec<Contact> = Vec::new();
    let mut k: usize = 0;
    while k < n
        invariant
            n == raws.len(),
            rs == strs_view(raws@),
            rs.len() == n,
            k <= n,
            contacts_view(out@) + spec_contacts_of_raws(rs.skip(k as int), email_only)
                =~= spec_contacts_of_raws(rs, email_only),
        decreases n - k,
    {
        proof {
            assert(rs.skip(k as int)[0] == rs[k as int]);
            assert(rs[k as int] == raws@[k as int]@);
            assert(rs.skip(k as int).drop_first() =~= rs.skip(k + 1));
        }
        let ghost prev = out@;
        match Contact::from_str(raws[k].as_str()) {
            Ok(c) => {
                if contact_passes_filter(&c, email_only) {
                    out.push(c);
                }
            },
            Err(_) => {},
        }
        k = k + 1;
        proof {
            assert(contacts_view(prev).len() == prev.len());
            assert(contacts_view(out@) + spec_contacts_of_raws(rs.skip(k as int), email_only)
                =~= spec_contacts_of_raws(rs, email_only));
        }
    }
    proof {
        assert(spec_contacts_of_raws(rs.skip(n as int), email_only) =~= Seq::<ContactV>::empty());
        assert(contacts_view(out@) =~= spec_contacts_of_raws(rs, email_only));
    }
    out
}

/// Merge the per-source fetch outcomes into one event list.
pub fn collect_events(batches: &Vec<Option<Vec<String>>>) -> (r: Vec<Event>)
    ensures
        events_view(r@) == spec_events_of_batches(batches_view(batches@)),
{
    let ghost bs = batches_view(batches@);
    proof {
        assert(bs.skip(0) =~= bs);
    }
    let n = batches.len();
    let mut out: Vec<Event> = Vec::new();
    let mut i: usize = 0;
    while i < n
        invariant
            n == batches.len(),
            bs == batches_view(batches@),
            bs.len() == n,
            i <= n,
            events_view(out@) + spec_events_of_batches(bs.skip(i as int))
                =~= spec_events_of_batches(bs),
        decreases n - i,
    {
        proof {
            assert(bs.skip(i as int)[0] == bs[i as int]);
            assert(bs[i as int] == batch_view(batches@[i as int]));
            assert(bs.skip(i as int).drop_first() =~= bs.skip(i + 1));
        }
        let ghost prev = out@;
        match &batches[i] {
            Some(raws) => {
                let mut part = events_from_raws(raws);
                let ghost pv = part@;
                out.append(&mut part);
                proof {
                    assert(events_view(out@) =~= events_view(prev) + events_view(pv));
                }
            },
            None => {},
        }
        i = i + 1;
        proof {
            assert(events_view(prev).len() == prev.len());
            assert(events_view(out@) + spec_events_of_batches(bs.skip(i as int))
                =~= spec_events_of_batches(bs));
        }
    }
    proof {
        assert(spec_events_of_batches(bs.skip(n as int)) =~= Seq::<EventV>::empty());
        assert(events_view(out@) =~= spec_events_of_batches(bs));
    }
    out
}

/// Merge the per-source fetch outcomes into one task list, filtered.
pub fn collect_tasks(
    batches: &Vec<Option<Vec<String>>>,
    include_completed: bool,
    include_cancelled: bool,
    due_within_days: u32,
    now: i64,
) -> (r: Vec<Task>)
    requires
        now + due_within_days * 86400 <= i64::MAX,
    ensures
        tasks_view(r@) == spec_tasks_of_batches(batches_view(batches@), include_completed,
            include_cancelled, due_within_days, now),
{
    let ghost bs = batches_view(batches@);
    proof {
        assert(bs.skip(0) =~= bs);
    }
    let n = batches.len();
    let mut out: Vec<Task> = Vec::new();
    let mut i: usize = 0;
    while i < n
        invariant
            n == batches.len(),
            bs == batches_view(batches@),
            bs.len() == n,
            i <= n,
            now + due_within_days * 86400 <= i64::MAX,
            tasks_view(out@) + spec_tasks_of_batches(bs.skip(i as int), include_completed,
                include_cancelled, due_within_days, now) =~= spec_tasks_of_batches(bs,
                include_completed, include_cancelled, due_within_days, now),
        decreases n - i,
    {
        proof {
            assert(bs.skip(i as int)[0] == bs[i as int]);
            assert(bs[i as int] == batch_view(batches@[i as int]));
            assert(bs.skip(i as int).drop_first() =~= bs.skip(i + 1));
        }
        let ghost prev = out@;
        match &batches[i] {
            Some(raws) => {
                let mut part = tasks_from_raws(raws, include_completed, include_cancelled,
                    due_within_days, now);
                let ghost pv = part@;
                out.append(&mut part);
                proof {
                    assert(tasks_view(out@) =~= tasks_view(prev) + tasks_view(pv));
                }
            },
            None => {},
        }
        i = i + 1;
        proof {
            assert(tasks_view(prev).len() == prev.len());
            assert(tasks_view(out@) + spec_tasks_of_batches(bs.skip(i as int), include_completed,
                include_cancelled, due_within_days, now) =~= spec_tasks_of_batches(bs,
                include_completed, include_cancelled, due_within_days, now));
        }
    }
    proof {
        assert(spec_tasks_of_batches(bs.skip(n as int), include_completed, include_cancelled,
            due_within_days, now) =~= Seq::<TaskV>::empty());
        assert(tasks_view(out@) =~= spec_tasks_of_batches(bs, include_completed, include_cancelled,
            due_within_days, now));
    }
    out
}

/// Merge the per-source fetch outcomes into one contact list,
/// filtered.
pub fn collect_contacts(batches: &Vec<Option<Vec<String>>>, email_only: bool) -> (r: Vec<Contact>)
    ensures
        contacts_view(r@) == spec_contacts_of_batches(batches_view(batches@), email_only),
{
    let ghost bs = batches_view(batches@);
    proof {
        assert(bs.skip(0) =~= bs);
    }
    let n = batches.len();
    let mut out: Vec<Contact> = Vec::new();
    let mut i: usize = 0;
    while i < n
        invariant
            n == batches.len(),
            bs == batches_view(batches@),
            bs.len() == n,
            i <= n,
            contacts_view(out@) + spec_contacts_of_batches(bs.skip(i as int), email_only)
                =~= spec_contacts_of_batches(bs, email_only),
        decreases n - i,
    {
        proof {
            assert(bs.skip(i as int)[0] == bs[i as int]);
            assert(bs[i as int] == batch_view(batches@[i as int]));
            assert(bs.skip(i as int).drop_first() =~= bs.skip(i + 1));
        }
        let ghost prev = out@;
        match &batches[i] {
            Some(raws) => {
                let mut part = contacts_from_raws(raws, email_only);
                let ghost pv = part@;
                out.append(&mut part);
                proof {
                    assert(contacts_view(out@) =~= contacts_view(prev) + contacts_view(pv));
                }
            },
            None => {},
        }
        i = i + 1;
        proof {
            assert(contacts_view(prev).len() == prev.len());
            assert(contacts_view(out@) + spec_contacts_of_batches(bs.skip(i as int), email_only)
                =~= spec_contacts_of_batches(bs, email_only));
        }
    }
    proof {
        assert(spec_contacts_of_batches(bs.skip(n as int), email_only)
            =~= Seq::<ContactV>::empty());
        assert(contacts_view(out@) =~= spec_contacts_of_batches(bs, email_only));
    }
    out
}

/// Law: a source that failed contributes nothing — dropping its
/// outcome leaves the aggregated event list unchanged.
pub proof fn lemma_failed_source_excluded(bs: Seq<Option<Seq<Seq<char>>>>, i: int)
    requires
        0 <= i < bs.len(),
        bs[i] is None,
    ensures
        spec_events_of_batches(bs) == spec_events_of_batches(bs.remove(i)),
    decreases i,
{
    if i == 0 {
        assert(bs.remove(0) =~= bs.drop_first());
    } else {
        lemma_failed_source_excluded(bs.drop_first(), i - 1);
        assert(bs.remove(i).drop_first() =~= bs.drop_first().remove(i - 1));
        assert(bs.remove(i)[0] == bs[0]);
    }
}

/// Law: best-effort aggregation over three sources of which the
/// second fails yields exactly the first and third sources' events,
/// in order.
pub proof fn lemma_best_effort_three(b1: Seq<Seq<char>>, b3: Seq<Seq<char>>)
    ensures
        spec_events_of_batches(seq![Some(b1), None, Some(b3)]) == spec_events_of_raws(b1)
            + spec_events_of_raws(b3),
{
    let bs = seq![Some(b1), None, Some(b3)];
    assert(bs.drop_first() =~= seq![None, Some(b3)]);
    assert(seq![None, Some(b3)].drop_first() =~= seq![Some(b3)]);
    assert(seq![Some(b3)].drop_first() =~= Seq::<Option<Seq<Seq<char>>>>::empty());
    assert(spec_events_of_batches(Seq::empty()) =~= Seq::<EventV>::empty());
    assert(spec_events_of_batches(seq![Some(b3)]) =~= spec_events_of_raws(b3));
    assert(spec_events_of_batches(seq![None, Some(b3)]) == spec_events_of_batches(seq![Some(b3)]));
    assert(spec_events_of_batches(bs) =~= spec_events_of_raws(b1) + spec_events_of_raws(b3));
}

/// Law: the due-window boundary. With a seven-day window around
/// `now`, a task due one second past the window is dropped, a task
/// due six days out is kept, and a task without a due date is always
/// kept; completed and cancelled tasks are included here so that only
/// the window decides.
pub proof fn lemma_due_filter_boundary(t: TaskV, now: i64)
    requires
        now + 7 * 86400 + 1 <= i64::MAX,
    ensures
        t.due_date == Some((now + 7 * 86400 + 1) as i64) ==> !spec_task_passes(t, true, true, 7,
            now),
        (t.due_date matches Some(d) && d <= now + 6 * 86400) ==> spec_task_passes(t, true, true, 7,
            now),
        t.due_date is None ==> spec_task_passes(t, true, true, 7, now),
{
}

} // verus!
