//! A reader for the grouped key/value text format of backend
//! configuration blobs.
//!
//! The format is line-based: `[name]` opens a group, `key=value` adds
//! an entry to the group last opened, empty lines and lines starting
//! with `#` are skipped, and a trailing carriage return is stripped
//! from each line. A line of any other shape, or an entry before the
//! first group, makes the whole blob unreadable. Boolean values are
//! the words `true` and `false`.

use vstd::prelude::*;

use crate::text::{chars_of, string_from_range};

verus! {

/// One `key=value` entry.
#[derive(Debug, Clone)]
pub struct KeyFileEntry {
    pub key: String,
    pub value: String,
}

/// One `[name]` group and its entries in source order.
#[derive(Debug, Clone)]
pub struct KeyFileGroup {
    pub name: String,
    pub entries: Vec<KeyFileEntry>,
}

/// A parsed configuration blob: its groups in source order.
#[derive(Debug, Clone)]
pub struct KeyFile {
    pub groups: Vec<KeyFileGroup>,
}

/// Mathematical image of an entry.
pub struct EntryV {
    pub key: Seq<char>,
    pub value: Seq<char>,
}

/// Mathematical image of a group.
pub struct GroupV {
    pub name: Seq<char>,
    pub entries: Seq<EntryV>,
}

/// Mathematical image of a key file.
pub struct KeyFileV {
    pub groups: Seq<GroupV>,
}

impl View for KeyFileEntry {
    type V = EntryV;

    open spec fn view(&self) -> EntryV {
        EntryV { key: self.key@, value: self.value@ }
    }
}

impl View for KeyFileGroup {
    type V = GroupV;

    open spec fn view(&self) -> GroupV {
        GroupV { name: self.name@, entries: self.entries@.map_values(|e: KeyFileEntry| e@) }
    }
}

impl View for KeyFile {
    type V = KeyFileV;

    open spec fn view(&self) -> KeyFileV {
        KeyFileV { groups: groups_view(self.groups@) }
    }
}

/// The image of a group list.
pub open spec fn groups_view(gs: Seq<KeyFileGroup>) -> Seq<GroupV> {
    gs.map_values(|g: KeyFileGroup| g@)
}

/// The first position `>= i` holding `c`, or the length.
pub open spec fn find_char(s: Seq<char>, c: char, i: int) -> int
    decreases s.len() - i when 0 <= i <= s.len()
{
    if i >= s.len() {
        s.len() as int
    } else if s[i] == c {
        i
    } else {
        find_char(s, c, i + 1)
    }
}

/// A line with its trailing carriage return stripped.
pub open spec fn strip_cr(l: Seq<char>) -> Seq<char> {
    if l.len() > 0 && l.last() == '\r' {
        l.drop_last()
    } else {
        l
    }
}

/// Lines that carry nothing: empty ones and comments.
pub open spec fn is_blank_or_comment(l: Seq<char>) -> bool {
    l.len() == 0 || l[0] == '#'
}

/// A `[name]` group header.
pub open spec fn is_group_line(l: Seq<char>) -> bool {
    l.len() >= 2 && l[0] == '[' && l.last() == ']'
}

/// The name between the brackets of a group header.
pub open spec fn group_name_of(l: Seq<char>) -> Seq<char> {
    l.subrange(1, l.len() - 1)
}

/// Whether a line holds a `key=value` pair.
pub open spec fn has_eq(l: Seq<char>) -> bool {
    find_char(l, '=', 0) < l.len()
}

/// The key of a pair line: everything before the first `=`.
pub open spec fn key_of(l: Seq<char>) -> Seq<char> {
    l.subrange(0, find_char(l, '=', 0))
}

/// The value of a pair line: everything after the first `=`.
pub open spec fn value_of(l: Seq<char>) -> Seq<char> {
    l.subrange(find_char(l, '=', 0) + 1, l.len() as int)
}

/// The groups with an entry appended to the last one.
pub open spec fn append_entry(gs: Seq<GroupV>, e: EntryV) -> Seq<GroupV>
    recommends
        gs.len() > 0,
{
    let last = gs[gs.len() - 1];
    gs.update(gs.len() - 1, GroupV { name: last.name, entries: last.entries.push(e) })
}

/// `find_char` stays between `i` and the length.
proof fn lemma_find_char_range(s: Seq<char>, c: char, i: int)
    requires
        0 <= i <= s.len(),
    ensures
        i <= find_char(s, c, i) <= s.len(),
    decreases s.len() - i,
{
    if i < s.len() && s[i] != c {
        lemma_find_char_range(s, c, i + 1);
    }
}

/// Reading the blob from position `i` on, with the groups read so far.
pub open spec fn kf_parse_at(s: Seq<char>, i: int, gs: Seq<GroupV>) -> Option<Seq<GroupV>>
    decreases s.len() + 1 - i when 0 <= i <= s.len() + 1 via kf_parse_at_decreases
{
    if i >= s.len() {
        Some(gs)
    } else {
        let j = find_char(s, '\n', i);
        let l = strip_cr(s.subrange(i, j));
        if is_blank_or_comment(l) {
            kf_parse_at(s, j + 1, gs)
        } else if is_group_line(l) {
            kf_parse_at(s, j + 1, gs.push(GroupV { name: group_name_of(l), entries: Seq::empty() }))
        } else if has_eq(l) && gs.len() > 0 {
            kf_parse_at(s, j + 1, append_entry(gs, EntryV { key: key_of(l), value: value_of(l) }))
        } else {
            None
        }
    }
}

#[via_fn]
proof fn kf_parse_at_decreases(s: Seq<char>, i: int, gs: Seq<GroupV>) {
    if i < s.len() {
        lemma_find_char_range(s, '\n', i);
    }
}

/// What reading a whole blob yields: `None` when some line is of no
/// known shape or an entry stands before the first group.
pub open spec fn kf_parse(s: Seq<char>) -> Option<KeyFileV> {
    match kf_parse_at(s, 0, Seq::empty()) {
        Some(gs) => Some(KeyFileV { groups: gs }),
        None => None,
    }
}

/// The first group with the given name, if any.
pub open spec fn find_group(gs: Seq<GroupV>, name: Seq<char>) -> Option<GroupV>
    decreases gs.len(),
{
    if gs.len() == 0 {
        None
    } else if gs[0].name == name {
        Some(gs[0])
    } else {
        find_group(gs.drop_first(), name)
    }
}

/// The first entry with the given key, if any.
pub open spec fn find_entry(es: Seq<EntryV>, key: Seq<char>) -> Option<EntryV>
    decreases es.len(),
{
    if es.len() == 0 {
        None
    } else if es[0].key == key {
        Some(es[0])
    } else {
        find_entry(es.drop_first(), key)
    }
}

/// The value under a group and key, if both exist.
pub open spec fn kf_string(kf: KeyFileV, group: Seq<char>, key: Seq<char>) -> Option<Seq<char>> {
    match find_group(kf.groups, group) {
        Some(g) => match find_entry(g.entries, key) {
            Some(e) => Some(e.value),
            None => None,
        },
        None => None,
    }
}

/// The value under a group and key read as a boolean: `true` and
/// `false` are booleans, anything else is not.
pub open spec fn kf_boolean(kf: KeyFileV, group: Seq<char>, key: Seq<char>) -> Option<bool> {
    match kf_string(kf, group, key) {
        Some(v) => if v == "true"@ {
            Some(true)
        } else if v == "false"@ {
            Some(false)
        } else {
            None
        },
        None => None,
    }
}

impl KeyFile {
    /// Read a configuration blob. Returns `None` exactly when the
    /// text is not in the grouped key/value format.
    pub fn parse(s: &str) -> (r: Option<KeyFile>)
        ensures
            r is Some <==> kf_parse(s@) is Some,
            r matches Some(kf) ==> kf@ == kf_parse(s@).unwrap(),
    {
        let chars = chars_of(s);
        let ghost sq = s@;
        let n = chars.len();
        let mut groups: Vec<KeyFileGroup> = Vec::new();
        let mut i: usize = 0;
        proof {
            assert(groups_view(groups@) =~= Seq::<GroupV>::empty());
        }
        while i < n
            invariant
                n == chars.len(),
                sq == chars@,
                sq == s@,
                i <= n,
                kf_parse_at(sq, i as int, groups_view(groups@)) == kf_parse_at(
                    sq,
                    0,
                    Seq::empty(),
                ),
            decreases n - i,
        {
            // find the end of the line
            let mut j: usize = i;
            while j < n && chars[j] != '\n'
                invariant
                    n == chars.len(),
                    sq == chars@,
                    i <= j <= n,
                    find_char(sq, '\n', i as int) == find_char(sq, '\n', j as int),
                decreases n - j,
            {
                j = j + 1;
            }
            proof {
                assert(find_char(sq, '\n', i as int) == j);
                lemma_find_char_range(sq, '\n', i as int);
            }
            let ghost l = strip_cr(sq.subrange(i as int, j as int));
            let end: usize = if j > i && chars[j - 1] == '\r' {
                j - 1
            } else {
                j
            };
            proof {
                if j > i && sq[j - 1] == '\r' {
                    assert(sq.subrange(i as int, j as int).last() == '\r');
                    assert(l =~= sq.subrange(i as int, end as int));
                } else {
                    if j > i {
                        assert(sq.subrange(i as int, j as int).last() == sq[j - 1]);
                    }
                    assert(l =~= sq.subrange(i as int, end as int));
                }
                assert(l.len() == end - i);
                if end > i {
                    assert(l[0] == sq[i as int]);
                    assert(l.last() == sq[end - 1]);
                }
            }
            let ghost prev = groups_view(groups@);
            if end == i || chars[i] == '#' {
                proof {
                    assert(is_blank_or_comment(l));
                }
            } else if end - i >= 2 && chars[i] == '[' && chars[end - 1] == ']' {
                let name = string_from_range(&chars, i + 1, end - 1);
                proof {
                    assert(is_group_line(l));
                    assert(group_name_of(l) =~= name@);
                }
                let ghost go = groups@;
                groups.push(KeyFileGroup { name, entries: Vec::new() });
                proof {
                    assert(groups_view(go).len() == go.len());
                    assert(groups@[go.len() as int]@.entries =~= Seq::<EntryV>::empty());
                    assert(groups_view(groups@) =~= prev.push(
                        GroupV { name: group_name_of(l), entries: Seq::empty() },
                    ));
                }
            } else {
                proof {
                    assert(!is_blank_or_comment(l));
                    assert(!is_group_line(l));
                }
                // find the first `=` of the line
                let mut e: usize = i;
                while e < end && chars[e] != '='
                    invariant
                        n == chars.len(),
                        sq == chars@,
                        i <= e <= end <= n,
                        l == strip_cr(sq.subrange(i as int, j as int)),
                        l =~= sq.subrange(i as int, end as int),
                        find_char(l, '=', 0) == find_char(l, '=', e - i),
                    decreases end - e,
                {
                    proof {
                        assert(l[e - i] == sq[e as int]);
                    }
                    e = e + 1;
                }
                proof {
                    if e < end {
                        assert(l[e - i] == sq[e as int]);
                    }
                    assert(find_char(l, '=', 0) == e - i);
                }
                if e == end {
                    proof {
                        assert(!has_eq(l));
                        assert(kf_parse_at(sq, i as int, groups_view(groups@))
                            == None::<Seq<GroupV>>);
                    }
                    return None;
                }
                if groups.len() == 0 {
                    proof {
                        assert(groups_view(groups@).len() == groups@.len());
                        assert(kf_parse_at(sq, i as int, groups_view(groups@))
                            == None::<Seq<GroupV>>);
                    }
                    return None;
                }
                let key = string_from_range(&chars, i, e);
                let value = string_from_range(&chars, e + 1, end);
                proof {
                    assert(has_eq(l));
                    assert(key_of(l) =~= key@);
                    assert(value_of(l) =~= value@);
                }
                let ghost go = groups@;
                let mut g = groups.pop().unwrap();
                let ghost g_prev = g@;
                let ghost ge_prev = g.entries@;
                g.entries.push(KeyFileEntry { key, value });
                proof {
                    assert(ge_prev.map_values(|e: KeyFileEntry| e@).len() == ge_prev.len());
                    assert(g@.entries =~= g_prev.entries.push(
                        EntryV { key: key_of(l), value: value_of(l) },
                    ));
                }
                groups.push(g);
                proof {
                    assert(groups_view(go).len() == go.len());
                    assert(groups_view(groups@) =~= append_entry(
                        prev,
                        EntryV { key: key_of(l), value: value_of(l) },
                    ));
                }
            }
            if j < n {
                i = j + 1;
            } else {
                proof {
                    assert(kf_parse_at(sq, n as int, groups_view(groups@)) == kf_parse_at(
                        sq,
                        n + 1,
                        groups_view(groups@),
                    ));
                }
                i = n;
            }
        }
        proof {
            assert(kf_parse_at(sq, i as int, groups_view(groups@)) == Some(groups_view(groups@)));
        }
        Some(KeyFile { groups })
    }

    /// Whether a group with the given name exists.
    pub fn has_group(&self, name: &str) -> (r: bool)
        ensures
            r == (find_group(self@.groups, name@) is Some),
    {
        let ghost gs = self@.groups;
        proof {
            assert(gs.skip(0) =~= gs);
        }
        let wanted: String = name.to_owned();
        let n = self.groups.len();
        let mut i: usize = 0;
        while i < n
            invariant
                n == self.groups.len(),
                gs == self@.groups,
                gs.len() == n,
                wanted@ == name@,
                i <= n,
                find_group(gs, name@) == find_group(gs.skip(i as int), name@),
            decreases n - i,
        {
            proof {
                assert(gs.skip(i as int)[0] == gs[i as int]);
                assert(gs[i as int] == self.groups@[i as int]@);
            }
            if self.groups[i].name == wanted {
                return true;
            }
            proof {
                assert(gs.skip(i as int).drop_first() =~= gs.skip(i + 1));
            }
            i = i + 1;
        }
        proof {
            assert(gs.skip(n as int).len() == 0);
        }
        false
    }

    /// The value under a group and key, if both exist.
    pub fn string(&self, group: &str, key: &str) -> (r: Option<String>)
        ensures
            (match r {
                Some(v) => kf_string(self@, group@, key@) == Some(v@),
                None => kf_string(self@, group@, key@) is None,
            }),
    {
        let ghost gs = self@.groups;
        proof {
            assert(gs.skip(0) =~= gs);
        }
        let wanted_group: String = group.to_owned();
        let n = self.groups.len();
        let mut i: usize = 0;
        while i < n
            invariant
                n == self.groups.len(),
                gs == self@.groups,
                gs.len() == n,
                wanted_group@ == group@,
                i <= n,
                find_group(gs, group@) == find_group(gs.skip(i as int), group@),
            decreases n - i,
        {
            proof {
                assert(gs.skip(i as int)[0] == gs[i as int]);
                assert(gs[i as int] == self.groups@[i as int]@);
            }
            if self.groups[i].name == wanted_group {
                proof {
                    assert(find_group(gs, group@) == Some(gs[i as int]));
                }
                return Self::entry_value(&self.groups[i], key);
            }
            proof {
                assert(gs.skip(i as int).drop_first() =~= gs.skip(i + 1));
            }
            i = i + 1;
        }
        proof {
            assert(gs.skip(n as int).len() == 0);
        }
        None
    }

    /// The value of the first entry with the given key in one group.
    fn entry_value(g: &KeyFileGroup, key: &str) -> (r: Option<String>)
        ensures
            (match r {
                Some(v) => find_entry(g@.entries, key@) matches Some(e) && e.value == v@,
                None => find_entry(g@.entries, key@) is None,
            }),
    {
        let ghost es = g@.entries;
        proof {
            assert(es.skip(0) =~= es);
        }
        let wanted: String = key.to_owned();
        let n = g.entries.len();
        let mut i: usize = 0;
        while i < n
            invariant
                n == g.entries.len(),
                es == g@.entries,
                es.len() == n,
                wanted@ == key@,
                i <= n,
                find_entry(es, key@) == find_entry(es.skip(i as int), key@),
            decreases n - i,
        {
            proof {
                assert(es.skip(i as int)[0] == es[i as int]);
                assert(es[i as int] == g.entries@[i as int]@);
            }
            if g.entries[i].key == wanted {
                return Some(g.entries[i].value.clone());
            }
            proof {
                assert(es.skip(i as int).drop_first() =~= es.skip(i + 1));
            }
            i = i + 1;
        }
        proof {
            assert(es.skip(n as int).len() == 0);
        }
        None
    }

    /// The value under a group and key read as a boolean.
    pub fn boolean(&self, group: &str, key: &str) -> (r: Option<bool>)
        ensures
            r == kf_boolean(self@, group@, key@),
    {
        match self.string(group, key) {
            Some(v) => {
                if v == "true".to_owned() {
                    Some(true)
                } else if v == "false".to_owned() {
                    Some(false)
                } else {
                    None
                }
            },
            None => None,
        }
    }
}

} // verus!
