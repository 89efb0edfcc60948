//! The source registry: classifying discovered backends from their
//! configuration blobs.
//!
//! A blob describes one backend. It yields a source exactly when its
//! `Data Source` group says `Enabled=true` and one of the groups
//! `Calendar`, `Task List` or `Address Book` is present; that group,
//! tried in this order, decides the source's type, and its
//! `BackendName` key (default `unknown`) names the backend. A disabled
//! or unclassifiable blob is silently dropped, never an error.

use vstd::prelude::*;

use crate::keyfile::{KeyFile, KeyFileV, find_group, kf_boolean, kf_parse, kf_string};

verus! {

/// Which kind of backend a source is, with the backend's name.
#[derive(Debug, Clone)]
pub enum SourceType {
    Calendar { backend_name: String },
    TaskList { backend_name: String },
    AddressBook { backend_name: String },
}

/// One discovered backend.
#[derive(Debug, Clone)]
pub struct SourceInfo {
    pub uid: String,
    pub path: String,
    pub display_name: String,
    pub enabled: bool,
    pub source_type: SourceType,
}

/// Mathematical image of a `SourceType`.
pub enum SourceTypeV {
    Calendar { backend_name: Seq<char> },
    TaskList { backend_name: Seq<char> },
    AddressBook { backend_name: Seq<char> },
}

/// Mathematical image of a `SourceInfo`.
pub struct SourceInfoV {
    pub uid: Seq<char>,
    pub path: Seq<char>,
    pub display_name: Seq<char>,
    pub enabled: bool,
    pub source_type: SourceTypeV,
}

impl View for SourceType {
    type V = SourceTypeV;

    open spec fn view(&self) -> SourceTypeV {
        match self {
            SourceType::Calendar { backend_name } => (SourceTypeV::Calendar {
                backend_name: backend_name@,
            }),
            SourceType::TaskList { backend_name } => (SourceTypeV::TaskList {
                backend_name: backend_name@,
            }),
            SourceType::AddressBook { backend_name } => (SourceTypeV::AddressBook {
                backend_name: backend_name@,
            }),
        }
    }
}

impl View for SourceInfo {
    type V = SourceInfoV;

    open spec fn view(&self) -> SourceInfoV {
        SourceInfoV {
            uid: self.uid@,
            path: self.path@,
            display_name: self.display_name@,
            enabled: self.enabled,
            source_type: self.source_type@,
        }
    }
}

/// Whether the blob marks its source as enabled.
pub open spec fn spec_enabled(kf: KeyFileV) -> bool {
    kf_boolean(kf, "Data Source"@, "Enabled"@) == Some(true)
}

/// The source's display name, with its default.
pub open spec fn spec_display_name(kf: KeyFileV) -> Seq<char> {
    match kf_string(kf, "Data Source"@, "DisplayName"@) {
        Some(v) => v,
        None => "Unknown"@,
    }
}

/// The backend name under one group, with its default.
pub open spec fn spec_backend_name(kf: KeyFileV, group: Seq<char>) -> Seq<char> {
    match kf_string(kf, group, "BackendName"@) {
        Some(v) => v,
        None => "unknown"@,
    }
}

/// The source type the blob's groups select: `Calendar`, then
/// `Task List`, then `Address Book`; none of the three, no source.
pub open spec fn spec_source_type(kf: KeyFileV) -> Option<SourceTypeV> {
    if find_group(kf.groups, "Calendar"@) is Some {
        Some(SourceTypeV::Calendar { backend_name: spec_backend_name(kf, "Calendar"@) })
    } else if find_group(kf.groups, "Task List"@) is Some {
        Some(SourceTypeV::TaskList { backend_name: spec_backend_name(kf, "Task List"@) })
    } else if find_group(kf.groups, "Address Book"@) is Some {
        Some(SourceTypeV::AddressBook { backend_name: spec_backend_name(kf, "Address Book"@) })
    } else {
        None
    }
}

/// What classification yields for a parsed blob.
pub open spec fn spec_classify(uid: Seq<char>, path: Seq<char>, kf: KeyFileV) -> Option<
    SourceInfoV,
> {
    if !spec_enabled(kf) {
        None
    } else {
        match spec_source_type(kf) {
            Some(st) => Some(
                SourceInfoV {
                    uid,
                    path,
                    display_name: spec_display_name(kf),
                    enabled: true,
                    source_type: st,
                },
            ),
            None => None,
        }
    }
}

/// What `parse_source_data` yields for a raw blob.
pub open spec fn spec_parse_source_data(path: Seq<char>, uid: Seq<char>, data: Seq<char>) -> Option<
    SourceInfoV,
> {
    match kf_parse(data) {
        Some(kf) => spec_classify(uid, path, kf),
        None => None,
    }
}

/// The backend name under one group, with its default.
fn backend_name(kf: &KeyFile, group: &str) -> (r: String)
    ensures
        r@ == spec_backend_name(kf@, group@),
{
    match kf.string(group, "BackendName") {
        Some(v) => v,
        None => "unknown".to_owned(),
    }
}

/// Classify one parsed configuration blob.
///
/// Yields a source exactly when the blob is enabled and one of the
/// three type groups is present.
pub fn classify_source(uid: String, path: String, kf: &KeyFile) -> (r: Option<SourceInfo>)
    ensures
        r is Some <==> spec_classify(uid@, path@, kf@) is Some,
        r matches Some(si) ==> si@ == spec_classify(uid@, path@, kf@).unwrap(),
{
    let enabled = match kf.boolean("Data Source", "Enabled") {
        Some(b) => b,
        None => false,
    };
    if !enabled {
        return None;
    }
    let display_name = match kf.string("Data Source", "DisplayName") {
        Some(v) => v,
        None => "Unknown".to_owned(),
    };
    let source_type: SourceType = if kf.has_group("Calendar") {
        SourceType::Calendar { backend_name: backend_name(kf, "Calendar") }
    } else if kf.has_group("Task List") {
        SourceType::TaskList { backend_name: backend_name(kf, "Task List") }
    } else if kf.has_group("Address Book") {
        SourceType::AddressBook { backend_name: backend_name(kf, "Address Book") }
    } else {
        return None;
    };
    Some(SourceInfo { uid, path, display_name, enabled, source_type })
}

/// Parse a raw configuration blob and classify it.
pub fn parse_source_data(path: String, uid: String, data: &str) -> (r: Option<SourceInfo>)
    ensures
        r is Some <==> spec_parse_source_data(path@, uid@, data@) is Some,
        r matches Some(si) ==> si@ == spec_parse_source_data(path@, uid@, data@).unwrap(),
{
    match KeyFile::parse(data) {
        Some(kf) => classify_source(uid, path, &kf),
        None => None,
    }
}

/// Law: a blob that does not say `Enabled=true` under `Data Source`
/// yields no source, whatever groups are present.
pub proof fn lemma_disabled_source_excluded(uid: Seq<char>, path: Seq<char>, kf: KeyFileV)
    requires
        kf_boolean(kf, "Data Source"@, "Enabled"@) != Some(true),
    ensures
        spec_classify(uid, path, kf) is None,
{
}

/// Law: classification from a raw blob excludes every source whose
/// blob does not say `Enabled=true` under `Data Source`, and every
/// unreadable blob, whatever groups are present.
pub proof fn lemma_disabled_blob_excluded(path: Seq<char>, uid: Seq<char>, data: Seq<char>)
    requires
        (match kf_parse(data) {
            Some(kf) => kf_boolean(kf, "Data Source"@, "Enabled"@) != Some(true),
            None => true,
        }),
    ensures
        spec_parse_source_data(path, uid, data) is None,
{
}

/// Law: classification selects exactly one source type, decided by
/// group presence in the order `Calendar`, `Task List`,
/// `Address Book`; a blob with none of the three yields no source.
pub proof fn lemma_source_type_exclusive(uid: Seq<char>, path: Seq<char>, kf: KeyFileV)
    ensures
        spec_classify(uid, path, kf) matches Some(si) ==> {
            &&& (si.source_type is Calendar <==> find_group(kf.groups, "Calendar"@) is Some)
            &&& (si.source_type is TaskList <==> (find_group(kf.groups, "Calendar"@) is None
                && find_group(kf.groups, "Task List"@) is Some))
            &&& (si.source_type is AddressBook <==> (find_group(kf.groups, "Calendar"@) is None
                && find_group(kf.groups, "Task List"@) is None && find_group(
                kf.groups,
                "Address Book"@,
            ) is Some))
        },
        find_group(kf.groups, "Calendar"@) is None && find_group(kf.groups, "Task List"@) is None
            && find_group(kf.groups, "Address Book"@) is None ==> spec_classify(
            uid,
            path,
            kf,
        ) is None,
{
}

} // verus!
