//! Session negotiation: where each kind of backend is opened and
//! queried.
//!
//! Every kind routes to a factory endpoint whose open method returns
//! the opened session's object locator and owning service name; all
//! later calls against that session go through the kind's session
//! interface. Address-book sessions additionally demand an explicit
//! `Open` before and `Close` after the fetch.

use vstd::prelude::*;

use crate::source::SourceType;

verus! {

/// The kind of a source, without its backend name.
#[derive(Debug, Clone, Copy, PartialEq, Eq, Structural)]
pub enum SourceKind {
    Calendar,
    TaskList,
    AddressBook,
}

impl SourceType {
    /// The kind of this source.
    pub fn kind(&self) -> (k: SourceKind)
        ensures
            k is Calendar <==> self is Calendar,
            k is TaskList <==> self is TaskList,
            k is AddressBook <==> self is AddressBook,
    {
        match self {
            SourceType::Calendar { .. } => SourceKind::Calendar,
            SourceType::TaskList { .. } => SourceKind::TaskList,
            SourceType::AddressBook { .. } => SourceKind::AddressBook,
        }
    }
}

/// One factory endpoint: the well-known service and object that open
/// sessions of one kind, and the method to call there.
#[derive(Debug, Clone, Copy)]
pub struct FactoryRoute {
    pub service: &'static str,
    pub object_path: &'static str,
    pub interface: &'static str,
    pub method: &'static str,
}

/// The factory endpoint for one kind of source.
pub fn factory_route(kind: SourceKind) -> (r: FactoryRoute)
    ensures
        kind is Calendar ==> r.service@ == "org.gnome.evolution.dataserver.Calendar8"@
            && r.object_path@ == "/org/gnome/evolution/dataserver/CalendarFactory"@
            && r.interface@ == "org.gnome.evolution.dataserver.CalendarFactory"@
            && r.method@ == "OpenCalendar"@,
        kind is TaskList ==> r.service@ == "org.gnome.evolution.dataserver.Calendar8"@
            && r.object_path@ == "/org/gnome/evolution/dataserver/CalendarFactory"@
            && r.interface@ == "org.gnome.evolution.dataserver.CalendarFactory"@
            && r.method@ == "OpenTaskList"@,
        kind is AddressBook ==> r.service@ == "org.gnome.evolution.dataserver.AddressBook10"@
            && r.object_path@ == "/org/gnome/evolution/dataserver/AddressBookFactory"@
            && r.interface@ == "org.gnome.evolution.dataserver.AddressBookFactory"@
            && r.method@ == "OpenAddressBook"@,
{
    match kind {
        SourceKind::Calendar => FactoryRoute {
            service: "org.gnome.evolution.dataserver.Calendar8",
            object_path: "/org/gnome/evolution/dataserver/CalendarFactory",
            interface: "org.gnome.evolution.dataserver.CalendarFactory",
            method: "OpenCalendar",
        },
        SourceKind::TaskList => FactoryRoute {
            service: "org.gnome.evolution.dataserver.Calendar8",
            object_path: "/org/gnome/evolution/dataserver/CalendarFactory",
            interface: "org.gnome.evolution.dataserver.CalendarFactory",
            method: "OpenTaskList",
        },
        SourceKind::AddressBook => FactoryRoute {
            service: "org.gnome.evolution.dataserver.AddressBook10",
            object_path: "/org/gnome/evolution/dataserver/AddressBookFactory",
            interface: "org.gnome.evolution.dataserver.AddressBookFactory",
            method: "OpenAddressBook",
        },
    }
}

/// The service that enumerates all backends.
pub fn registry_service() -> (r: &'static str)
    ensures
        r@ == "org.gnome.evolution.dataserver.Sources5"@,
{
    "org.gnome.evolution.dataserver.Sources5"
}

/// The object under which the backends are enumerated.
pub fn registry_object_path() -> (r: &'static str)
    ensures
        r@ == "/org/gnome/evolution/dataserver/SourceManager"@,
{
    "/org/gnome/evolution/dataserver/SourceManager"
}

/// The per-backend interface carrying the `Data` and `UID` properties.
pub fn registry_interface() -> (r: &'static str)
    ensures
        r@ == "org.gnome.evolution.dataserver.Source"@,
{
    "org.gnome.evolution.dataserver.Source"
}

/// The session interface that fetch calls go through.
pub fn session_interface(kind: SourceKind) -> (r: &'static str)
    ensures
        kind is Calendar || kind is TaskList ==> r@ == "org.gnome.evolution.dataserver.Calendar"@,
        kind is AddressBook ==> r@ == "org.gnome.evolution.dataserver.AddressBook"@,
{
    match kind {
        SourceKind::Calendar => "org.gnome.evolution.dataserver.Calendar",
        SourceKind::TaskList => "org.gnome.evolution.dataserver.Calendar",
        SourceKind::AddressBook => "org.gnome.evolution.dataserver.AddressBook",
    }
}

/// The method that fetches raw records from a session.
pub fn fetch_method(kind: SourceKind) -> (r: &'static str)
    ensures
        kind is Calendar || kind is TaskList ==> r@ == "GetObjectList"@,
        kind is AddressBook ==> r@ == "GetContactList"@,
{
    match kind {
        SourceKind::Calendar => "GetObjectList",
        SourceKind::TaskList => "GetObjectList",
        SourceKind::AddressBook => "GetContactList",
    }
}

/// Whether sessions of this kind demand the explicit `Open`/`Close`
/// bracket around the fetch.
pub fn needs_open_close(kind: SourceKind) -> (r: bool)
    ensures
        r == (kind is AddressBook),
{
    match kind {
        SourceKind::AddressBook => true,
        _ => false,
    }
}

} // verus!
