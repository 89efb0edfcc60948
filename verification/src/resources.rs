//! The read-only resources the connector exposes, and their
//! descriptions.
//!
//! Every resource serves a JSON payload under a fixed `gnome://` URI.
//! Which provider answers a URI is a pure decision; producing the
//! payload itself involves the outer transport and stays outside this
//! library.

use vstd::prelude::*;

verus! {

/// One resource, as listed to clients.
#[derive(Debug, Clone, Copy)]
pub struct Resource {
    pub uri: &'static str,
    pub name: &'static str,
    pub description: &'static str,
    pub mime_type: &'static str,
}

/// Mathematical image of a `Resource`.
pub struct ResourceV {
    pub uri: Seq<char>,
    pub name: Seq<char>,
    pub description: Seq<char>,
    pub mime_type: Seq<char>,
}

impl View for Resource {
    type V = ResourceV;

    open spec fn view(&self) -> ResourceV {
        ResourceV {
            uri: self.uri@,
            name: self.name@,
            description: self.description@,
            mime_type: self.mime_type@,
        }
    }
}

/// The payload served for one read of a resource.
#[derive(Debug, Clone)]
pub struct ResourceContent {
    pub uri: &'static str,
    pub mime_type: &'static str,
    pub text: String,
}

/// The identity of a resource provider, as configuration knows it.
#[derive(Debug, Clone, Copy, PartialEq, Eq, Structural)]
pub enum ResourceId {
    SystemInfo,
    Applications,
    Calendar,
    Tasks,
    Audio,
    /// A provider configuration knows nothing of; always enabled.
    Other,
}

/// A provider of one resource: a fixed identity and description.
pub trait ResourceProvider {
    /// The identity configuration checks this provider under.
    spec fn spec_id() -> ResourceId;

    /// The fixed description of this provider's resource.
    spec fn spec_resource() -> ResourceV;

    /// The identity configuration checks this provider under.
    fn id() -> (r: ResourceId)
        ensures
            r == Self::spec_id(),
    ;

    /// The resource as listed to clients.
    fn resource() -> (r: Resource)
        ensures
            r@ == Self::spec_resource(),
    ;
}

/// System information: OS, hardware, uptime.
#[derive(Debug, Clone, Copy, Default)]
pub struct SystemInfo;

/// The installed desktop applications.
#[derive(Debug, Clone, Copy, Default)]
pub struct Applications;

/// Calendar events from the data-server backends.
#[derive(Debug, Clone, Copy, Default)]
pub struct Calendar;

/// Tasks from the data-server backends.
#[derive(Debug, Clone, Copy, Default)]
pub struct Tasks;

/// Volume, mute state and media playback status.
#[derive(Debug, Clone, Copy, Default)]
pub struct Audio;

/// Contacts from the data-server backends.
#[derive(Debug, Clone, Copy, Default)]
pub struct Contacts;

impl ResourceProvider for SystemInfo {
    open spec fn spec_id() -> ResourceId {
        ResourceId::SystemInfo
    }

    open spec fn spec_resource() -> ResourceV {
        ResourceV {
            uri: "gnome://system/info"@,
            name: "System Information"@,
            description: "OS version, hardware specs, uptime"@,
            mime_type: "application/json"@,
        }
    }

    fn id() -> ResourceId {
        ResourceId::SystemInfo
    }

    fn resource() -> Resource {
        Resource {
            uri: "gnome://system/info",
            name: "System Information",
            description: "OS version, hardware specs, uptime",
            mime_type: "application/json",
        }
    }
}

impl ResourceProvider for Applications {
    open spec fn spec_id() -> ResourceId {
        ResourceId::Applications
    }

    open spec fn spec_resource() -> ResourceV {
        ResourceV {
            uri: "gnome://applications/installed"@,
            name: "Installed Applications"@,
            description: "List of installed desktop applications"@,
            mime_type: "application/json"@,
        }
    }

    fn id() -> ResourceId {
        ResourceId::Applications
    }

    fn resource() -> Resource {
        Resource {
            uri: "gnome://applications/installed",
            name: "Installed Applications",
            description: "List of installed desktop applications",
            mime_type: "application/json",
        }
    }
}

impl ResourceProvider for Calendar {
    open spec fn spec_id() -> ResourceId {
        ResourceId::Calendar
    }

    open spec fn spec_resource() -> ResourceV {
        ResourceV {
            uri: "gnome://calendar/events"@,
            name: "Calendar Events"@,
            description: "Calendar events from Evolution Data Server"@,
            mime_type: "application/json"@,
        }
    }

    fn id() -> ResourceId {
        ResourceId::Calendar
    }

    fn resource() -> Resource {
        Resource {
            uri: "gnome://calendar/events",
            name: "Calendar Events",
            description: "Calendar events from Evolution Data Server",
            mime_type: "application/json",
        }
    }
}

impl ResourceProvider for Tasks {
    open spec fn spec_id() -> ResourceId {
        ResourceId::Tasks
    }

    open spec fn spec_resource() -> ResourceV {
        ResourceV {
            uri: "gnome://tasks/list"@,
            name: "Task Lists"@,
            description: "Task lists and todos from Evolution Data Server"@,
            mime_type: "application/json"@,
        }
    }

    fn id() -> ResourceId {
        ResourceId::Tasks
    }

    fn resource() -> Resource {
        Resource {
            uri: "gnome://tasks/list",
            name: "Task Lists",
            description: "Task lists and todos from Evolution Data Server",
            mime_type: "application/json",
        }
    }
}

impl ResourceProvider for Audio {
    open spec fn spec_id() -> ResourceId {
        ResourceId::Audio
    }

    open spec fn spec_resource() -> ResourceV {
        ResourceV {
            uri: "gnome://audio/status"@,
            name: "Audio Status"@,
            description: "Current system volume, mute state, and media playback status"@,
            mime_type: "application/json"@,
        }
    }

    fn id() -> ResourceId {
        ResourceId::Audio
    }

    fn resource() -> Resource {
        Resource {
            uri: "gnome://audio/status",
            name: "Audio Status",
            description: "Current system volume, mute state, and media playback status",
            mime_type: "application/json",
        }
    }
}

impl ResourceProvider for Contacts {
    open spec fn spec_id() -> ResourceId {
        ResourceId::Other
    }

    open spec fn spec_resource() -> ResourceV {
        ResourceV {
            uri: "gnome://contacts/list"@,
            name: "Contacts"@,
            description: "Contact list from Evolution Data Server"@,
            mime_type: "application/json"@,
        }
    }

    fn id() -> ResourceId {
        ResourceId::Other
    }

    fn resource() -> Resource {
        Resource {
            uri: "gnome://contacts/list",
            name: "Contacts",
            description: "Contact list from Evolution Data Server",
            mime_type: "application/json",
        }
    }
}

/// The resources the connector lists, in their listing order.
pub fn list_resources() -> (r: Vec<Resource>)
    ensures
        r@.len() == 5,
        r@[0]@ == SystemInfo::spec_resource(),
        r@[1]@ == Applications::spec_resource(),
        r@[2]@ == Calendar::spec_resource(),
        r@[3]@ == Tasks::spec_resource(),
        r@[4]@ == Audio::spec_resource(),
{
    let mut v: Vec<Resource> = Vec::new();
    v.push(SystemInfo::resource());
    v.push(Applications::resource());
    v.push(Calendar::resource());
    v.push(Tasks::resource());
    v.push(Audio::resource());
    v
}

/// Which provider answers a URI.
pub open spec fn spec_resource_id_for_uri(uri: Seq<char>) -> Option<ResourceId> {
    if uri == "gnome://system/info"@ {
        Some(ResourceId::SystemInfo)
    } else if uri == "gnome://applications/installed"@ {
        Some(ResourceId::Applications)
    } else if uri == "gnome://calendar/events"@ {
        Some(ResourceId::Calendar)
    } else if uri == "gnome://tasks/list"@ {
        Some(ResourceId::Tasks)
    } else if uri == "gnome://audio/status"@ {
        Some(ResourceId::Audio)
    } else {
        None
    }
}

/// Which provider answers a URI; `None` for an unsupported one.
pub fn resource_id_for_uri(uri: &str) -> (r: Option<ResourceId>)
    ensures
        r == spec_resource_id_for_uri(uri@),
{
    let u: String = uri.to_owned();
    if u == "gnome://system/info".to_owned() {
        Some(ResourceId::SystemInfo)
    } else if u == "gnome://applications/installed".to_owned() {
        Some(ResourceId::Applications)
    } else if u == "gnome://calendar/events".to_owned() {
        Some(ResourceId::Calendar)
    } else if u == "gnome://tasks/list".to_owned() {
        Some(ResourceId::Tasks)
    } else if u == "gnome://audio/status".to_owned() {
        Some(ResourceId::Audio)
    } else {
        None
    }
}

} // verus!
