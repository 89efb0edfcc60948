use gnome_mcp::collect::{
    collect_contacts, collect_events, collect_tasks, contact_passes_filter, sources_of_kind,
    task_passes_filter,
};
use gnome_mcp::endpoint::{factory_route, fetch_method, needs_open_close, session_interface};
use gnome_mcp::keyfile::KeyFile;
use gnome_mcp::query::{address_book_query, calendar_query, format_utc_stamp, task_list_query,
    time_window};
use gnome_mcp::resources::{list_resources, resource_id_for_uri, ResourceId};
use gnome_mcp::source::parse_source_data;
use gnome_mcp::tools::{validate_image_file, ImageFileError};
use gnome_mcp::{CompKind, Component, ExtractError, Prop, PropValue, SourceKind, SourceType,
    Task};

const CAL_BLOB: &str = "[Data Source]\nDisplayName=Personal\nEnabled=true\n\n[Calendar]\nBackendName=local\n";

fn vevent(uid: &str, summary: &str) -> String {
    format!(
        "BEGIN:VCALENDAR\nVERSION:2.0\nBEGIN:VEVENT\nUID:{}\nSUMMARY:{}\nEND:VEVENT\nEND:VCALENDAR",
        uid, summary
    )
}

#[test]
fn test_keyfile_parse_groups_and_values() {
    let kf = KeyFile::parse(CAL_BLOB).unwrap();
    assert!(kf.has_group("Data Source"));
    assert!(kf.has_group("Calendar"));
    assert!(!kf.has_group("Task List"));
    assert_eq!(kf.string("Data Source", "DisplayName"), Some("Personal".to_string()));
    assert_eq!(kf.string("Calendar", "BackendName"), Some("local".to_string()));
    assert_eq!(kf.string("Calendar", "Missing"), None);
    assert_eq!(kf.boolean("Data Source", "Enabled"), Some(true));
    assert_eq!(kf.boolean("Data Source", "DisplayName"), None);
}

#[test]
fn test_keyfile_parse_rejects_malformed_blobs() {
    // A line of no known shape.
    assert!(KeyFile::parse("[Group]\nnot a pair\n").is_none());
    // An entry before the first group.
    assert!(KeyFile::parse("key=value\n[Group]\n").is_none());
    // Comments and blank lines are fine.
    assert!(KeyFile::parse("# comment\n\n[Group]\nkey=value\n").is_some());
}

#[test]
fn test_keyfile_edge_cases() {
    // Carriage returns are stripped from line ends.
    let kf = KeyFile::parse("[G]\r\nk=v\r\n").unwrap();
    assert_eq!(kf.string("G", "k"), Some("v".to_string()));
    // An empty blob is a key file with no groups.
    let kf = KeyFile::parse("").unwrap();
    assert!(!kf.has_group("G"));
    // Booleans are exactly the words true and false.
    let kf = KeyFile::parse("[G]\na=false\nb=1\nc=TRUE\n").unwrap();
    assert_eq!(kf.boolean("G", "a"), Some(false));
    assert_eq!(kf.boolean("G", "b"), None);
    assert_eq!(kf.boolean("G", "c"), None);
    // The first group and the first key win when names repeat.
    let kf = KeyFile::parse("[G]\nk=first\nk=second\n[G]\nk=third\n").unwrap();
    assert_eq!(kf.string("G", "k"), Some("first".to_string()));
    // An empty value and a value holding an equals sign.
    let kf = KeyFile::parse("[G]\nempty=\neq=a=b\n").unwrap();
    assert_eq!(kf.string("G", "empty"), Some(String::new()));
    assert_eq!(kf.string("G", "eq"), Some("a=b".to_string()));
}

#[test]
fn test_classification_accepts_enabled_calendar_source() {
    let si = parse_source_data("/path/1".to_string(), "uid-1".to_string(), CAL_BLOB).unwrap();
    assert_eq!(si.uid, "uid-1");
    assert_eq!(si.path, "/path/1");
    assert_eq!(si.display_name, "Personal");
    assert!(si.enabled);
    match si.source_type {
        SourceType::Calendar { backend_name } => assert_eq!(backend_name, "local"),
        _ => panic!("wrong source type"),
    }
}

#[test]
fn test_classification_drops_disabled_source() {
    // Explicitly disabled.
    let blob = "[Data Source]\nEnabled=false\n\n[Calendar]\nBackendName=local\n";
    assert!(parse_source_data("/p".to_string(), "u".to_string(), blob).is_none());
    // No Enabled key at all.
    let blob = "[Data Source]\nDisplayName=X\n\n[Calendar]\n";
    assert!(parse_source_data("/p".to_string(), "u".to_string(), blob).is_none());
}

#[test]
fn test_classification_requires_a_type_group() {
    let blob = "[Data Source]\nEnabled=true\nDisplayName=X\n";
    assert!(parse_source_data("/p".to_string(), "u".to_string(), blob).is_none());
}

#[test]
fn test_classification_type_priority_and_defaults() {
    // Task list only, no backend name: the default applies.
    let blob = "[Data Source]\nEnabled=true\n\n[Task List]\n";
    let si = parse_source_data("/p".to_string(), "u".to_string(), blob).unwrap();
    assert_eq!(si.display_name, "Unknown");
    match si.source_type {
        SourceType::TaskList { backend_name } => assert_eq!(backend_name, "unknown"),
        _ => panic!("wrong source type"),
    }
    // Address book only.
    let blob = "[Data Source]\nEnabled=true\n\n[Address Book]\nBackendName=carddav\n";
    let si = parse_source_data("/p".to_string(), "u".to_string(), blob).unwrap();
    assert!(matches!(si.source_type, SourceType::AddressBook { .. }));
}

#[test]
fn test_sources_of_kind_keeps_order() {
    let mk = |uid: &str, st: SourceType| gnome_mcp::SourceInfo {
        uid: uid.to_string(),
        path: String::new(),
        display_name: String::new(),
        enabled: true,
        source_type: st,
    };
    let sources = vec![
        mk("a", SourceType::Calendar { backend_name: "l".to_string() }),
        mk("b", SourceType::AddressBook { backend_name: "l".to_string() }),
        mk("c", SourceType::Calendar { backend_name: "l".to_string() }),
    ];
    let cals = sources_of_kind(&sources, SourceKind::Calendar);
    assert_eq!(cals.len(), 2);
    assert_eq!(cals[0].uid, "a");
    assert_eq!(cals[1].uid, "c");
    assert_eq!(sources_of_kind(&sources, SourceKind::TaskList).len(), 0);
}

#[test]
fn test_factory_routes() {
    let r = factory_route(SourceKind::Calendar);
    assert_eq!(r.service, "org.gnome.evolution.dataserver.Calendar8");
    assert_eq!(r.object_path, "/org/gnome/evolution/dataserver/CalendarFactory");
    assert_eq!(r.interface, "org.gnome.evolution.dataserver.CalendarFactory");
    assert_eq!(r.method, "OpenCalendar");
    assert_eq!(factory_route(SourceKind::TaskList).method, "OpenTaskList");
    let r = factory_route(SourceKind::AddressBook);
    assert_eq!(r.service, "org.gnome.evolution.dataserver.AddressBook10");
    assert_eq!(r.method, "OpenAddressBook");

    assert_eq!(session_interface(SourceKind::Calendar), "org.gnome.evolution.dataserver.Calendar");
    assert_eq!(
        session_interface(SourceKind::AddressBook),
        "org.gnome.evolution.dataserver.AddressBook"
    );
    assert_eq!(fetch_method(SourceKind::TaskList), "GetObjectList");
    assert_eq!(fetch_method(SourceKind::AddressBook), "GetContactList");
    assert!(needs_open_close(SourceKind::AddressBook));
    assert!(!needs_open_close(SourceKind::Calendar));
}

#[test]
fn test_query_construction() {
    assert_eq!(format_utc_stamp(1720605600), "20240710T100000Z");
    let (start, end) = time_window(1720605600, 1, 2);
    assert_eq!(start, 1720605600 - 86400);
    assert_eq!(end, 1720605600 + 2 * 86400);
    let q = calendar_query(1720605600, 1720609200);
    assert_eq!(
        q,
        "(occur-in-time-range? (make-time \\\"20240710T100000Z\\\") (make-time \\\"20240710T110000Z\\\"))"
    );
    assert_eq!(task_list_query(), "#t");
    assert_eq!(address_book_query(), "");
}

#[test]
fn test_due_date_filter_boundary() {
    let now: i64 = 1720605600;
    let mk = |due: Option<i64>| Task {
        summary: None,
        description: None,
        due_date: due,
        completed_date: None,
        status: "NEEDS-ACTION".to_string(),
        uid: String::new(),
        start_date: None,
        priority: None,
        categories: vec![],
        percent_complete: None,
        created: None,
        last_modified: None,
        location: None,
        url: None,
        class: None,
    };
    // One second past the window: excluded.
    assert!(!task_passes_filter(&mk(Some(now + 7 * 86400 + 1)), true, true, 7, now));
    // Six days out: included.
    assert!(task_passes_filter(&mk(Some(now + 6 * 86400)), true, true, 7, now));
    // Exactly on the boundary: included.
    assert!(task_passes_filter(&mk(Some(now + 7 * 86400)), true, true, 7, now));
    // No due date: always included.
    assert!(task_passes_filter(&mk(None), true, true, 7, now));
    // No window: everything included.
    assert!(task_passes_filter(&mk(Some(now + 400 * 86400)), true, true, 0, now));
}

#[test]
fn test_status_filters() {
    let raw = "BEGIN:VCALENDAR\nBEGIN:VTODO\nUID:t1\nSTATUS:COMPLETED\nEND:VTODO\nEND:VCALENDAR";
    let done = Task::from_str(raw).unwrap();
    assert!(!task_passes_filter(&done, false, false, 0, 0));
    assert!(task_passes_filter(&done, true, false, 0, 0));
    let raw = "BEGIN:VCALENDAR\nBEGIN:VTODO\nUID:t2\nSTATUS:CANCELLED\nEND:VTODO\nEND:VCALENDAR";
    let gone = Task::from_str(raw).unwrap();
    assert!(!task_passes_filter(&gone, true, false, 0, 0));
    assert!(task_passes_filter(&gone, true, true, 0, 0));
}

#[test]
fn test_contact_email_filter() {
    let with = gnome_mcp::Contact::from_str(
        "BEGIN:VCARD\nVERSION:3.0\nUID:c1\nEMAIL:a@b.c\nEND:VCARD",
    )
    .unwrap();
    let without =
        gnome_mcp::Contact::from_str("BEGIN:VCARD\nVERSION:3.0\nUID:c2\nEND:VCARD").unwrap();
    assert!(contact_passes_filter(&with, true));
    assert!(!contact_passes_filter(&without, true));
    assert!(contact_passes_filter(&without, false));

    let batches = vec![Some(vec![
        "BEGIN:VCARD\nVERSION:3.0\nUID:c1\nEMAIL:a@b.c\nEND:VCARD".to_string(),
        "BEGIN:VCARD\nVERSION:3.0\nUID:c2\nEND:VCARD".to_string(),
    ])];
    let kept = collect_contacts(&batches, true);
    assert_eq!(kept.len(), 1);
    assert_eq!(kept[0].uid, "c1");
    let all = collect_contacts(&batches, false);
    assert_eq!(all.len(), 2);
}

#[test]
fn test_best_effort_aggregation() {
    // Three discovered calendar sources; the second failed to open.
    let batches = vec![
        Some(vec![vevent("e1", "First")]),
        None,
        Some(vec![vevent("e3", "Third"), "INVALID RECORD".to_string()]),
    ];
    let events = collect_events(&batches);
    assert_eq!(events.len(), 2);
    assert_eq!(events[0].uid, "e1");
    assert_eq!(events[1].uid, "e3");
}

#[test]
fn test_collect_tasks_applies_filters() {
    let todo = |uid: &str, status: &str| {
        format!(
            "BEGIN:VCALENDAR\nBEGIN:VTODO\nUID:{}\nSTATUS:{}\nEND:VTODO\nEND:VCALENDAR",
            uid, status
        )
    };
    let batches = vec![Some(vec![
        todo("t1", "NEEDS-ACTION"),
        todo("t2", "COMPLETED"),
        todo("t3", "CANCELLED"),
    ])];
    let tasks = collect_tasks(&batches, false, false, 0, 0);
    assert_eq!(tasks.len(), 1);
    assert_eq!(tasks[0].uid, "t1");
    let tasks = collect_tasks(&batches, true, true, 0, 0);
    assert_eq!(tasks.len(), 3);
}

#[test]
fn test_end_to_end_single_calendar_source() {
    // One enabled calendar source is discovered...
    let si = parse_source_data("/p/1".to_string(), "cal-uid".to_string(), CAL_BLOB).unwrap();
    assert!(matches!(si.source_type, SourceType::Calendar { .. }));
    // ...its session would be opened through the calendar factory...
    assert_eq!(factory_route(SourceKind::Calendar).method, "OpenCalendar");
    // ...and it answers the time-range query with one raw record.
    let raw = "BEGIN:VCALENDAR\nVERSION:2.0\nBEGIN:VEVENT\nSUMMARY:Standup\nDTSTART:20240710T100000Z\nDTEND:20240710T103000Z\nEND:VEVENT\nEND:VCALENDAR";
    let batches = vec![Some(vec![raw.to_string()])];
    let events = collect_events(&batches);
    assert_eq!(events.len(), 1);
    assert_eq!(events[0].summary, Some("Standup".to_string()));
    assert_eq!(events[0].uid, "");
    assert_eq!(events[0].start_time, Some(1720605600));
    assert_eq!(events[0].end_time, Some(1720607400));
}

#[test]
fn test_extract_error_variants_and_messages() {
    let r = gnome_mcp::Event::from_str("INVALID DATA");
    assert_eq!(r.unwrap_err(), ExtractError::Syntax);
    let r = gnome_mcp::Event::from_str("BEGIN:VCALENDAR\nVERSION:2.0\nEND:VCALENDAR");
    assert_eq!(r.unwrap_err(), ExtractError::MissingComponent);
    assert_eq!(ExtractError::Syntax.message(), "failed to parse record data");
    assert_eq!(
        ExtractError::MissingComponent.message(),
        "no matching component found in record data"
    );
}

#[test]
fn test_event_priority_narrows_like_a_cast() {
    // An out-of-range integer is narrowed to 32 bits, as a plain cast
    // would do.
    let raw = "BEGIN:VCALENDAR\nBEGIN:VEVENT\nUID:p\nPRIORITY:-1\nEND:VEVENT\nEND:VCALENDAR";
    let event = gnome_mcp::Event::from_str(raw).unwrap();
    assert_eq!(event.priority, Some(u32::MAX));
}

#[test]
fn test_event_extraction_from_component_model() {
    // Extraction logic exercised directly on the property model,
    // without going through the markup parser.
    let comps = vec![
        Component {
            kind: CompKind::Other,
            props: vec![Prop {
                name: "SUMMARY".to_string(),
                values: vec![PropValue::Text("wrapper".to_string())],
            }],
        },
        Component {
            kind: CompKind::Event,
            props: vec![
                Prop {
                    name: "SUMMARY".to_string(),
                    values: vec![PropValue::Text("Standup".to_string())],
                },
                Prop {
                    name: "DTSTART".to_string(),
                    values: vec![PropValue::Stamp(1720605600)],
                },
                Prop {
                    name: "CATEGORIES".to_string(),
                    values: vec![
                        PropValue::Text("Work".to_string()),
                        PropValue::Text(String::new()),
                        PropValue::Text("Daily".to_string()),
                    ],
                },
                Prop {
                    name: "PRIORITY".to_string(),
                    values: vec![PropValue::Integer(5)],
                },
            ],
        },
    ];
    // The first event component wins; the wrapper component is passed
    // over.
    let event = gnome_mcp::Event::from_components(&comps).unwrap();
    assert_eq!(event.summary, Some("Standup".to_string()));
    assert_eq!(event.start_time, Some(1720605600));
    assert_eq!(event.end_time, None);
    assert_eq!(event.uid, "");
    assert_eq!(event.categories, vec!["Work", "Daily"]);
    assert_eq!(event.priority, Some(5));

    // No event component at all: no event.
    let none = vec![Component { kind: CompKind::Other, props: vec![] }];
    assert!(gnome_mcp::Event::from_components(&none).is_none());
}

#[test]
fn test_resource_listing_and_uri_dispatch() {
    let rs = list_resources();
    assert_eq!(rs.len(), 5);
    assert_eq!(rs[0].uri, "gnome://system/info");
    assert_eq!(rs[2].uri, "gnome://calendar/events");
    assert_eq!(rs[3].uri, "gnome://tasks/list");
    assert_eq!(rs[2].mime_type, "application/json");
    assert_eq!(resource_id_for_uri("gnome://calendar/events"), Some(ResourceId::Calendar));
    assert_eq!(resource_id_for_uri("gnome://tasks/list"), Some(ResourceId::Tasks));
    assert_eq!(resource_id_for_uri("gnome://audio/status"), Some(ResourceId::Audio));
    assert_eq!(resource_id_for_uri("gnome://nothing/here"), None);
}

#[test]
fn test_validate_image_file() {
    assert_eq!(validate_image_file("/tmp/wallpaper.jpg"), Ok(()));
    assert_eq!(validate_image_file("/home/user/Pictures/photo.PNG"), Ok(()));
    assert_eq!(validate_image_file("a.JPeG"), Ok(()));
    assert_eq!(validate_image_file("/tmp/archive.tar.gz"), Err(ImageFileError::UnsupportedFormat));
    assert_eq!(validate_image_file("/tmp/document.pdf"), Err(ImageFileError::UnsupportedFormat));
    assert_eq!(validate_image_file("/tmp/noextension"), Err(ImageFileError::NoExtension));
    assert_eq!(validate_image_file("/tmp/.hidden"), Err(ImageFileError::NoExtension));
    assert_eq!(validate_image_file("dir.d/plain"), Err(ImageFileError::NoExtension));
}
