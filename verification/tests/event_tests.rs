use chrono::Datelike;
use gnome_mcp::Event;

#[test]
fn test_event_from_str_complete() {
    let ical_data = r#"BEGIN:VCALENDAR
VERSION:2.0
PRODID:-//Test//Test//EN
BEGIN:VEVENT
UID:test-event-123
DTSTART:20240710T100000Z
DTEND:20240710T110000Z
SUMMARY:Test Event
DESCRIPTION:This is a test event
END:VEVENT
END:VCALENDAR"#;

    let event = Event::from_str(ical_data).unwrap();

    assert_eq!(event.uid, "test-event-123");
    assert_eq!(event.summary, Some("Test Event".to_string()));
    assert_eq!(event.description, Some("This is a test event".to_string()));
    assert!(event.start_time.is_some());
    assert!(event.end_time.is_some());
}

#[test]
fn test_event_from_str_minimal() {
    let ical_data = r#"BEGIN:VCALENDAR
VERSION:2.0
PRODID:-//Test//Test//EN
BEGIN:VEVENT
UID:minimal-event
DTSTART:20240710T100000Z
END:VEVENT
END:VCALENDAR"#;

    let event = Event::from_str(ical_data).unwrap();

    assert_eq!(event.uid, "minimal-event");
    assert_eq!(event.summary, None);
    assert_eq!(event.description, None);
    assert!(event.start_time.is_some());
    assert_eq!(event.end_time, None);
}

#[test]
fn test_event_from_str_empty_fields() {
    let ical_data = r#"BEGIN:VCALENDAR
VERSION:2.0
PRODID:-//Test//Test//EN
BEGIN:VEVENT
UID:empty-fields-event
DTSTART:20240710T100000Z
SUMMARY:
DESCRIPTION:
END:VEVENT
END:VCALENDAR"#;

    let event = Event::from_str(ical_data).unwrap();

    assert_eq!(event.uid, "empty-fields-event");
    assert_eq!(event.summary, None);
    assert_eq!(event.description, None);
}

#[test]
fn test_event_from_str_error_no_components() {
    let ical_data = r#"BEGIN:VCALENDAR
VERSION:2.0
PRODID:-//Test//Test//EN
END:VCALENDAR"#;

    let result = Event::from_str(ical_data);
    assert!(result.is_err());
}

#[test]
fn test_event_from_str_error_invalid_ical() {
    let ical_data = r#"INVALID DATA"#;

    let result = Event::from_str(ical_data);
    assert!(result.is_err());
}

// DateTime edge case tests
#[test]
fn test_event_with_different_timezone_formats() {
    let ical_data = r#"BEGIN:VCALENDAR
VERSION:2.0
PRODID:-//Test//Test//EN
BEGIN:VEVENT
UID:timezone-event
DTSTART;TZID=America/New_York:20240710T140000
DTEND;TZID=America/New_York:20240710T150000
SUMMARY:Timezone Test Event
END:VEVENT
END:VCALENDAR"#;

    let event = Event::from_str(ical_data).unwrap();

    assert_eq!(event.uid, "timezone-event");
    assert_eq!(event.summary, Some("Timezone Test Event".to_string()));
    assert!(event.start_time.is_some());
    assert!(event.end_time.is_some());
}

#[test]
fn test_event_with_date_only() {
    let ical_data = r#"BEGIN:VCALENDAR
VERSION:2.0
PRODID:-//Test//Test//EN
BEGIN:VEVENT
UID:date-only-event
DTSTART;VALUE=DATE:20240710
SUMMARY:All Day Event
END:VEVENT
END:VCALENDAR"#;

    let event = Event::from_str(ical_data).unwrap();

    assert_eq!(event.uid, "date-only-event");
    assert_eq!(event.summary, Some("All Day Event".to_string()));

    if let Some(start) = event.start_time {
        let start = chrono::DateTime::from_timestamp(start, 0).unwrap();
        assert_eq!(start.year(), 2024);
        assert_eq!(start.month(), 7);
        assert_eq!(start.day(), 10);
    }
}

#[test]
fn test_event_with_malformed_dates() {
    let ical_data = r#"BEGIN:VCALENDAR
VERSION:2.0
PRODID:-//Test//Test//EN
BEGIN:VEVENT
UID:malformed-date-event
DTSTART:INVALID-DATE
DTEND:20240710T110000Z
SUMMARY:Event with bad start date
END:VEVENT
END:VCALENDAR"#;

    let event = Event::from_str(ical_data).unwrap();

    assert_eq!(event.uid, "malformed-date-event");
    assert_eq!(event.summary, Some("Event with bad start date".to_string()));
    assert!(event.start_time.is_none());
    assert!(event.end_time.is_some());
}

// Unicode and special character tests
#[test]
fn test_event_with_unicode_characters() {
    let ical_data = r#"BEGIN:VCALENDAR
VERSION:2.0
PRODID:-//Test//Test//EN
BEGIN:VEVENT
UID:unicode-event-123
DTSTART:20240710T100000Z
DTEND:20240710T110000Z
SUMMARY:Meeting with José María Aznar in café 北京
DESCRIPTION:Discussing 中文 project with François and Müller. Price: €500.
LOCATION:Café 北京, Paris
CATEGORIES:Business,International
END:VEVENT
END:VCALENDAR"#;

    let event = Event::from_str(ical_data).unwrap();

    assert_eq!(event.uid, "unicode-event-123");
    assert_eq!(
        event.summary,
        Some("Meeting with José María Aznar in café 北京".to_string())
    );
    assert_eq!(
        event.description,
        Some("Discussing 中文 project with François and Müller. Price: €500.".to_string())
    );

    // Test location field that now works
    assert_eq!(event.location, Some("Café 北京, Paris".to_string()));

    // Test categories field that now works
    assert_eq!(event.categories.len(), 2);
    assert!(event.categories.contains(&"Business".to_string()));
    assert!(event.categories.contains(&"International".to_string()));
}

#[test]
fn test_whitespace_and_newline_handling() {
    let ical_data = r#"BEGIN:VCALENDAR
VERSION:2.0
PRODID:-//Test//Test//EN
BEGIN:VEVENT
UID:whitespace-event
DTSTART:20240710T100000Z
DTEND:20240710T110000Z
SUMMARY:  Event with lots of   spaces
DESCRIPTION:Multi-line\ndescription with\ttabs and\r\ncarriage returns.\n\nDouble newlines too.
END:VEVENT
END:VCALENDAR"#;

    let event = Event::from_str(ical_data).unwrap();

    assert_eq!(event.uid, "whitespace-event");
    // The parser should preserve the whitespace as-is
    assert_eq!(
        event.summary,
        Some("  Event with lots of   spaces".to_string())
    );
    assert!(event.description.as_ref().unwrap().contains("Multi-line"));
    assert!(event.description.as_ref().unwrap().contains("tabs"));

    // Location field is supported but not present in this test data
    assert_eq!(event.location, None);
}

#[test]
fn test_escape_sequences_and_special_ical_chars() {
    let ical_data = r#"BEGIN:VCALENDAR
VERSION:2.0
PRODID:-//Test//Test//EN
BEGIN:VEVENT
UID:escaped-event
DTSTART:20240710T100000Z
DTEND:20240710T110000Z
SUMMARY:Event with "quotes" and \backslashes\
DESCRIPTION:Testing: \\backslash\, \;semicolon\, \,comma\, and \nnewline
END:VEVENT
END:VCALENDAR"#;

    let event = Event::from_str(ical_data).unwrap();

    assert_eq!(event.uid, "escaped-event");
    assert!(event.summary.as_ref().unwrap().contains("\"quotes\""));
    assert!(event.summary.as_ref().unwrap().contains("backslashes"));
    assert!(event.description.as_ref().unwrap().contains("\\backslash"));
    assert!(event.description.as_ref().unwrap().contains(";semicolon"));

    // Location field is supported but not present in this test data
    assert_eq!(event.location, None);
}

#[test]
fn test_event_with_all_fields() {
    let ical_data = r#"BEGIN:VCALENDAR
VERSION:2.0
PRODID:-//Test//Test//EN
BEGIN:VEVENT
UID:extended-event-123
DTSTART:20240710T100000Z
DTEND:20240710T110000Z
SUMMARY:Extended Event
DESCRIPTION:Event with location and categories
LOCATION:Conference Room A
CATEGORIES:Business,Meeting
PRIORITY:3
ORGANIZER:MAILTO:organizer@example.com
ATTENDEE:MAILTO:attendee1@example.com
ATTENDEE:MAILTO:attendee2@example.com
STATUS:CONFIRMED
TRANSP:OPAQUE
CLASS:PUBLIC
CREATED:20240701T080000Z
LAST-MODIFIED:20240705T120000Z
URL:https://example.com/event
RRULE:FREQ=WEEKLY;COUNT=4
END:VEVENT
END:VCALENDAR"#;

    let event = Event::from_str(ical_data).unwrap();

    assert_eq!(event.uid, "extended-event-123");
    assert_eq!(event.summary, Some("Extended Event".to_string()));
    assert_eq!(event.location, Some("Conference Room A".to_string()));
    assert_eq!(event.categories.len(), 2);
    assert!(event.categories.contains(&"Business".to_string()));
    assert!(event.categories.contains(&"Meeting".to_string()));

    // Test all the additional fields that should work
    assert_eq!(event.priority, Some(3));
    assert_eq!(
        event.organizer,
        Some("MAILTO:organizer@example.com".to_string())
    );
    assert_eq!(event.attendees.len(), 2);
    assert!(event
        .attendees
        .contains(&"MAILTO:attendee1@example.com".to_string()));
    assert!(event
        .attendees
        .contains(&"MAILTO:attendee2@example.com".to_string()));
    assert_eq!(event.status, Some("CONFIRMED".to_string()));
    assert_eq!(event.transparency, Some("OPAQUE".to_string()));
    assert_eq!(event.class, Some("PUBLIC".to_string()));
    assert!(event.created.is_some());
    assert!(event.last_modified.is_some());
    assert_eq!(event.url, Some("https://example.com/event".to_string()));
    assert_eq!(event.rrule, Some("FREQ=WEEKLY;COUNT=4".to_string()));
}
