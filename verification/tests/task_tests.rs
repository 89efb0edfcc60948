use chrono::{Datelike, Timelike};
use gnome_mcp::Task;

#[test]
fn test_task_from_str_complete() {
    let ical_data = r#"BEGIN:VCALENDAR
VERSION:2.0
PRODID:-//Test//Test//EN
BEGIN:VTODO
UID:test-task-123
SUMMARY:Test Task
DESCRIPTION:This is a test task
DUE:20240715T170000Z
STATUS:NEEDS-ACTION
END:VTODO
END:VCALENDAR"#;

    let task = Task::from_str(ical_data).unwrap();

    assert_eq!(task.uid, "test-task-123");
    assert_eq!(task.summary, Some("Test Task".to_string()));
    assert_eq!(task.description, Some("This is a test task".to_string()));
    assert!(task.due_date.is_some());
    assert_eq!(task.status, "NEEDS-ACTION");
    assert!(!task.is_completed());
    assert!(!task.is_cancelled());

    if let Some(due) = task.due_date {
        let due = chrono::DateTime::from_timestamp(due, 0).unwrap();
        assert_eq!(due.year(), 2024);
        assert_eq!(due.month(), 7);
        assert_eq!(due.day(), 15);
        assert_eq!(due.hour(), 17);
        assert_eq!(due.minute(), 0);
    }
}

#[test]
fn test_task_from_str_completed() {
    let ical_data = r#"BEGIN:VCALENDAR
VERSION:2.0
PRODID:-//Test//Test//EN
BEGIN:VTODO
UID:completed-task
SUMMARY:Completed Task
STATUS:COMPLETED
COMPLETED:20240710T120000Z
END:VTODO
END:VCALENDAR"#;

    let task = Task::from_str(ical_data).unwrap();

    assert_eq!(task.uid, "completed-task");
    assert_eq!(task.status, "COMPLETED");
    assert!(task.is_completed());
    assert!(!task.is_cancelled());
    assert!(task.completed_date.is_some());
}

#[test]
fn test_task_from_str_cancelled() {
    let ical_data = r#"BEGIN:VCALENDAR
VERSION:2.0
PRODID:-//Test//Test//EN
BEGIN:VTODO
UID:cancelled-task
SUMMARY:Cancelled Task
STATUS:CANCELLED
END:VTODO
END:VCALENDAR"#;

    let task = Task::from_str(ical_data).unwrap();

    assert_eq!(task.uid, "cancelled-task");
    assert_eq!(task.status, "CANCELLED");
    assert!(!task.is_completed());
    assert!(task.is_cancelled());
}

#[test]
fn test_task_from_str_default_status() {
    let ical_data = r#"BEGIN:VCALENDAR
VERSION:2.0
PRODID:-//Test//Test//EN
BEGIN:VTODO
UID:default-status-task
SUMMARY:Default Status Task
END:VTODO
END:VCALENDAR"#;

    let task = Task::from_str(ical_data).unwrap();

    assert_eq!(task.uid, "default-status-task");
    assert_eq!(task.status, "NEEDS-ACTION");
    assert!(!task.is_completed());
    assert!(!task.is_cancelled());
}

#[test]
fn test_task_from_str_error_invalid_ical() {
    let ical_data = r#"INVALID DATA"#;

    let result = Task::from_str(ical_data);
    assert!(result.is_err());
}

#[test]
fn test_task_with_various_date_formats() {
    let ical_data = r#"BEGIN:VCALENDAR
VERSION:2.0
PRODID:-//Test//Test//EN
BEGIN:VTODO
UID:various-dates-task
SUMMARY:Task with Various Date Formats
DUE;TZID=America/New_York:20240710T235959
COMPLETED:20240711T080000Z
STATUS:COMPLETED
END:VTODO
END:VCALENDAR"#;

    let task = Task::from_str(ical_data).unwrap();

    assert_eq!(task.uid, "various-dates-task");
    assert!(task.due_date.is_some());
    assert!(task.completed_date.is_some());
    assert!(task.is_completed());
}

// Unicode and special character tests
#[test]
fn test_task_with_special_characters_and_symbols() {
    let ical_data = r#"BEGIN:VCALENDAR
VERSION:2.0
PRODID:-//Test//Test//EN
BEGIN:VTODO
UID:special-chars-task
SUMMARY:Fix bug #12345 @urgent !!! & handle < > " ' characters
DESCRIPTION:Task involves: \n- HTML tags: <div class="test">\n- Quotes: "double" & 'single'\n- Symbols: @#$%^&*()+={}[]|\\:;?/>.<,~`
DUE:20240715T235959Z
CATEGORIES:Urgent,Bug,Development
LOCATION:Development Office
END:VTODO
END:VCALENDAR"#;

    let task = Task::from_str(ical_data).unwrap();

    assert_eq!(task.uid, "special-chars-task");
    assert_eq!(
        task.summary,
        Some("Fix bug #12345 @urgent !!! & handle < > \" ' characters".to_string())
    );
    assert!(task.description.as_ref().unwrap().contains("HTML tags"));
    assert!(task
        .description
        .as_ref()
        .unwrap()
        .contains("\"double\" & 'single'"));
    assert!(task.description.as_ref().unwrap().contains("@#$%^&*()"));

    // Test categories field that now works
    assert_eq!(task.categories.len(), 3);
    assert!(task.categories.contains(&"Urgent".to_string()));
    assert!(task.categories.contains(&"Bug".to_string()));
    assert!(task.categories.contains(&"Development".to_string()));

    // Test location field that now works
    assert_eq!(task.location, Some("Development Office".to_string()));
}

#[test]
fn test_task_with_all_fields() {
    let ical_data = r#"BEGIN:VCALENDAR
VERSION:2.0
PRODID:-//Test//Test//EN
BEGIN:VTODO
UID:extended-task-123
SUMMARY:Extended Task
DESCRIPTION:Task with categories and start date
DTSTART:20240710T090000Z
DUE:20240715T170000Z
CATEGORIES:Work,Important
STATUS:IN-PROCESS
PRIORITY:2
PERCENT-COMPLETE:25
CREATED:20240701T080000Z
LAST-MODIFIED:20240705T120000Z
LOCATION:Office Building A
URL:https://example.com/task
CLASS:PRIVATE
END:VTODO
END:VCALENDAR"#;

    let task = Task::from_str(ical_data).unwrap();

    assert_eq!(task.uid, "extended-task-123");
    assert_eq!(task.summary, Some("Extended Task".to_string()));
    assert!(task.start_date.is_some());
    assert!(task.due_date.is_some());
    assert_eq!(task.categories.len(), 2);
    assert!(task.categories.contains(&"Work".to_string()));
    assert!(task.categories.contains(&"Important".to_string()));
    assert_eq!(task.status, "IN-PROCESS");

    // Test all the additional fields that should work
    assert_eq!(task.priority, Some(2));
    assert_eq!(task.percent_complete, Some(25));
    assert!(task.created.is_some());
    assert!(task.last_modified.is_some());
    assert_eq!(task.location, Some("Office Building A".to_string()));
    assert_eq!(task.url, Some("https://example.com/task".to_string()));
    assert_eq!(task.class, Some("PRIVATE".to_string()));
}
