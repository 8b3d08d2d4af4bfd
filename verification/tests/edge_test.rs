use athenos::edge::{is_app_event, project_apps, EdgeObserver, OSEvent, OSEventType};
use athenos::strmap::StrMap;

fn event(kind: OSEventType, app: &str, timestamp: i64) -> OSEvent {
    OSEvent {
        event_type: kind,
        app_name: app.to_string(),
        window_title: None,
        timestamp,
        metadata: StrMap::new(),
    }
}

#[test]
fn test_edge_observer_creation() {
    let observer = EdgeObserver::new(100);
    assert_eq!(observer.len(), 0);
}

#[test]
fn test_record_event() {
    let mut observer = EdgeObserver::new(10);
    let event = OSEvent {
        event_type: OSEventType::AppLaunch,
        app_name: "Teams".to_string(),
        window_title: None,
        timestamp: 1234567890,
        metadata: StrMap::new(),
    };

    observer.record_event(event);
    assert_eq!(observer.len(), 1);
    assert_eq!(observer.get_recent_events(10)[0].app_name, "Teams");
}

#[test]
fn test_app_sequence() {
    let mut observer = EdgeObserver::new(10);

    observer.record_event(OSEvent {
        event_type: OSEventType::AppLaunch,
        app_name: "Teams".to_string(),
        window_title: None,
        timestamp: 1,
        metadata: StrMap::new(),
    });

    observer.record_event(OSEvent {
        event_type: OSEventType::AppSwitch,
        app_name: "Gmail".to_string(),
        window_title: None,
        timestamp: 2,
        metadata: StrMap::new(),
    });

    observer.record_event(OSEvent {
        event_type: OSEventType::WindowFocus,
        app_name: "IDE".to_string(),
        window_title: None,
        timestamp: 3,
        metadata: StrMap::new(),
    });

    let sequence = observer.get_app_sequence(10);
    assert_eq!(sequence, vec!["Teams", "Gmail", "IDE"]);
}

#[test]
fn test_event_rotation() {
    let mut observer = EdgeObserver::new(2);

    for i in 0..5 {
        observer.record_event(OSEvent {
            event_type: OSEventType::AppLaunch,
            app_name: format!("App{}", i),
            window_title: None,
            timestamp: i,
            metadata: StrMap::new(),
        });
    }

    let events = observer.get_recent_events(2);
    assert_eq!(observer.len(), 2);
    assert_eq!(events[0].app_name, "App3");
    assert_eq!(events[1].app_name, "App4");
}

#[test]
fn test_recent_events_are_the_newest() {
    let mut observer = EdgeObserver::new(10);
    for i in 0..4 {
        observer.record_event(event(OSEventType::KeyPress, &format!("App{}", i), i));
    }
    let two = observer.get_recent_events(2);
    assert_eq!(two.len(), 2);
    assert_eq!(two[0].app_name, "App2");
    assert_eq!(two[1].app_name, "App3");
    assert_eq!(observer.get_recent_events(0).len(), 0);
    assert_eq!(observer.get_recent_events(100).len(), 4);
    assert_eq!(observer.get_recent_events(100)[0].timestamp, 0);
}

#[test]
fn test_only_focus_events_name_applications() {
    let mut observer = EdgeObserver::new(10);
    observer.record_event(event(OSEventType::AppLaunch, "Teams", 1));
    observer.record_event(event(OSEventType::KeyPress, "Teams", 2));
    observer.record_event(event(OSEventType::AppClose, "Teams", 3));
    observer.record_event(event(OSEventType::WindowUnfocus, "Teams", 4));
    observer.record_event(event(OSEventType::MouseClick, "Gmail", 5));
    observer.record_event(event(OSEventType::SystemSleep, "", 6));
    observer.record_event(event(OSEventType::SystemWake, "", 7));
    observer.record_event(event(OSEventType::WindowFocus, "IDE", 8));
    assert_eq!(observer.get_app_sequence(10), vec!["Teams", "IDE"]);
    assert_eq!(observer.get_app_sequence(1), vec!["IDE"]);
    assert_eq!(observer.get_app_sequence(2), vec!["IDE"]);
    assert!(is_app_event(OSEventType::AppSwitch));
    assert!(!is_app_event(OSEventType::AppClose));
    let events = observer.get_recent_events(8);
    assert_eq!(project_apps(&events), vec!["Teams", "IDE"]);
}

#[test]
fn test_clear_and_zero_capacity() {
    let mut observer = EdgeObserver::new(3);
    observer.record_event(event(OSEventType::AppLaunch, "Teams", 1));
    observer.clear();
    assert_eq!(observer.len(), 0);
    observer.record_event(event(OSEventType::AppLaunch, "Gmail", 2));
    assert_eq!(observer.len(), 1);

    let mut none = EdgeObserver::new(0);
    none.record_event(event(OSEventType::AppLaunch, "Teams", 1));
    assert_eq!(none.len(), 0);

    let mut standard = EdgeObserver::default();
    for i in 0..1001 {
        standard.record_event(event(OSEventType::AppLaunch, "App", i));
    }
    assert_eq!(standard.len(), 1000);
    assert_eq!(standard.get_recent_events(1000)[0].timestamp, 1);
}
