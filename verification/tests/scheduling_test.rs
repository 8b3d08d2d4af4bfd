use athenos::clock::{utc_hour_of, FIRST_SECOND, LAST_SECOND};
use athenos::scheduling::{
    conflicts_with_hours, find_optimal_slot_at, CalendarEvent, CalendarNegotiationAgent,
    EventPriority,
};

fn event(id: &str, start_time: i64, end_time: i64, priority: EventPriority, flexible: bool) -> CalendarEvent {
    CalendarEvent {
        id: id.to_string(),
        title: id.to_string(),
        start_time,
        end_time,
        priority,
        is_flexible: flexible,
    }
}

const DAY: i64 = 86_400;
const HOUR: i64 = 3_600;

#[test]
fn test_calendar_agent_creation() {
    let agent = CalendarNegotiationAgent::new();
    assert_eq!(agent.event_count(), 0);
    assert_eq!(agent.focus_window_count(), 2);
}

#[test]
fn test_add_and_analyze_event() {
    let mut agent = CalendarNegotiationAgent::new();
    let event = CalendarEvent {
        id: "meeting_001".to_string(),
        title: "Team Standup".to_string(),
        start_time: chrono::Utc::now().timestamp() + 3600,
        end_time: chrono::Utc::now().timestamp() + 7200,
        priority: EventPriority::Low,
        is_flexible: true,
    };

    agent.add_event(event);
    assert_eq!(agent.event_count(), 1);
}

#[test]
fn test_anticipatory_scheduling() {
    let agent = CalendarNegotiationAgent::new();
    let event = CalendarEvent {
        id: "new_meeting".to_string(),
        title: "New Meeting".to_string(),
        start_time: chrono::Utc::now().timestamp() + 3600,
        end_time: chrono::Utc::now().timestamp() + 7200,
        priority: EventPriority::Low,
        is_flexible: true,
    };

    let suggestion = agent.anticipatory_schedule(&event);
    assert!(suggestion.is_some() || suggestion.is_none());
}

#[test]
fn test_priority_ordering() {
    assert!(EventPriority::Low < EventPriority::Medium);
    assert!(EventPriority::Medium < EventPriority::High);
    assert!(EventPriority::High < EventPriority::Critical);
    assert!(EventPriority::Critical >= EventPriority::Critical);
    assert_eq!(EventPriority::Critical.level(), 3);
}

#[test]
fn test_focus_windows() {
    // starts within a window: from the first hour up to, not including, the last
    assert!(conflicts_with_hours(9, 12));
    assert!(conflicts_with_hours(10, 23));
    assert!(!conflicts_with_hours(11, 12));
    assert!(conflicts_with_hours(14, 20));
    assert!(conflicts_with_hours(15, 15));
    assert!(!conflicts_with_hours(16, 17));
    // ends within a window: after the first hour up to, and including, the last
    assert!(!conflicts_with_hours(7, 9));
    assert!(conflicts_with_hours(7, 10));
    assert!(conflicts_with_hours(7, 11));
    assert!(!conflicts_with_hours(12, 14));
    assert!(conflicts_with_hours(12, 16));
    assert!(!conflicts_with_hours(8, 13));
    assert!(!conflicts_with_hours(0, 0));
    assert!(!conflicts_with_hours(23, 1));
}

#[test]
fn test_hours_are_taken_in_utc() {
    let agent = CalendarNegotiationAgent::new();
    let morning = event("m", 20_000 * DAY + 9 * HOUR + 59 * 60, 20_000 * DAY + 12 * HOUR, EventPriority::Low, true);
    assert!(agent.conflicts_with_focus_hours(&morning));
    let noon = event("n", 20_000 * DAY + 12 * HOUR, 20_000 * DAY + 13 * HOUR + 59 * 60 + 59, EventPriority::Low, true);
    assert!(!agent.conflicts_with_focus_hours(&noon));
    let before_epoch = event("b", -DAY + 14 * HOUR, -DAY + 18 * HOUR, EventPriority::Low, true);
    assert!(agent.conflicts_with_focus_hours(&before_epoch));
    let last_second = event("l", -1, -1, EventPriority::Low, true);
    assert!(!agent.conflicts_with_focus_hours(&last_second));
    // chrono has no date for these, so both hours count as zero
    let nowhere = event("x", i64::MAX, i64::MIN, EventPriority::Low, true);
    assert!(!agent.conflicts_with_focus_hours(&nowhere));
}

#[test]
fn test_suggestions_for_flexible_conflicts() {
    let mut agent = CalendarNegotiationAgent::default();
    let base = 20_000 * DAY;
    agent.add_event(event("standup", base + 9 * HOUR, base + 10 * HOUR, EventPriority::Low, true));
    agent.add_event(event("fixed", base + 9 * HOUR, base + 10 * HOUR, EventPriority::High, false));
    agent.add_event(event("lunch", base + 12 * HOUR, base + 13 * HOUR, EventPriority::Low, true));
    agent.add_event(event("review", base + 15 * HOUR, base + 17 * HOUR, EventPriority::Medium, true));
    let suggestions = agent.analyze_schedule_at(base, 1_000);
    assert_eq!(suggestions.len(), 2);
    assert_eq!(suggestions[0].event_id, "standup");
    assert_eq!(suggestions[0].suggested_start, 4_600);
    assert_eq!(suggestions[0].suggested_end, 8_200);
    assert_eq!(suggestions[0].reason, "Move to preserve focus hours (9:00-11:00)");
    assert_eq!(suggestions[0].expected_benefit, "Preserve 2 hours of peak focus time");
    assert!(!suggestions[0].requires_approval);
    assert_eq!(suggestions[1].event_id, "review");
    assert_eq!(suggestions[1].suggested_end, 4_600 + 2 * HOUR);
    assert!(suggestions[1].requires_approval);
    assert_eq!(agent.analyze_schedule(base).len(), 2);
    // a later event under the same id takes the place of the earlier
    agent.add_event(event("standup", base + 12 * HOUR, base + 13 * HOUR, EventPriority::Low, true));
    assert_eq!(agent.event_count(), 4);
    let suggestions = agent.analyze_schedule_at(base, 1_000);
    assert_eq!(suggestions.len(), 1);
    assert_eq!(suggestions[0].event_id, "review");
}

#[test]
fn test_anticipatory_suggestion() {
    let agent = CalendarNegotiationAgent::new();
    let base = 20_000 * DAY;
    let conflicting = event("new", base + 10 * HOUR, base + 10 * HOUR + 1800, EventPriority::Critical, true);
    let suggestion = agent.anticipatory_schedule_at(&conflicting, 50).unwrap();
    assert_eq!(suggestion.event_id, "new");
    assert_eq!(suggestion.suggested_start, 3_650);
    assert_eq!(suggestion.suggested_end, 5_450);
    assert_eq!(suggestion.reason, "Schedule outside focus hours to maximize productivity");
    assert_eq!(suggestion.expected_benefit, "Preserve cognitive peak performance window");
    assert!(suggestion.requires_approval);
    assert!(agent.anticipatory_schedule(&conflicting).is_some());
    let rigid = event("rigid", base + 10 * HOUR, base + 11 * HOUR, EventPriority::Low, false);
    assert!(agent.anticipatory_schedule_at(&rigid, 50).is_none());
    assert!(agent.anticipatory_schedule(&rigid).is_none());
    let clear = event("clear", base + 18 * HOUR, base + 19 * HOUR, EventPriority::Low, true);
    assert!(agent.anticipatory_schedule_at(&clear, 50).is_none());
}

#[test]
fn test_slot_arithmetic_stops_at_the_ends() {
    let backwards = event("b", 100, 40, EventPriority::Low, true);
    assert_eq!(find_optimal_slot_at(&backwards, 0), (3_600, 3_540));
    let endless = event("e", i64::MIN, i64::MAX, EventPriority::Low, true);
    assert_eq!(find_optimal_slot_at(&endless, 0), (3_600, i64::MAX));
    let ordinary = event("o", 0, 60, EventPriority::Low, true);
    assert_eq!(find_optimal_slot_at(&ordinary, i64::MAX), (i64::MAX, i64::MAX));
    let reversed = event("r", i64::MAX, i64::MIN, EventPriority::Low, true);
    assert_eq!(find_optimal_slot_at(&reversed, i64::MIN), (i64::MIN + 3_600, i64::MIN));
    let copy = ordinary.clone();
    assert_eq!(copy.end_time, 60);
}

#[test]
fn test_hour_at_the_ends_of_the_calendar() {
    assert!(chrono::DateTime::from_timestamp(FIRST_SECOND, 0).is_some());
    assert!(chrono::DateTime::from_timestamp(FIRST_SECOND - 1, 0).is_none());
    assert!(chrono::DateTime::from_timestamp(LAST_SECOND, 0).is_some());
    assert!(chrono::DateTime::from_timestamp(LAST_SECOND + 1, 0).is_none());
    assert_eq!(utc_hour_of(FIRST_SECOND), 0);
    assert_eq!(utc_hour_of(FIRST_SECOND + 3_600), 1);
    assert_eq!(utc_hour_of(FIRST_SECOND - 1), 0);
    assert_eq!(utc_hour_of(LAST_SECOND), 23);
    assert_eq!(utc_hour_of(LAST_SECOND + 3_601), 0);
    assert_eq!(utc_hour_of(0), 0);
    assert_eq!(utc_hour_of(-1), 23);
    assert_eq!(utc_hour_of(1_700_000_000), 22);
    assert_eq!(utc_hour_of(i64::MAX), 0);
    assert_eq!(utc_hour_of(i64::MIN), 0);
}
