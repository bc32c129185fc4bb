//! Tests of the event data, the matchup parser, the weather helpers and
//! the moderator roster.

use teambot::events::{EventData, CorrelatedEvent};
use teambot::weather::{parse_hour_from_time, weather_code_to_string};
use teambot::times::parse_time_minutes;
use teambot::moderators::ModeratorsStore;
use teambot::dates::Date;

fn sample_event() -> EventData {
    EventData::new(
        Date { year: 2025, month: 6, day: 2 },
        "10:00 AM".to_string(),
        "Hall Field (Plano)".to_string(),
        "Pirates".to_string(),
        "Ann".to_string(),
        "".to_string(),
        "Bob".to_string(),
        "".to_string(),
    )
}

#[test]
fn test_event_new_empty_cells() {
    let e = sample_event();
    assert_eq!(e.snacks, Some("Ann".to_string()));
    assert_eq!(e.livestream, None);
    assert_eq!(e.scoreboard, Some("Bob".to_string()));
    assert_eq!(e.pitch_count, None);
}

#[test]
fn test_role_availability_and_assignment() {
    let mut e = sample_event();
    assert!(!e.is_role_available("snacks"));
    assert!(e.is_role_available("livestream"));
    assert!(e.is_role_available("Pitch_Count"));
    assert!(!e.is_role_available("coach"));
    assert!(e.assign_volunteer("livestream", "Cat"));
    assert_eq!(e.livestream, Some("Cat".to_string()));
    assert!(!e.assign_volunteer("livestream", "Dan"));
    assert_eq!(e.livestream, Some("Cat".to_string()));
    assert!(!e.assign_volunteer("coach", "Dan"));
}

#[test]
fn test_get_field() {
    let e = sample_event();
    assert_eq!(e.get_field("Time"), Some(&"10:00 AM".to_string()));
    assert_eq!(e.get_field("home"), Some(&"Pirates".to_string()));
    assert_eq!(e.get_field("snacks"), Some(&"Ann".to_string()));
    assert_eq!(e.get_field("livestream"), None);
    assert_eq!(e.get_field("weather"), None);
}

#[test]
fn test_volunteer_needs_message() {
    let e = sample_event();
    assert_eq!(e.format_volunteer_needs(), "⚠️ Still needed: livestream, pitch_count");
    let mut full = sample_event();
    assert!(full.assign_volunteer("livestream", "Cat"));
    assert!(full.assign_volunteer("pitchcount", "Dan"));
    assert_eq!(full.format_volunteer_needs(), "✅ All volunteer roles are filled!");
}

#[test]
fn test_location_link_encodes() {
    let e = sample_event();
    let link = e.format_location_with_link();
    assert!(link.starts_with("Hall Field (Plano) (https://maps.google.com/?q="));
    assert!(link.contains("%20"));
    let bare = EventData::new(
        Date { year: 2025, month: 6, day: 2 },
        "".to_string(),
        "".to_string(),
        "".to_string(),
        "".to_string(),
        "".to_string(),
        "".to_string(),
        "".to_string(),
    );
    assert_eq!(bare.format_location_with_link(), "TBD");
}

#[test]
fn test_format_all_lines() {
    let e = sample_event();
    let all = e.format_all();
    assert!(all.contains("Date: 2025-06-02\n"));
    assert!(all.contains("Time: 10:00 AM\n"));
    assert!(all.contains("Home Team: Pirates\n"));
    assert!(all.contains("Snacks: Ann\n"));
    assert!(all.contains("Livestream: ⚠️ NEEDED\n"));
}

#[test]
fn test_matchup_league_format() {
    let ev = CorrelatedEvent {
        event_date: Date { year: 2025, month: 6, day: 2 },
        event_summary: " Vs Chaos 8U - Hall (Pirates - Hines)".to_string(),
        data: sample_event(),
    };
    assert_eq!(ev.format_matchup(), "Pirates (Home) vs Chaos 8U");
}

#[test]
fn test_matchup_plain_format() {
    let mut ev = CorrelatedEvent {
        event_date: Date { year: 2025, month: 6, day: 2 },
        event_summary: "Tigers vs Lions".to_string(),
        data: sample_event(),
    };
    // Neither side matches the home team.
    assert_eq!(ev.format_matchup(), "Tigers vs Lions");
    ev.data.home_team = "Lions".to_string();
    assert_eq!(ev.format_matchup(), "Tigers vs Lions (Home)");
}

#[test]
fn test_matchup_fallbacks() {
    let mut ev = CorrelatedEvent {
        event_date: Date { year: 2025, month: 6, day: 2 },
        event_summary: "practice".to_string(),
        data: sample_event(),
    };
    assert_eq!(ev.format_matchup(), "Pirates Game");
    ev.data.home_team = "".to_string();
    assert_eq!(ev.format_matchup(), "10:00 AM at Hall Field (Plano)");
    ev.data.time = "".to_string();
    assert_eq!(ev.format_matchup(), "practice");
    ev.event_summary = "".to_string();
    assert_eq!(ev.format_matchup(), "Game");
}

#[test]
fn test_parse_hour() {
    assert_eq!(parse_hour_from_time("3:30 PM"), Some(15));
    assert_eq!(parse_hour_from_time("10:00 AM"), Some(10));
    assert_eq!(parse_hour_from_time("14:00"), Some(14));
    assert_eq!(parse_hour_from_time("12 am"), Some(0));
    assert_eq!(parse_hour_from_time("8am-9:30am"), Some(8));
    assert_eq!(parse_hour_from_time("TBD"), None);
}

#[test]
fn test_weather_codes() {
    assert_eq!(weather_code_to_string(0), "Clear sky");
    assert_eq!(weather_code_to_string(2), "Partly cloudy");
    assert_eq!(weather_code_to_string(63), "Rain");
    assert_eq!(weather_code_to_string(95), "Thunderstorm");
    assert_eq!(weather_code_to_string(100), "Unknown");
}

#[test]
fn test_moderator_roster() {
    let mut store = ModeratorsStore::new();
    assert!(!store.is_moderator("7"));
    store.add_moderator("7".to_string());
    store.add_moderator("8".to_string());
    store.add_moderator("7".to_string());
    assert!(store.is_moderator("7"));
    assert_eq!(store.list_moderators(), vec!["7".to_string(), "8".to_string()]);
    assert!(store.is_authorized("7", "admin"));
    assert!(store.is_authorized("admin", "admin"));
    assert!(!store.is_authorized("9", "admin"));
    assert!(store.remove_moderator("7"));
    assert!(!store.remove_moderator("7"));
    assert!(!store.is_moderator("7"));
}

#[test]
fn test_parse_time_minutes() {
    assert_eq!(parse_time_minutes("10:00 AM"), Some(600));
    assert_eq!(parse_time_minutes("2:00 PM"), Some(840));
    assert_eq!(parse_time_minutes("12:00 AM"), Some(0));
    assert_eq!(parse_time_minutes("12:30 PM"), Some(750));
    assert_eq!(parse_time_minutes("14:30"), Some(870));
    assert_eq!(parse_time_minutes("8am"), Some(480));
    assert_eq!(parse_time_minutes("10PM"), Some(1320));
    assert_eq!(parse_time_minutes("13:00 PM"), None);
    assert_eq!(parse_time_minutes("25:00"), None);
    assert_eq!(parse_time_minutes("TBD"), None);
}
