//! Tests of the reminder decisions, the configuration checks and the
//! commands overview.

use teambot::overview::commands_overview;
use teambot::reminder::{ReminderState, is_within_reminder_hours, reminders_due};
use teambot::models::Config;
use teambot::error::BotError;

fn fresh() -> ReminderState {
    ReminderState { sent_24h: false, sent_15m: false }
}

#[test]
fn test_reminder_hours_window() {
    assert!(is_within_reminder_hours(9, 9, 21));
    assert!(is_within_reminder_hours(20, 9, 21));
    assert!(!is_within_reminder_hours(21, 9, 21));
    assert!(!is_within_reminder_hours(8, 9, 21));
}

#[test]
fn test_reminder_windows() {
    // 24 hours and a minute out: nothing yet.
    let (a, b, _) = reminders_due(1500, &fresh());
    assert!(!a && !b);
    // Inside the day-before hour.
    let (a, b, s) = reminders_due(1450, &fresh());
    assert!(a && !b);
    assert!(s.sent_24h && !s.sent_15m);
    // Never twice.
    let (a, _, _) = reminders_due(1450, &s);
    assert!(!a);
    // The last quarter hour.
    let (a, b, s) = reminders_due(10, &fresh());
    assert!(!a && b);
    assert!(s.sent_15m);
    // Game already started.
    let (a, b, _) = reminders_due(0, &fresh());
    assert!(!a && !b);
}

fn base_config() -> Config {
    Config {
        groupme_bot_id: "b1".to_string(),
        groupme_bot_name: "PirateBot".to_string(),
        sheet_id: "s1".to_string(),
        google_api_key: "k1".to_string(),
        port: 18080,
        reminder_start_hour: 9,
        reminder_end_hour: 21,
        admin_user_id: "a1".to_string(),
        groupme_access_token: None,
        groupme_group_id: None,
        team_name: "Pirates".to_string(),
        team_emoji: "x".to_string(),
        enable_team_facts: true,
        team_facts_file: None,
    }
}

#[test]
fn test_config_check_ok() {
    assert!(base_config().check().is_ok());
}

#[test]
fn test_config_check_failures() {
    let mut c = base_config();
    c.groupme_bot_id = "".to_string();
    match c.check() {
        Err(BotError::EnvVar(m)) => assert_eq!(m, "GROUPME_BOT_ID cannot be empty"),
        other => panic!("expected a complaint, got {:?}", other),
    }
    let mut c = base_config();
    c.reminder_start_hour = 24;
    match c.check() {
        Err(BotError::EnvVar(m)) => assert_eq!(m, "REMINDER_START_HOUR must be between 0 and 23"),
        other => panic!("expected a complaint, got {:?}", other),
    }
    let mut c = base_config();
    c.reminder_start_hour = 12;
    c.reminder_end_hour = 12;
    match c.check() {
        Err(BotError::EnvVar(m)) => {
            assert_eq!(m, "REMINDER_START_HOUR must be less than REMINDER_END_HOUR")
        }
        other => panic!("expected a complaint, got {:?}", other),
    }
}

#[test]
fn test_commands_overview() {
    let text = commands_overview("PirateBot", "Pirates", "X", true);
    assert!(text.starts_with("\u{26be} PirateBot Commands:"));
    assert!(text.contains("@PirateBot next game - Full details for next game"));
    assert!(text.contains("Get a Pirates fact!"));
    assert!(text.contains("Let's go Pirates!"));
    let plain = commands_overview("PirateBot", "Pirates", "X", false);
    assert!(plain.contains("Show team spirit!"));
}
