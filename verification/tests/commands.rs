//! End-to-end tests of the command parser: the confidence gate, the
//! conversation context and the intent-to-command translation.

use teambot::command::CommandParser;
use teambot::context::ConversationContextStore;
use teambot::error::BotError;
use teambot::models::{Attachment, BotCommand};
use teambot::dates::Date;

fn create_parser() -> CommandParser {
    CommandParser::new("TestBot".to_string())
}

fn monday() -> Date {
    // 2025-06-02 is a Monday.
    Date { year: 2025, month: 6, day: 2 }
}

const NOW: i64 = 1_000_000;

#[test]
fn test_conversational_volunteer() {
    let mut parser = create_parser();

    // These should be understood conversationally
    let result =
        parser.parse_message("@TestBot I've got snacks for Saturday John", None, None, &[], monday(), NOW);
    assert!(result.is_ok());
}

#[test]
fn test_conversational_game_query() {
    let mut parser = create_parser();

    let result = parser.parse_message("@TestBot when's the next game?", None, None, &[], monday(), NOW);
    assert!(result.is_ok());
    assert!(matches!(result.unwrap(), Some(BotCommand::NextGame)));
}

#[test]
fn test_unknown_intent_returns_friendly_message() {
    let mut parser = create_parser();

    let result = parser.parse_message("@TestBot blah blah random stuff", None, None, &[], monday(), NOW);
    // Should return an error with a friendly message, not panic
    assert!(result.is_err());
    if let Err(BotError::InvalidCommand(msg)) = result {
        // Check message is not empty and contains some expected content
        // The message is randomly chosen from witty responses, so we just verify it's not empty
        assert!(!msg.is_empty(), "Error message should not be empty");
        // Verify it looks like a bot response (contains emoji or game-related text)
        assert!(
            msg.contains("🏴‍☠️") || msg.contains("⚾") || msg.contains("📱") ||
            msg.contains("game") || msg.contains("volunteer") || msg.contains("Pirates"),
            "Message should be a friendly bot response: {}", msg
        );
    } else {
        panic!("Expected InvalidCommand error");
    }
}

#[test]
fn test_help_intent() {
    let mut parser = create_parser();

    let result = parser.parse_message("@TestBot help", None, None, &[], monday(), NOW);
    assert!(result.is_ok());
    assert!(matches!(result.unwrap(), Some(BotCommand::Commands)));
}

#[test]
fn test_team_spirit() {
    let mut parser = create_parser();

    let result = parser.parse_message("@TestBot let's go pirates!", None, None, &[], monday(), NOW);
    assert!(result.is_ok());
    assert!(matches!(result.unwrap(), Some(BotCommand::LetsGo(_))));
}

#[test]
fn test_volunteer_next_game() {
    let mut parser = create_parser();

    let result =
        parser.parse_message("@TestBot Hobbs have snacks for the next game", None, None, &[], monday(), NOW);
    assert!(result.is_ok());
    assert!(matches!(result.unwrap(), Some(BotCommand::VolunteerNextGame(_, _))));
}

#[test]
fn test_volunteer_defaults_to_next_game() {
    let mut parser = create_parser();

    // No date specified - should default to next game
    let result = parser.parse_message("@TestBot Hobbs have snacks", None, None, &[], monday(), NOW);
    assert!(result.is_ok());
    assert!(matches!(result.unwrap(), Some(BotCommand::VolunteerNextGame(_, _))));
}

#[test]
fn test_unaddressed_message_is_ignored() {
    let mut parser = create_parser();
    let result = parser.parse_message("hello there everyone", None, Some("u1"), &[], monday(), NOW);
    assert!(matches!(result, Ok(None)));
}

#[test]
fn test_bare_mention_yields_commands() {
    let mut parser = create_parser();
    let result = parser.parse_message("  @TestBot  ", None, None, &[], monday(), NOW);
    assert!(matches!(result, Ok(Some(BotCommand::Commands))));
}

#[test]
fn test_dated_volunteer_scenario() {
    let mut parser = create_parser();
    let result = parser.parse_message(
        "@TestBot I've got snacks for Saturday John",
        None,
        Some("u1"),
        &[],
        monday(),
        NOW,
    );
    // The capitalized run after "for" takes every capitalized token,
    // so "Saturday John" is captured as the person.
    match result {
        Ok(Some(BotCommand::Volunteer(date, role, person))) => {
            assert_eq!(date, Date { year: 2025, month: 6, day: 7 });
            assert_eq!(role, "snacks");
            assert_eq!(person, "Saturday John");
        }
        other => panic!("expected a dated volunteer command, got {:?}", other),
    }
}

#[test]
fn test_volunteer_missing_person_asks_for_name() {
    let mut parser = create_parser();
    let result = parser.parse_message("@TestBot i've got snacks", None, None, &[], monday(), NOW);
    match result {
        Err(BotError::InvalidCommand(msg)) => {
            assert!(msg.contains("snacks"));
            assert!(msg.contains("Could you tell me your name?"));
        }
        other => panic!("expected a clarification, got {:?}", other),
    }
}

#[test]
fn test_volunteer_missing_role_asks_for_role() {
    let mut parser = create_parser();
    let result =
        parser.parse_message("@TestBot sign me up please - Dana", None, None, &[], monday(), NOW);
    match result {
        Err(BotError::InvalidCommand(msg)) => {
            assert!(msg.contains("Dana"));
            assert!(msg.contains("What would you like to volunteer for?"));
        }
        other => panic!("expected a clarification, got {:?}", other),
    }
}

#[test]
fn test_game_count_bounds() {
    let mut parser = create_parser();
    let result = parser.parse_message("@TestBot show me next 3 games", None, None, &[], monday(), NOW);
    assert!(matches!(result, Ok(Some(BotCommand::NextGames(3)))));
    let result = parser.parse_message("@TestBot show me next 12 games", None, None, &[], monday(), NOW);
    assert!(matches!(result, Ok(Some(BotCommand::NextGames(3)))));
}

#[test]
fn test_volunteer_query_translation() {
    // Every volunteer-query context word is also a volunteer-offer keyword,
    // so the classifier's offer rule always wins; the query intent still
    // translates directly.
    let parser = create_parser();
    let intent = teambot::intent::ParsedIntent::VolunteerQuery {
        date: Some(Date { year: 2025, month: 1, day: 15 }),
    };
    let result = parser.intent_to_command(intent);
    match result {
        Ok(Some(BotCommand::ShowVolunteers(Some(d)))) => {
            assert_eq!(d, Date { year: 2025, month: 1, day: 15 });
        }
        other => panic!("expected a volunteer query, got {:?}", other),
    }
}

#[test]
fn test_message_management() {
    let mut parser = create_parser();
    let result = parser.parse_message("@TestBot list messages", None, None, &[], monday(), NOW);
    assert!(matches!(result, Ok(Some(BotCommand::ListBotMessages(10)))));
    let result = parser.parse_message("@TestBot clean 2 messages", None, None, &[], monday(), NOW);
    assert!(matches!(result, Ok(Some(BotCommand::CleanBotMessages(2)))));
    let result = parser.parse_message(
        "@TestBot delete message 123456789012",
        None,
        None,
        &[],
        monday(),
        NOW,
    );
    match result {
        Ok(Some(BotCommand::DeleteBotMessage(id))) => assert_eq!(id, "123456789012"),
        other => panic!("expected a delete command, got {:?}", other),
    }
    // A delete request without an id is a clarification error.
    let result = parser.parse_message("@TestBot delete that message", None, None, &[], monday(), NOW);
    match result {
        Err(BotError::InvalidCommand(msg)) => assert!(msg.contains("message ID")),
        other => panic!("expected a clarification, got {:?}", other),
    }
}

#[test]
fn test_moderator_target_from_attachment() {
    let mut parser = create_parser();
    let atts = vec![Attachment {
        attachment_type: "mentions".to_string(),
        user_ids: vec!["42".to_string()],
        loci: vec![],
    }];
    let result = parser.parse_message("@TestBot add moderator", None, Some("u1"), &atts, monday(), NOW);
    match result {
        Ok(Some(BotCommand::AddModerator(uid))) => assert_eq!(uid, "42"),
        other => panic!("expected an add-moderator command, got {:?}", other),
    }
}

#[test]
fn test_admin_remove_split() {
    let mut parser = create_parser();
    let result =
        parser.parse_message("@TestBot remove Joe Smith from snacks", None, None, &[], monday(), NOW);
    match result {
        Ok(Some(BotCommand::RemoveVolunteer(person, role, date))) => {
            assert_eq!(person, "joe smith");
            assert_eq!(role, "snacks");
            assert_eq!(date, None);
        }
        other => panic!("expected a remove command, got {:?}", other),
    }
}

#[test]
fn test_confidence_values() {
    let parser = create_parser();
    // mention + high-confidence phrase
    assert_eq!(parser.calculate_volunteer_confidence("I've got snacks", false, true), 90);
    // context + medium phrase with a capital letter
    assert_eq!(parser.calculate_volunteer_confidence("Bringing chips", true, false), 70);
    // medium phrase without context
    assert_eq!(parser.calculate_volunteer_confidence("bringing chips", false, false), 20);
    // a question marker subtracts thirty
    assert_eq!(parser.calculate_volunteer_confidence("who is bringing chips", true, false), 20);
    // a high-confidence phrase supersedes a medium one; the bonuses never add
    assert_eq!(parser.calculate_volunteer_confidence("i got can do", false, false), 40);
}

#[test]
fn test_negation_overrides_confidence() {
    let parser = create_parser();
    assert_eq!(parser.calculate_volunteer_confidence("can't do it", true, true), 0);
    assert_eq!(
        parser.calculate_volunteer_confidence("I've got snacks but can't do it", true, true),
        0
    );
}

#[test]
fn test_context_expiry() {
    let mut store = ConversationContextStore::new(3);
    store.create_or_update_context("u1".to_string(), "Ann".to_string(), true, true, NOW);
    // Just before the timeout the context is alive...
    let c = store.get_active_context("u1", NOW + 3 * 60_000 - 1);
    assert!(c.is_some());
    assert!(c.unwrap().volunteer_intent);
    // ... and from the timeout on it is treated as absent.
    let c = store.get_active_context("u1", NOW + 3 * 60_000);
    assert!(c.is_none());
}

#[test]
fn test_context_overwrites_per_user() {
    let mut store = ConversationContextStore::new(3);
    store.create_or_update_context("u1".to_string(), "Ann".to_string(), true, true, NOW);
    store.create_or_update_context("u1".to_string(), "Ann B".to_string(), false, true, NOW + 10);
    let c = store.get_active_context("u1", NOW + 20).unwrap();
    assert_eq!(c.user_name, "Ann B");
    assert!(!c.volunteer_intent);
    store.clear_context("u1", NOW + 30);
    assert!(store.get_active_context("u1", NOW + 40).is_none());
}

#[test]
fn test_volunteer_message_creates_context() {
    let mut parser = create_parser();
    let result = parser.parse_message(
        "@TestBot I've got snacks",
        Some("Ann"),
        Some("u1"),
        &[],
        monday(),
        NOW,
    );
    // Person falls back to the sender's display name.
    match result {
        Ok(Some(BotCommand::VolunteerNextGame(role, person))) => {
            assert_eq!(role, "snacks");
            assert_eq!(person, "Ann");
        }
        other => panic!("expected a next-game volunteer command, got {:?}", other),
    }
    let c = parser.context_store.get_active_context("u1", NOW + 1000);
    assert!(c.is_some());
    assert!(c.unwrap().volunteer_intent);
}

#[test]
fn test_confident_continuation_is_processed() {
    let mut parser = create_parser();
    // A mentioning volunteer message opens the sender's context.
    let first =
        parser.parse_message("@TestBot I've got snacks", Some("Ann"), Some("u1"), &[], monday(), NOW);
    assert!(first.is_ok());
    // A mention-free reply with a high-confidence phrase and a live context
    // is classified, not ignored: with no role named it earns the
    // clarification addressed to the captured person.
    let later = NOW + 170_000;
    let reply =
        parser.parse_message("I'll bring Chips", Some("Ann"), Some("u1"), &[], monday(), later);
    match reply {
        Err(BotError::InvalidCommand(msg)) => assert!(msg.contains("Chips")),
        other => panic!("expected a clarification, got {:?}", other),
    }
    // The reply refreshed the context: still alive past the first
    // message's three-minute window.
    let c = parser.context_store.get_active_context("u1", later + 170_000);
    assert!(c.is_some());
}

#[test]
fn test_clock_yields_valid_date() {
    let d = teambot::clock::today();
    assert!(1 <= d.year && d.year <= 9998);
    assert!(1 <= d.month && d.month <= 12);
    assert!(1 <= d.day && d.day <= 31);
    let _ms = teambot::clock::now_millis();
}
