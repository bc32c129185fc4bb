//! Tests of the conversational parser, its extractors and the team facts.

use teambot::intent::{ConversationalParser, ParsedIntent};
use teambot::facts::TeamFactsProvider;
use teambot::dates::Date;

fn create_parser() -> ConversationalParser {
    ConversationalParser::new("PirateBot".to_string())
}

fn monday() -> Date {
    // 2025-06-02 is a Monday.
    Date { year: 2025, month: 6, day: 2 }
}

#[test]
fn test_volunteer_intent_detection() {
    let parser = create_parser();

    let test_cases = vec![
        "@PirateBot I've got snacks",
        "@PirateBot I can do livestream for Saturday",
        "@PirateBot put me down for scoreboard",
        "@PirateBot I'll bring snacks for next game",
    ];

    for case in test_cases {
        let intent = parser.parse_message(case, None, &[], monday());
        assert!(matches!(intent, Some(ParsedIntent::Volunteer { .. })));
    }
}

#[test]
fn test_game_query_detection() {
    let parser = create_parser();

    let test_cases = vec![
        "@PirateBot when's the next game?",
        "@PirateBot what time is the game?",
        "@PirateBot where are we playing?",
        "@PirateBot show me next 3 games",
    ];

    for case in test_cases {
        let intent = parser.parse_message(case, None, &[], monday());
        assert!(matches!(intent, Some(ParsedIntent::GameQuery { .. })));
    }
}

#[test]
fn test_date_extraction() {
    let parser = create_parser();

    assert!(parser.extract_date("saturday", monday()).is_some());
    assert!(parser.extract_date("tomorrow", monday()).is_some());
    assert!(parser.extract_date("2025-01-15", monday()).is_some());
    assert!(parser.extract_date("friday", monday()).is_some());
}

#[test]
fn test_role_extraction() {
    let parser = create_parser();

    assert_eq!(parser.extract_volunteer_roless("i've got snacks"), vec!["snacks".to_string()]);
    assert_eq!(parser.extract_volunteer_roless("livestream for me"), vec!["livestream".to_string()]);
    assert_eq!(parser.extract_volunteer_roless("scoreboard please"), vec!["scoreboard".to_string()]);
}

#[test]
fn test_relative_game_extraction() {
    let parser = create_parser();

    assert_eq!(parser.extract_relative_game("next game"), Some(0));
    assert_eq!(parser.extract_relative_game("game after next"), Some(1));
    assert_eq!(parser.extract_relative_game("two games from now"), Some(1));
}

#[test]
fn test_roles_scan_order() {
    let parser = create_parser();
    assert_eq!(
        parser.extract_volunteer_roless("snacks and livestream"),
        vec!["snacks".to_string(), "livestream".to_string()]
    );
    assert_eq!(
        parser.extract_volunteer_roless("pitch count and stream and food"),
        vec!["snacks".to_string(), "livestream".to_string(), "pitchcount".to_string()]
    );
}

#[test]
fn test_tomorrow_is_day_after() {
    let parser = create_parser();
    let d = parser.extract_date("tomorrow", monday()).unwrap();
    assert_eq!(d, Date { year: 2025, month: 6, day: 3 });
}

#[test]
fn test_explicit_date_forms() {
    let parser = create_parser();
    let expect = Date { year: 2025, month: 1, day: 15 };
    assert_eq!(parser.extract_date("2025-01-15", monday()), Some(expect));
    assert_eq!(parser.extract_date("01/15/2025", monday()), Some(expect));
    assert_eq!(parser.extract_date("01-15-2025", monday()), Some(expect));
    assert_eq!(parser.extract_date("15/01/2025", monday()), Some(expect));
    assert_eq!(parser.extract_date("2025/01/15", monday()), Some(expect));
    assert_eq!(
        parser.extract_date("on 1/15 please", monday()),
        Some(Date { year: 2025, month: 1, day: 15 })
    );
    assert_eq!(parser.extract_date("2025-13-40", monday()), None);
    assert_eq!(parser.extract_date("nothing here", monday()), None);
}

#[test]
fn test_weekday_rolls_forward() {
    let parser = create_parser();
    // From Monday, "saturday" is this week's Saturday...
    assert_eq!(
        parser.extract_date("saturday", monday()),
        Some(Date { year: 2025, month: 6, day: 7 })
    );
    // ... "next saturday" a week later ...
    assert_eq!(
        parser.extract_date("next saturday", monday()),
        Some(Date { year: 2025, month: 6, day: 14 })
    );
    // ... and a Monday query on a Monday rolls to next week.
    assert_eq!(
        parser.extract_date("monday", monday()),
        Some(Date { year: 2025, month: 6, day: 9 })
    );
}

#[test]
fn test_person_name_patterns() {
    let parser = create_parser();
    assert_eq!(parser.extract_person_name("put me down for Alice"), Some("Alice".to_string()));
    assert_eq!(parser.extract_person_name("snacks - Bob Smith"), Some("Bob Smith".to_string()));
    assert_eq!(parser.extract_person_name("Hobbs have snacks"), Some("Hobbs".to_string()));
    assert_eq!(parser.extract_person_name("I've got snacks"), None);
    assert_eq!(parser.extract_person_name("nothing capitalized here"), None);
    // One-character tokens are excluded in every pattern: dropped from a
    // run without ending it, and never a fallback anchor.
    assert_eq!(parser.extract_person_name("for X"), None);
    assert_eq!(parser.extract_person_name("put me down for X Bob"), Some("Bob".to_string()));
}

#[test]
fn test_game_count_and_category() {
    let parser = create_parser();
    assert_eq!(parser.extract_game_count("show me next 3 games"), Some(3));
    assert_eq!(parser.extract_game_count("show me three games"), Some(3));
    assert_eq!(parser.extract_game_count("3 bananas"), None);
    assert_eq!(parser.extract_game_category("where are we playing"), Some("where".to_string()));
    assert_eq!(parser.extract_game_category("game day"), None);
    assert_eq!(parser.extract_relative_time("next game"), Some("next".to_string()));
    assert_eq!(parser.extract_relative_time("upcoming games"), Some("upcoming".to_string()));
    assert_eq!(parser.extract_relative_time("schedule"), None);
}

#[test]
fn test_witty_response_is_nonempty() {
    let parser = create_parser();
    let w = parser.get_witty_response();
    assert!(!w.is_empty());
}

#[test]
fn test_pirates_facts() {
    let provider = TeamFactsProvider::new("Pirates".to_string(), "ğŸ´â€â˜ ï¸".to_string(), true, None);
    let fact = provider.get_fact();
    assert!(!fact.is_empty());
    assert!(fact.contains("Pirates") || fact.contains("âš¾") || fact.contains("ğŸ´â€â˜ ï¸"));
}

#[test]
fn test_disabled_facts() {
    let provider = TeamFactsProvider::new("Pirates".to_string(), "ğŸ´â€â˜ ï¸".to_string(), false, None);
    let fact = provider.get_fact();
    assert_eq!(fact, "ğŸ´â€â˜ ï¸ Let's go team! âš¾");
}

#[test]
fn test_generic_team() {
    let provider = TeamFactsProvider::new("Dragons".to_string(), "ğŸ‰".to_string(), true, None);
    let fact = provider.get_fact();
    assert!(fact.contains("Dragons"));
    assert!(fact.contains("ğŸ‰"));
}

#[test]
fn test_custom_facts_pool() {
    let custom = teambot::facts::CustomTeamFacts {
        team_name: "Pirates".to_string(),
        facts: vec!["fact one".to_string(), "fact two".to_string()],
    };
    let provider =
        TeamFactsProvider::new("Pirates".to_string(), "x".to_string(), true, Some(custom));
    let fact = provider.get_fact();
    assert!(fact == "fact one" || fact == "fact two");
}
