use typing_engine::profile::{
    decimal_string, format_duration, UserData, MIN_DURATION, MIN_NAME_LENGTH,
};
use typing_engine::session::SessionResult;

fn profile() -> UserData {
    UserData {
        name: String::new(),
        language: "id".to_string(),
        language_name: "Bahasa Indonesia".to_string(),
        duration: 120,
        best_wpm: 40,
        best_accuracy: 90,
        total_sessions: 3,
    }
}

fn result(wpm: u32, accuracy: u32) -> SessionResult {
    SessionResult {
        wpm,
        accuracy,
        typed_chars: 10,
        correct_chars: 9,
        time_spent: 1_000,
        sentences_completed: 1,
    }
}

#[test]
fn a_name_needs_two_characters() {
    assert_eq!(MIN_NAME_LENGTH, 2);
    let mut user = profile();
    assert!(!user.set_name(""));
    assert!(!user.set_name("a"));
    assert_eq!(user, profile());
    assert!(user.set_name("al"));
    assert_eq!(user, UserData { name: "al".to_string(), ..profile() });
    assert!(user.set_name("Alexandra"));
    assert_eq!(user.name, "Alexandra");
}

#[test]
fn one_character_of_two_bytes_is_too_short() {
    let mut user = profile();
    assert!(!user.set_name("é"));
    assert_eq!(user.name, "");
    assert!(user.set_name("éa"));
    assert_eq!(user.name, "éa");
}

#[test]
fn a_refused_name_keeps_the_old_one() {
    let mut user = profile();
    assert!(user.set_name("Budi"));
    assert!(!user.set_name("B"));
    assert_eq!(user.name, "Budi");
}

#[test]
fn set_language_changes_code_and_name() {
    let mut user = profile();
    user.set_language("en", "English");
    assert_eq!(
        user,
        UserData { language: "en".to_string(), language_name: "English".to_string(), ..profile() }
    );
}

#[test]
fn duration_is_at_least_one_second() {
    assert_eq!(MIN_DURATION, 1);
    let mut user = profile();
    user.set_duration(0);
    assert_eq!(user, UserData { duration: 1, ..profile() });
    user.set_duration(1);
    assert_eq!(user.duration, 1);
    user.set_duration(300);
    assert_eq!(user.duration, 300);
    user.set_duration(u32::MAX);
    assert_eq!(user.duration, u32::MAX);
}

#[test]
fn credit_raises_records_and_counts_the_session() {
    let mut user = profile();
    user.credit(&result(55, 80));
    assert_eq!(user, UserData { best_wpm: 55, total_sessions: 4, ..profile() });
    user.credit(&result(10, 95));
    assert_eq!(
        user,
        UserData { best_wpm: 55, best_accuracy: 95, total_sessions: 5, ..profile() }
    );
    user.credit(&result(55, 95));
    assert_eq!(
        user,
        UserData { best_wpm: 55, best_accuracy: 95, total_sessions: 6, ..profile() }
    );
}

#[test]
fn session_count_stops_at_the_largest_value() {
    let mut user = UserData { total_sessions: u32::MAX, ..profile() };
    user.credit(&result(0, 0));
    assert_eq!(user, UserData { total_sessions: u32::MAX, ..profile() });
}

#[test]
fn numbers_in_decimal() {
    assert_eq!(decimal_string(0), "0");
    assert_eq!(decimal_string(7), "7");
    assert_eq!(decimal_string(9), "9");
    assert_eq!(decimal_string(10), "10");
    assert_eq!(decimal_string(120), "120");
    assert_eq!(decimal_string(1_000_000), "1000000");
    assert_eq!(decimal_string(4_294_967_295), "4294967295");
    for n in 0..1_000u32 {
        assert_eq!(decimal_string(n), n.to_string());
    }
}

#[test]
fn durations_under_a_minute_read_in_seconds() {
    assert_eq!(format_duration(0), "0 seconds");
    assert_eq!(format_duration(1), "1 seconds");
    assert_eq!(format_duration(45), "45 seconds");
    assert_eq!(format_duration(59), "59 seconds");
}

#[test]
fn durations_from_a_minute_read_in_whole_minutes() {
    assert_eq!(format_duration(60), "1 minute");
    assert_eq!(format_duration(61), "1 minute");
    assert_eq!(format_duration(119), "1 minute");
    assert_eq!(format_duration(120), "2 minutes");
    assert_eq!(format_duration(300), "5 minutes");
    assert_eq!(format_duration(3_600), "60 minutes");
    assert_eq!(format_duration(u32::MAX), "71582788 minutes");
}
