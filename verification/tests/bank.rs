use typing_engine::bank::SentenceBank;

fn list(items: &[&str]) -> Vec<String> {
    items.iter().map(|s| s.to_string()).collect()
}

fn two_languages() -> SentenceBank {
    let mut bank = SentenceBank::new("id".to_string(), list(&["satu", "dua", "tiga"])).unwrap();
    assert!(bank.add_language("en".to_string(), list(&["one", "two"])));
    bank
}

#[test]
fn a_bank_needs_a_sentence() {
    assert!(SentenceBank::new("id".to_string(), Vec::new()).is_none());
    assert!(SentenceBank::new("id".to_string(), list(&["satu"])).is_some());
}

#[test]
fn the_first_language_is_the_default() {
    let bank = two_languages();
    assert_eq!(bank.default_code(), "id");
    assert!(bank.contains("id"));
    assert!(bank.contains("en"));
    assert!(!bank.contains("fr"));
    assert!(!bank.contains(""));
    assert!(!bank.contains("EN"));
}

#[test]
fn sentences_are_kept_in_order() {
    let bank = two_languages();
    assert_eq!(bank.sentence_count("en"), 2);
    assert_eq!(bank.sentence_at("en", 0), Some("one".to_string()));
    assert_eq!(bank.sentence_at("en", 1), Some("two".to_string()));
    assert_eq!(bank.sentence_at("en", 2), None);
    assert_eq!(bank.sentence_count("id"), 3);
    assert_eq!(bank.sentence_at("id", 2), Some("tiga".to_string()));
    assert_eq!(bank.sentence_at("id", usize::MAX), None);
}

#[test]
fn unknown_language_falls_back_to_the_default() {
    let bank = two_languages();
    assert_eq!(bank.sentence_count("xx"), 3);
    assert_eq!(bank.sentence_at("xx", 0), Some("satu".to_string()));
    assert_eq!(bank.sentence_at("xx", 1), Some("dua".to_string()));
    assert_eq!(bank.sentence_at("xx", 2), Some("tiga".to_string()));
    assert_eq!(bank.sentence_at("xx", 3), None);
    for _ in 0..50 {
        let sentence = bank.pick("xx");
        assert!(sentence == "satu" || sentence == "dua" || sentence == "tiga");
    }
}

#[test]
fn a_language_without_sentences_is_refused() {
    let mut bank = two_languages();
    assert!(!bank.add_language("fr".to_string(), Vec::new()));
    assert!(!bank.contains("fr"));
    assert!(!bank.add_language("en".to_string(), Vec::new()));
    assert_eq!(bank.sentence_count("en"), 2);
    assert_eq!(bank.sentence_at("en", 0), Some("one".to_string()));
}

#[test]
fn adding_a_known_language_replaces_its_sentences() {
    let mut bank = two_languages();
    assert!(bank.add_language("en".to_string(), list(&["three"])));
    assert_eq!(bank.sentence_count("en"), 1);
    assert_eq!(bank.sentence_at("en", 0), Some("three".to_string()));
    assert_eq!(bank.sentence_count("id"), 3);
    assert_eq!(bank.default_code(), "id");
    assert!(bank.add_language("id".to_string(), list(&["empat"])));
    assert_eq!(bank.sentence_at("xx", 0), Some("empat".to_string()));
    assert_eq!(bank.default_code(), "id");
}

#[test]
fn pick_draws_from_the_language_asked_for() {
    let bank = two_languages();
    for _ in 0..50 {
        let sentence = bank.pick("en");
        assert!(sentence == "one" || sentence == "two");
    }
    for _ in 0..50 {
        let sentence = bank.pick("id");
        assert!(sentence == "satu" || sentence == "dua" || sentence == "tiga");
    }
}

#[test]
fn pick_reaches_every_sentence() {
    let bank = two_languages();
    let mut seen = [false, false, false];
    for _ in 0..2_000 {
        let sentence = bank.pick("id");
        if sentence == "satu" {
            seen[0] = true;
        } else if sentence == "dua" {
            seen[1] = true;
        } else if sentence == "tiga" {
            seen[2] = true;
        }
    }
    assert_eq!(seen, [true, true, true]);
}

#[test]
fn pick_of_a_single_sentence_is_that_sentence() {
    let bank = SentenceBank::new("id".to_string(), list(&["satu"])).unwrap();
    assert_eq!(bank.pick("id"), "satu");
    assert_eq!(bank.pick("en"), "satu");
}
