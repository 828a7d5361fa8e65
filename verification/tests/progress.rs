use typing_engine::progress::{count_correct, ActiveAttempt, UpdateOutcome};

fn attempt_at(sentence: &str) -> ActiveAttempt {
    ActiveAttempt::new(sentence.to_string())
}

#[test]
fn new_attempt_is_untouched() {
    let attempt = attempt_at("cat");
    assert_eq!(attempt.sentence, "cat");
    assert_eq!(attempt.start_time, None);
    assert_eq!(attempt.end_time, None);
    assert_eq!(attempt.typed_count, 0);
    assert_eq!(attempt.correct_count, 0);
    assert!(!attempt.active);
}

#[test]
fn prefix_of_the_sentence_is_all_correct_and_incomplete() {
    let mut attempt = attempt_at("cat");
    let outcome = attempt.update("ca", 100);
    assert_eq!(outcome, UpdateOutcome { correct_count: 2, typed_count: 2, is_complete: false });
    assert_eq!(attempt.typed_count, 2);
    assert_eq!(attempt.correct_count, 2);
    assert!(!attempt.exact());
}

#[test]
fn wrong_middle_character_completes_without_exact_match() {
    let mut attempt = attempt_at("cat");
    let outcome = attempt.update("cbt", 100);
    assert_eq!(outcome, UpdateOutcome { correct_count: 2, typed_count: 3, is_complete: true });
    assert!(!attempt.exact());
}

#[test]
fn the_sentence_itself_is_an_exact_match() {
    let mut attempt = attempt_at("cat");
    let outcome = attempt.update("cat", 100);
    assert_eq!(outcome, UpdateOutcome { correct_count: 3, typed_count: 3, is_complete: true });
    assert!(attempt.exact());
}

#[test]
fn empty_text_counts_nothing() {
    let mut attempt = attempt_at("cat");
    attempt.update("ca", 100);
    let outcome = attempt.update("", 200);
    assert_eq!(outcome, UpdateOutcome { correct_count: 0, typed_count: 0, is_complete: false });
    assert_eq!(attempt.typed_count, 0);
    assert_eq!(attempt.correct_count, 0);
}

#[test]
fn empty_sentence_is_complete_at_once() {
    let mut attempt = attempt_at("");
    let outcome = attempt.update("", 100);
    assert_eq!(outcome, UpdateOutcome { correct_count: 0, typed_count: 0, is_complete: true });
    assert!(attempt.exact());
}

#[test]
fn characters_past_the_sentence_are_never_correct() {
    let mut attempt = attempt_at("cat");
    let outcome = attempt.update("catcat", 100);
    assert_eq!(outcome, UpdateOutcome { correct_count: 3, typed_count: 6, is_complete: true });
    assert!(!attempt.exact());
    assert_eq!(count_correct("ttttttt", "cat"), 1);
}

#[test]
fn counts_follow_the_last_text_only() {
    let mut attempt = attempt_at("hello");
    assert_eq!(attempt.update("hex", 1).correct_count, 2);
    assert_eq!(attempt.update("he", 2).correct_count, 2);
    assert_eq!(attempt.update("hel", 3).correct_count, 3);
    assert_eq!(attempt.update("x", 4).correct_count, 0);
    assert_eq!(attempt.typed_count, 1);
}

#[test]
fn positions_are_compared_one_by_one() {
    assert_eq!(count_correct("", ""), 0);
    assert_eq!(count_correct("abc", ""), 0);
    assert_eq!(count_correct("", "abc"), 0);
    assert_eq!(count_correct("abc", "abc"), 3);
    assert_eq!(count_correct("abc", "xbc"), 2);
    assert_eq!(count_correct("bca", "abc"), 0);
    assert_eq!(count_correct("a c", "abc"), 2);
    assert_eq!(count_correct("ab", "abc"), 2);
    assert_eq!(count_correct("abcd", "abc"), 3);
}

#[test]
fn lengths_count_characters_not_bytes() {
    let mut attempt = attempt_at("mágico");
    let outcome = attempt.update("mági", 10);
    assert_eq!(outcome, UpdateOutcome { correct_count: 4, typed_count: 4, is_complete: false });
    let outcome = attempt.update("magico", 20);
    assert_eq!(outcome, UpdateOutcome { correct_count: 5, typed_count: 6, is_complete: true });
    let outcome = attempt.update("mágico", 30);
    assert_eq!(outcome, UpdateOutcome { correct_count: 6, typed_count: 6, is_complete: true });
    assert!(attempt.exact());
}

#[test]
fn correct_never_exceeds_either_length() {
    let texts = ["", "a", "ab", "abc", "abcd", "xbcd", "aXc", "abcabcabc", "zzz"];
    for typed in texts {
        for target in texts {
            let correct = count_correct(typed, target);
            let typed_len = typed.chars().count();
            let target_len = target.chars().count();
            assert!(correct <= typed_len.min(target_len));
            let mut attempt = attempt_at(target);
            let outcome = attempt.update(typed, 0);
            assert_eq!(outcome.correct_count, correct);
            assert_eq!(outcome.typed_count, typed_len);
            assert!(attempt.correct_count <= attempt.typed_count);
        }
    }
}

#[test]
fn completion_depends_on_length_alone() {
    let texts = ["", "a", "zz", "cat", "dog", "cbt", "cats", "zzzzzz"];
    for typed in texts {
        let mut attempt = attempt_at("cat");
        let outcome = attempt.update(typed, 0);
        assert_eq!(outcome.is_complete, typed.chars().count() >= 3);
    }
}

#[test]
fn exact_match_means_equal_texts() {
    let texts = ["", "a", "ca", "cat", "cbt", "cats", "tac"];
    for typed in texts {
        for target in texts {
            let mut attempt = attempt_at(target);
            attempt.update(typed, 0);
            assert_eq!(attempt.exact(), typed == target);
        }
    }
}

#[test]
fn clock_starts_with_the_first_update_only() {
    let mut attempt = attempt_at("cat");
    attempt.update("c", 500);
    assert_eq!(attempt.start_time, Some(500));
    assert!(attempt.active);
    attempt.update("ca", 900);
    assert_eq!(attempt.start_time, Some(500));
    attempt.start(1_200);
    assert_eq!(attempt.start_time, Some(500));
}

#[test]
fn start_sets_the_clock_once() {
    let mut attempt = attempt_at("cat");
    attempt.start(40);
    assert_eq!(attempt.start_time, Some(40));
    assert!(attempt.active);
    assert_eq!(attempt.typed_count, 0);
    attempt.start(50);
    assert_eq!(attempt.start_time, Some(40));
}

#[test]
fn finalize_closes_the_attempt() {
    let mut attempt = attempt_at("cat");
    attempt.update("cat", 1_000);
    attempt.finalize(4_000);
    assert_eq!(attempt.end_time, Some(4_000));
    assert!(!attempt.active);
    assert_eq!(attempt.active_time(), 3_000);
    assert_eq!(attempt.typed_count, 3);
    assert_eq!(attempt.correct_count, 3);
}

#[test]
fn closed_attempt_does_not_become_active_again() {
    let mut attempt = attempt_at("cat");
    attempt.finalize(4_000);
    assert_eq!(attempt.start_time, None);
    assert_eq!(attempt.active_time(), 0);
    attempt.start(5_000);
    assert_eq!(attempt.start_time, Some(5_000));
    assert_eq!(attempt.end_time, Some(4_000));
    assert!(!attempt.active);
    assert_eq!(attempt.active_time(), 0);
    let outcome = attempt.update("ca", 6_000);
    assert_eq!(outcome.typed_count, 2);
    assert_eq!(attempt.start_time, Some(5_000));
    assert!(!attempt.active);

    let mut closed = attempt_at("cat");
    closed.update("c", 1_000);
    closed.finalize(2_000);
    closed.update("ca", 3_000);
    assert_eq!(closed.start_time, Some(1_000));
    assert_eq!(closed.end_time, Some(2_000));
    assert!(!closed.active);
    assert_eq!(closed.typed_count, 2);
}

#[test]
fn active_time_is_zero_when_the_clock_went_backwards() {
    let mut attempt = attempt_at("cat");
    attempt.update("c", 9_000);
    attempt.finalize(8_000);
    assert_eq!(attempt.active_time(), 0);
}
