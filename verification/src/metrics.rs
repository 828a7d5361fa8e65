//! Speed and accuracy figures, as whole numbers.
//!
//! A word is five typed characters. Speed is the floor of words per minute,
//! capped at [`MAX_WPM`]; accuracy is the floor of the percentage of typed
//! characters that were correct.

use vstd::prelude::*;

verus! {

/// Upper bound of every reported speed.
pub const MAX_WPM: u32 = 300;

/// Below this many elapsed milliseconds a speed is reported as zero.
pub const MIN_ELAPSED_MS: u64 = 1000;

/// Milliseconds from `start` to `end`, zero where `end` lies before `start`.
pub open spec fn elapsed_ms(start: u64, end: u64) -> nat {
    if end >= start {
        (end - start) as nat
    } else {
        0
    }
}

/// Words per minute for `typed` characters in `elapsed` milliseconds:
/// zero with nothing typed or under a second elapsed, else the floor of
/// `(typed / 5) / (elapsed / 60000)`, capped at 300.
pub open spec fn wpm_of(typed: nat, elapsed: nat) -> nat {
    if typed == 0 || elapsed < MIN_ELAPSED_MS {
        0
    } else {
        let raw = (typed * 60000) / (5 * elapsed);
        if raw >= MAX_WPM {
            MAX_WPM as nat
        } else {
            raw as nat
        }
    }
}

/// Words per minute of an attempt with `typed` characters that started at
/// `start` and is looked at, or ended, at `end`: zero for an attempt that
/// has not started.
pub open spec fn wpm_since(typed: nat, start: Option<u64>, end: u64) -> nat {
    match start {
        Some(start) => wpm_of(typed, elapsed_ms(start, end)),
        None => 0,
    }
}

/// Percentage of `typed` characters that were `correct`: 100 with nothing
/// typed, 0 for the impossible `correct > typed`, else the floor of
/// `correct / typed * 100`.
pub open spec fn accuracy_of(correct: nat, typed: nat) -> nat {
    if typed == 0 {
        100
    } else if correct > typed {
        0
    } else {
        (correct * 100) / typed
    }
}

/// Every speed lies in `0..=300`, and is zero under one second elapsed.
pub proof fn lemma_wpm_bounds(typed: nat, elapsed: nat)
    ensures
        wpm_of(typed, elapsed) <= 300,
        elapsed < 1000 ==> wpm_of(typed, elapsed) == 0,
        typed == 0 ==> wpm_of(typed, elapsed) == 0,
{
}

/// The speed of an attempt lies in `0..=300`, and is zero before the attempt
/// has started, with nothing typed, and under one second since its start.
pub proof fn lemma_attempt_wpm_bounds(typed: nat, start: Option<u64>, end: u64)
    ensures
        wpm_since(typed, start, end) <= 300,
        start is None ==> wpm_since(typed, start, end) == 0,
        typed == 0 ==> wpm_since(typed, start, end) == 0,
        start matches Some(begun) ==> (elapsed_ms(begun, end) < 1000 ==> wpm_since(
            typed,
            start,
            end,
        ) == 0),
{
}

/// Below the cap, the speed is the floor of the exact quotient: it is the
/// one whole number `w` with `w * (5 * elapsed) <= typed * 60000 < (w + 1) * (5 * elapsed)`.
pub proof fn lemma_wpm_is_floor(typed: nat, elapsed: nat)
    requires
        typed > 0,
        elapsed >= 1000,
    ensures
        wpm_of(typed, elapsed) < 300 ==> wpm_of(typed, elapsed) * (5 * elapsed) <= typed * 60000
            < (wpm_of(typed, elapsed) + 1) * (5 * elapsed),
        wpm_of(typed, elapsed) == 300 <==> typed * 60000 >= 300 * (5 * elapsed),
{
    let n = (typed * 60000) as int;
    let d = (5 * elapsed) as int;
    assert(n / d * d <= n < (n / d + 1) * d && (n / d >= 300 <==> n >= 300 * d))
        by (nonlinear_arith)
        requires
            d > 0,
            n >= 0,
    ;
}

/// Every accuracy lies in `0..=100`, and is 100 with nothing typed.
pub proof fn lemma_accuracy_bounds(correct: nat, typed: nat)
    ensures
        accuracy_of(correct, typed) <= 100,
        typed == 0 ==> accuracy_of(correct, typed) == 100,
{
    if typed > 0 && correct <= typed {
        assert((correct * 100) / typed <= 100) by (nonlinear_arith)
            requires
                typed > 0,
                correct <= typed,
        ;
    }
}

/// With something typed and `correct <= typed`, the accuracy is the floor of
/// the exact percentage.
pub proof fn lemma_accuracy_is_floor(correct: nat, typed: nat)
    requires
        typed > 0,
        correct <= typed,
    ensures
        accuracy_of(correct, typed) * typed <= correct * 100 < (accuracy_of(correct, typed) + 1)
            * typed,
        accuracy_of(correct, typed) == 100 <==> correct == typed,
{
    let n = (correct * 100) as int;
    let d = typed as int;
    assert(n / d * d <= n < (n / d + 1) * d && (n / d >= 100 <==> n >= 100 * d))
        by (nonlinear_arith)
        requires
            d > 0,
            n >= 0,
    ;
    lemma_accuracy_bounds(correct, typed);
}

/// Milliseconds from `start` to `end`, zero where the clock went backwards.
pub fn elapsed_between(start: u64, end: u64) -> (ms: u64)
    ensures
        ms == elapsed_ms(start, end),
{
    if end >= start {
        end - start
    } else {
        0
    }
}

/// Speed for `typed` characters over `elapsed` milliseconds.
pub fn words_per_minute(typed: u64, elapsed: u64) -> (wpm: u32)
    ensures
        wpm == wpm_of(typed as nat, elapsed as nat),
        wpm <= MAX_WPM,
{
    if typed == 0 || elapsed < MIN_ELAPSED_MS {
        return 0;
    }
    let chars: u128 = typed as u128 * 60000;
    let span: u128 = 5 * elapsed as u128;
    let raw: u128 = chars / span;
    if raw >= MAX_WPM as u128 {
        MAX_WPM
    } else {
        raw as u32
    }
}

/// Speed of the current attempt: zero before the first keystroke (no start
/// time), else the speed for `typed_count` characters between `start_time`
/// and `end_or_now`.
pub fn instantaneous_wpm(typed_count: usize, start_time: Option<u64>, end_or_now: u64) -> (wpm: u32)
    ensures
        wpm == wpm_since(typed_count as nat, start_time, end_or_now),
        wpm <= MAX_WPM,
        typed_count == 0 ==> wpm == 0,
        start_time is None ==> wpm == 0,
        start_time matches Some(start) ==> (elapsed_ms(start, end_or_now) < 1000 ==> wpm == 0),
{
    match start_time {
        Some(start) => words_per_minute(typed_count as u64, elapsed_between(start, end_or_now)),
        None => 0,
    }
}

/// Accuracy for `correct` of `typed` characters.
pub fn percent_correct(correct: u64, typed: u64) -> (accuracy: u32)
    ensures
        accuracy == accuracy_of(correct as nat, typed as nat),
        accuracy <= 100,
        typed == 0 ==> accuracy == 100,
{
    proof {
        lemma_accuracy_bounds(correct as nat, typed as nat);
    }
    if typed == 0 {
        return 100;
    }
    if correct > typed {
        return 0;
    }
    let scaled: u128 = correct as u128 * 100;
    (scaled / typed as u128) as u32
}

/// Accuracy of the current attempt.
pub fn instantaneous_accuracy(correct_count: usize, typed_count: usize) -> (accuracy: u32)
    ensures
        accuracy == accuracy_of(correct_count as nat, typed_count as nat),
        accuracy <= 100,
        typed_count == 0 ==> accuracy == 100,
{
    percent_correct(correct_count as u64, typed_count as u64)
}

} // verus!
