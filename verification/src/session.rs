//! Running totals of a session and the result drawn from them.
//!
//! Times are milliseconds. Every total is a sum that stops at `u64::MAX`
//! instead of wrapping, so a total never goes down within a session.

use vstd::prelude::*;
use crate::metrics::{
    accuracy_of, elapsed_between, elapsed_ms, percent_correct, words_per_minute, wpm_of,
};
use crate::progress::ActiveAttempt;

verus! {

/// `total + amount`, stopping at `u64::MAX`.
pub open spec fn capped_sum(total: u64, amount: nat) -> u64 {
    if total + amount > u64::MAX {
        u64::MAX
    } else {
        (total + amount) as u64
    }
}

/// What a session has accumulated from its closed attempts.
#[derive(Clone, Copy, Debug, PartialEq, Eq)]
pub struct SessionTotals {
    /// Characters typed over all closed attempts.
    pub total_typed_chars: u64,
    /// Correct characters over all closed attempts.
    pub total_correct_chars: u64,
    /// Milliseconds spent inside attempts, pauses between them left out.
    pub total_active_time: u64,
    /// Attempts that ended with the sentence typed exactly.
    pub sentences_completed: u64,
    /// When the session began, in milliseconds.
    pub session_start: Option<u64>,
}

/// The figures of a finished session.
#[derive(Clone, Copy, Debug, PartialEq, Eq)]
pub struct SessionResult {
    /// Words per minute over the session.
    pub wpm: u32,
    /// Percentage of typed characters that were correct.
    pub accuracy: u32,
    /// Characters typed.
    pub typed_chars: u64,
    /// Correct characters.
    pub correct_chars: u64,
    /// Milliseconds spent inside attempts.
    pub time_spent: u64,
    /// Sentences typed exactly.
    pub sentences_completed: u64,
}

impl SessionTotals {
    /// No more correct characters than typed ones.
    pub open spec fn wf(&self) -> bool {
        self.total_correct_chars <= self.total_typed_chars
    }

    /// All four counters are zero.
    pub open spec fn is_cleared(&self) -> bool {
        &&& self.total_typed_chars == 0
        &&& self.total_correct_chars == 0
        &&& self.total_active_time == 0
        &&& self.sentences_completed == 0
    }

    /// Each counter of `self` is at least the one of `earlier`, and the
    /// session is the same.
    pub open spec fn extends(&self, earlier: SessionTotals) -> bool {
        &&& self.total_typed_chars >= earlier.total_typed_chars
        &&& self.total_correct_chars >= earlier.total_correct_chars
        &&& self.total_active_time >= earlier.total_active_time
        &&& self.sentences_completed >= earlier.sentences_completed
        &&& self.session_start == earlier.session_start
    }

    /// The totals with one closed attempt added: its counts always, its time
    /// between start and end where both are set, and one completed sentence
    /// where the sentence was typed exactly.
    pub open spec fn folded(self, attempt: ActiveAttempt) -> SessionTotals {
        SessionTotals {
            total_typed_chars: capped_sum(self.total_typed_chars, attempt.typed_count as nat),
            total_correct_chars: capped_sum(self.total_correct_chars, attempt.correct_count as nat),
            total_active_time: capped_sum(self.total_active_time, attempt.active_ms()),
            sentences_completed: capped_sum(
                self.sentences_completed,
                if attempt.is_exact() {
                    1nat
                } else {
                    0nat
                },
            ),
            session_start: self.session_start,
        }
    }

    /// The totals with `attempts` folded in, first to last.
    pub open spec fn folded_all(self, attempts: Seq<ActiveAttempt>) -> SessionTotals
        decreases attempts.len(),
    {
        if attempts.len() == 0 {
            self
        } else {
            self.folded_all(attempts.drop_last()).folded(attempts.last())
        }
    }

    /// Milliseconds on the wall clock since the session began, zero for a
    /// session that has not.
    pub open spec fn elapsed_at(&self, now: u64) -> nat {
        match self.session_start {
            Some(start) => elapsed_ms(start, now),
            None => 0,
        }
    }

    /// The time that the session's speed is measured over: the active time
    /// where any was recorded, else the time on the wall clock.
    pub open spec fn time_basis(&self, now: u64) -> nat {
        if self.total_active_time > 0 {
            self.total_active_time as nat
        } else {
            self.elapsed_at(now)
        }
    }

    /// Words per minute over the session, as of `now`.
    pub open spec fn wpm_at(&self, now: u64) -> nat {
        wpm_of(self.total_typed_chars as nat, self.time_basis(now))
    }

    /// Accuracy over the session.
    pub open spec fn accuracy(&self) -> nat {
        accuracy_of(self.total_correct_chars as nat, self.total_typed_chars as nat)
    }

    /// Whether a session of `duration` seconds has run out at `now`. One
    /// that has not begun never has.
    pub open spec fn expired_at(&self, duration: u32, now: u64) -> bool {
        self.session_start is Some && self.elapsed_at(now) >= duration * 1000
    }

    /// Milliseconds left of `duration` seconds at `now`.
    pub open spec fn remaining_at(&self, duration: u32, now: u64) -> nat {
        if self.elapsed_at(now) >= duration * 1000 {
            0
        } else {
            (duration * 1000 - self.elapsed_at(now)) as nat
        }
    }

    /// The result that these totals give at `now`.
    pub open spec fn result_at(&self, now: u64) -> SessionResult {
        SessionResult {
            wpm: self.wpm_at(now) as u32,
            accuracy: self.accuracy() as u32,
            typed_chars: self.total_typed_chars,
            correct_chars: self.total_correct_chars,
            time_spent: self.total_active_time,
            sentences_completed: self.sentences_completed,
        }
    }

    /// Totals of a session that has not begun.
    pub fn new() -> (totals: SessionTotals)
        ensures
            totals.is_cleared(),
            totals.session_start is None,
            totals.wf(),
    {
        SessionTotals {
            total_typed_chars: 0,
            total_correct_chars: 0,
            total_active_time: 0,
            sentences_completed: 0,
            session_start: None,
        }
    }

    /// Totals of a session that begins at `now`: every counter is zero.
    pub fn begin(now: u64) -> (totals: SessionTotals)
        ensures
            totals.is_cleared(),
            totals.session_start == Some(now),
            totals.wf(),
    {
        SessionTotals {
            total_typed_chars: 0,
            total_correct_chars: 0,
            total_active_time: 0,
            sentences_completed: 0,
            session_start: Some(now),
        }
    }

    /// Adds one closed attempt to the totals.
    pub fn fold(self, attempt: &ActiveAttempt) -> (totals: SessionTotals)
        ensures
            totals == self.folded(*attempt),
            totals.extends(self),
            self.wf() && attempt.correct_count <= attempt.typed_count ==> totals.wf(),
    {
        let completed: u64 = if attempt.exact() {
            1
        } else {
            0
        };
        SessionTotals {
            total_typed_chars: self.total_typed_chars.saturating_add(attempt.typed_count as u64),
            total_correct_chars: self.total_correct_chars.saturating_add(
                attempt.correct_count as u64,
            ),
            total_active_time: self.total_active_time.saturating_add(attempt.active_time()),
            sentences_completed: self.sentences_completed.saturating_add(completed),
            session_start: self.session_start,
        }
    }

    /// Milliseconds on the wall clock since the session began.
    pub fn elapsed(&self, now: u64) -> (ms: u64)
        ensures
            ms == self.elapsed_at(now),
    {
        match self.session_start {
            Some(start) => elapsed_between(start, now),
            None => 0,
        }
    }

    /// Whether a session of `duration` seconds has run out at `now`.
    pub fn is_time_expired(&self, duration: u32, now: u64) -> (expired: bool)
        ensures
            expired == self.expired_at(duration, now),
    {
        self.session_start.is_some() && self.elapsed(now) >= duration as u64 * 1000
    }

    /// Milliseconds left of `duration` seconds at `now`; the whole duration
    /// before the session has begun.
    pub fn remaining_time(&self, duration: u32, now: u64) -> (ms: u64)
        ensures
            ms == self.remaining_at(duration, now),
            ms <= duration * 1000,
            self.session_start is None ==> ms == duration * 1000,
            (ms == 0 && self.session_start is Some) <==> self.expired_at(duration, now),
    {
        let whole: u64 = duration as u64 * 1000;
        let gone = self.elapsed(now);
        if gone >= whole {
            0
        } else {
            whole - gone
        }
    }

    /// Words per minute over the session as of `now`: zero with nothing
    /// typed or with less than a second to measure over.
    pub fn session_wpm(&self, now: u64) -> (wpm: u32)
        ensures
            wpm == self.wpm_at(now),
            wpm <= 300,
            self.total_typed_chars == 0 ==> wpm == 0,
            self.time_basis(now) < 1000 ==> wpm == 0,
    {
        let basis = if self.total_active_time > 0 {
            self.total_active_time
        } else {
            self.elapsed(now)
        };
        words_per_minute(self.total_typed_chars, basis)
    }

    /// Accuracy over the session: 100 with nothing typed.
    pub fn session_accuracy(&self) -> (accuracy: u32)
        ensures
            accuracy == self.accuracy(),
            accuracy <= 100,
            self.total_typed_chars == 0 ==> accuracy == 100,
    {
        percent_correct(self.total_correct_chars, self.total_typed_chars)
    }

    /// Freezes the totals into the session's result as of `now`.
    pub fn finalize(&self, now: u64) -> (result: SessionResult)
        ensures
            result == self.result_at(now),
            result.wpm <= 300,
            result.accuracy <= 100,
    {
        SessionResult {
            wpm: self.session_wpm(now),
            accuracy: self.session_accuracy(),
            typed_chars: self.total_typed_chars,
            correct_chars: self.total_correct_chars,
            time_spent: self.total_active_time,
            sentences_completed: self.sentences_completed,
        }
    }
}

/// One fold never lowers a total, and keeps correct characters within typed
/// ones where the attempt does.
pub proof fn lemma_fold_extends(totals: SessionTotals, attempt: ActiveAttempt)
    ensures
        totals.folded(attempt).extends(totals),
        totals.wf() && attempt.correct_count <= attempt.typed_count ==> totals.folded(attempt).wf(),
{
}

/// Over any run of folds the totals only grow: what stands after the first
/// `k` attempts is never above what stands after all of them.
pub proof fn lemma_folds_never_decrease(totals: SessionTotals, attempts: Seq<ActiveAttempt>, k: int)
    requires
        0 <= k <= attempts.len(),
    ensures
        totals.folded_all(attempts).extends(totals.folded_all(attempts.take(k))),
    decreases attempts.len(),
{
    if k == attempts.len() {
        assert(attempts.take(k) =~= attempts);
    } else {
        let shorter = attempts.drop_last();
        lemma_folds_never_decrease(totals, shorter, k);
        assert(shorter.take(k) =~= attempts.take(k));
        lemma_fold_extends(totals.folded_all(shorter), attempts.last());
    }
}

/// Folding attempts that each have no more correct characters than typed
/// ones keeps the totals well-formed.
pub proof fn lemma_folds_keep_wf(totals: SessionTotals, attempts: Seq<ActiveAttempt>)
    requires
        totals.wf(),
        forall|i: int| 0 <= i < attempts.len() ==> (#[trigger] attempts[i]).wf(),
    ensures
        totals.folded_all(attempts).wf(),
    decreases attempts.len(),
{
    if attempts.len() > 0 {
        lemma_folds_keep_wf(totals, attempts.drop_last());
        lemma_fold_extends(totals.folded_all(attempts.drop_last()), attempts.last());
    }
}

} // verus!
