//! Progress of one attempt at one sentence.
//!
//! Lengths and positions count characters. A position is correct where the
//! typed text and the sentence hold the same character there; what is typed
//! past the end of the sentence is never correct. An attempt is complete as
//! soon as the typed text is at least as long as the sentence, whatever it
//! holds.

use vstd::prelude::*;
use vstd::set_lib::*;

verus! {

/// The positions below `n` at which `typed` and `target` both have a
/// character and the two are equal.
pub open spec fn matching_below(typed: Seq<char>, target: Seq<char>, n: int) -> Set<int> {
    Set::new(|i: int| 0 <= i < n && i < typed.len() && i < target.len() && typed[i] == target[i])
}

/// All positions at which `typed` agrees with `target`.
pub open spec fn matching_positions(typed: Seq<char>, target: Seq<char>) -> Set<int> {
    matching_below(typed, target, typed.len() as int)
}

/// How many characters of `typed` are correct against `target`.
pub open spec fn correct_count(typed: Seq<char>, target: Seq<char>) -> nat {
    matching_positions(typed, target).len()
}

/// Whether `typed` ends the attempt at `target`: a test on lengths alone.
pub open spec fn is_complete(typed: Seq<char>, target: Seq<char>) -> bool {
    typed.len() >= target.len()
}

/// The matching positions below `n` are finitely many, at most `n`, at most
/// the length of either text, and grow by position `n` exactly when the two
/// texts agree there.
pub proof fn lemma_matching_below(typed: Seq<char>, target: Seq<char>, n: int)
    requires
        0 <= n,
    ensures
        matching_below(typed, target, n).finite(),
        matching_below(typed, target, n).len() <= n,
        matching_below(typed, target, n).len() <= typed.len(),
        matching_below(typed, target, n).len() <= target.len(),
        matching_below(typed, target, n + 1) =~= (if n < typed.len() && n < target.len()
            && typed[n] == target[n] {
            matching_below(typed, target, n).insert(n)
        } else {
            matching_below(typed, target, n)
        }),
        !matching_below(typed, target, n).contains(n),
{
    let bound = if n <= typed.len() {
        if n <= target.len() {
            n
        } else {
            target.len() as int
        }
    } else if typed.len() <= target.len() {
        typed.len() as int
    } else {
        target.len() as int
    };
    lemma_int_range(0, bound);
    assert(matching_below(typed, target, n).subset_of(set_int_range(0, bound)));
    lemma_len_subset(matching_below(typed, target, n), set_int_range(0, bound));
}

/// No more characters are correct than were typed, nor than the sentence has.
pub proof fn lemma_correct_count_bounded(typed: Seq<char>, target: Seq<char>)
    ensures
        correct_count(typed, target) <= typed.len(),
        correct_count(typed, target) <= target.len(),
{
    lemma_matching_below(typed, target, typed.len() as int);
}

/// Every character is correct and the lengths agree exactly when the typed
/// text is the sentence.
pub proof fn lemma_all_correct_iff_equal(typed: Seq<char>, target: Seq<char>)
    ensures
        (typed.len() == target.len() && correct_count(typed, target) == target.len()) <==> typed
            == target,
{
    let n = typed.len() as int;
    let found = matching_positions(typed, target);
    lemma_matching_below(typed, target, n);
    lemma_int_range(0, n);
    if typed == target {
        assert(found =~= set_int_range(0, n));
    }
    if typed.len() == target.len() && correct_count(typed, target) == target.len() {
        assert(found.subset_of(set_int_range(0, n)));
        lemma_subset_equality(found, set_int_range(0, n));
        assert forall|i: int| 0 <= i < n implies typed[i] == target[i] by {
            assert(set_int_range(0, n).contains(i));
            assert(found.contains(i));
        }
        assert(typed =~= target);
    }
}

/// Completion looks at lengths only: two typed texts of one length are both
/// complete or both not, whatever characters they hold.
pub proof fn lemma_completion_ignores_content(
    first: Seq<char>,
    second: Seq<char>,
    target: Seq<char>,
)
    requires
        first.len() == second.len(),
    ensures
        is_complete(first, target) == is_complete(second, target),
        is_complete(first, target) == (first.len() >= target.len()),
{
}

/// Counts the characters of `typed_text` that are correct against `target`.
pub fn count_correct(typed_text: &str, target: &str) -> (count: usize)
    ensures
        count == correct_count(typed_text@, target@),
        count <= typed_text@.len(),
        count <= target@.len(),
{
    let typed_len = typed_text.unicode_len();
    let target_len = target.unicode_len();
    let limit = if typed_len <= target_len {
        typed_len
    } else {
        target_len
    };
    let mut count: usize = 0;
    let mut i: usize = 0;
    proof {
        lemma_matching_below(typed_text@, target@, 0);
        assert(matching_below(typed_text@, target@, 0) =~= Set::<int>::empty());
    }
    while i < limit
        invariant
            i <= limit,
            limit <= typed_text@.len(),
            limit <= target@.len(),
            limit == typed_text@.len() || limit == target@.len(),
            count == matching_below(typed_text@, target@, i as int).len(),
            count <= i,
        decreases limit - i,
    {
        proof {
            lemma_matching_below(typed_text@, target@, i as int);
        }
        if typed_text.get_char(i) == target.get_char(i) {
            count = count + 1;
        }
        i = i + 1;
    }
    proof {
        lemma_matching_below(typed_text@, target@, limit as int);
        assert(matching_below(typed_text@, target@, limit as int) =~= matching_positions(
            typed_text@,
            target@,
        ));
    }
    count
}

/// What one update of the typed text found.
#[derive(Clone, Copy, Debug, PartialEq, Eq)]
pub struct UpdateOutcome {
    /// Characters of the typed text that agree with the sentence.
    pub correct_count: usize,
    /// Length of the typed text.
    pub typed_count: usize,
    /// Whether the typed text is at least as long as the sentence.
    pub is_complete: bool,
}

/// The state of the attempt at the current sentence.
#[derive(Clone, Debug, PartialEq, Eq)]
pub struct ActiveAttempt {
    /// The sentence to type.
    pub sentence: String,
    /// When the first text was submitted, in milliseconds.
    pub start_time: Option<u64>,
    /// When the attempt was closed, in milliseconds.
    pub end_time: Option<u64>,
    /// Length of the text submitted last.
    pub typed_count: usize,
    /// Correct characters in the text submitted last.
    pub correct_count: usize,
    /// Whether the attempt has begun and is not closed yet.
    pub active: bool,
}

/// The outcome that `attempt` shows after an update.
pub open spec fn outcome_of(attempt: ActiveAttempt) -> UpdateOutcome {
    UpdateOutcome {
        correct_count: attempt.correct_count,
        typed_count: attempt.typed_count,
        is_complete: attempt.typed_count >= attempt.sentence@.len(),
    }
}

impl ActiveAttempt {
    /// No more correct than typed, no more correct than the sentence is long,
    /// and active only between its first text and its closing.
    pub open spec fn wf(&self) -> bool {
        &&& self.correct_count <= self.typed_count
        &&& self.correct_count <= self.sentence@.len()
        &&& self.active ==> self.start_time is Some && self.end_time is None
    }

    /// An attempt on which nothing has happened yet.
    pub open spec fn is_fresh(&self) -> bool {
        &&& self.start_time is None
        &&& self.end_time is None
        &&& self.typed_count == 0
        &&& self.correct_count == 0
        &&& !self.active
    }

    /// The attempt after a request to start its clock at `now`: the start
    /// time is set where there was none and stays where there was one, and
    /// the attempt is active unless it is closed.
    pub open spec fn started(self, now: u64) -> ActiveAttempt {
        ActiveAttempt {
            start_time: if self.start_time is None {
                Some(now)
            } else {
                self.start_time
            },
            active: self.end_time is None,
            ..self
        }
    }

    /// The attempt after `typed` was submitted at `now`: the clock starts if
    /// it had not, and both counts are those of `typed` alone.
    pub open spec fn updated(self, typed: Seq<char>, now: u64) -> ActiveAttempt {
        ActiveAttempt {
            typed_count: typed.len() as usize,
            correct_count: correct_count(typed, self.sentence@) as usize,
            ..self.started(now)
        }
    }

    /// The attempt closed at `now`.
    pub open spec fn finalized(self, now: u64) -> ActiveAttempt {
        ActiveAttempt { end_time: Some(now), active: false, ..self }
    }

    /// Whether the text submitted last was the sentence itself: as long as
    /// the sentence, and correct throughout.
    pub open spec fn is_exact(&self) -> bool {
        self.typed_count == self.sentence@.len() && self.correct_count == self.typed_count
    }

    /// Milliseconds between start and end, zero unless both are set.
    pub open spec fn active_ms(&self) -> nat {
        match (self.start_time, self.end_time) {
            (Some(start), Some(end)) => crate::metrics::elapsed_ms(start, end),
            _ => 0,
        }
    }

    /// A fresh attempt at `sentence`.
    pub fn new(sentence: String) -> (attempt: ActiveAttempt)
        ensures
            attempt.sentence == sentence,
            attempt.is_fresh(),
            attempt.wf(),
    {
        ActiveAttempt {
            sentence,
            start_time: None,
            end_time: None,
            typed_count: 0,
            correct_count: 0,
            active: false,
        }
    }

    /// Starts the clock at `now`, unless it has been started before.
    pub fn start(&mut self, now: u64)
        ensures
            *final(self) == old(self).started(now),
            final(self).start_time is Some,
            old(self).start_time is Some ==> final(self).start_time == old(self).start_time,
            old(self).wf() ==> final(self).wf(),
    {
        if self.start_time.is_none() {
            self.start_time = Some(now);
        }
        self.active = self.end_time.is_none();
    }

    /// Takes the whole typed text as it stands at `now`.
    pub fn update(&mut self, typed_text: &str, now: u64) -> (outcome: UpdateOutcome)
        ensures
            *final(self) == old(self).updated(typed_text@, now),
            outcome == outcome_of(*final(self)),
            outcome.typed_count == typed_text@.len(),
            outcome.correct_count == correct_count(typed_text@, old(self).sentence@),
            outcome.is_complete == is_complete(typed_text@, old(self).sentence@),
            outcome.correct_count <= outcome.typed_count,
            outcome.correct_count <= old(self).sentence@.len(),
            final(self).is_exact() <==> typed_text@ == old(self).sentence@,
            old(self).start_time is Some ==> final(self).start_time == old(self).start_time,
            old(self).start_time is None ==> final(self).start_time == Some(now),
            final(self).wf(),
    {
        self.start(now);
        let typed_count = typed_text.unicode_len();
        let correct = count_correct(typed_text, self.sentence.as_str());
        let target_len = self.sentence.as_str().unicode_len();
        self.typed_count = typed_count;
        self.correct_count = correct;
        proof {
            lemma_all_correct_iff_equal(typed_text@, old(self).sentence@);
        }
        UpdateOutcome {
            correct_count: correct,
            typed_count,
            is_complete: typed_count >= target_len,
        }
    }

    /// Closes the attempt at `now`, on completion or when time is up.
    pub fn finalize(&mut self, now: u64)
        ensures
            *final(self) == old(self).finalized(now),
            old(self).wf() ==> final(self).wf(),
    {
        self.end_time = Some(now);
        self.active = false;
    }

    /// Whether the text submitted last was the sentence itself.
    pub fn exact(&self) -> (exact: bool)
        ensures
            exact == self.is_exact(),
    {
        self.typed_count == self.sentence.as_str().unicode_len() && self.correct_count
            == self.typed_count
    }

    /// Milliseconds between start and end, zero unless both are set.
    pub fn active_time(&self) -> (ms: u64)
        ensures
            ms == self.active_ms(),
    {
        match (self.start_time, self.end_time) {
            (Some(start), Some(end)) => crate::metrics::elapsed_between(start, end),
            _ => 0,
        }
    }
}

} // verus!
