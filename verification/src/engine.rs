//! The engine that a user interface drives.
//!
//! [`TypingApp`] holds the phase, the user's profile, the attempt at the
//! current sentence and the session's totals. The host hands it the typed
//! text, the ticks of its timers and the time of its clock in milliseconds,
//! and reads back what to show. A request that the current phase does not
//! allow changes nothing and is answered with an error.

use vstd::prelude::*;
use crate::bank::SentenceBank;
use crate::metrics::{accuracy_of, instantaneous_accuracy, instantaneous_wpm, wpm_since};
use crate::phase::{is_legal, is_path, successor, AppState, EngineError, PhaseEvent};
use crate::profile::{coerced_duration, name_accepted, UserData};
use crate::progress::{is_complete, ActiveAttempt};
use crate::session::{capped_sum, SessionResult, SessionTotals};

verus! {

/// What the host is told after each update of the typed text.
#[derive(Clone, Copy, Debug, PartialEq, Eq)]
pub struct ProgressReport {
    /// Correct characters in the typed text.
    pub correct_chars: usize,
    /// Length of the typed text.
    pub typed_chars: usize,
    /// Speed of this attempt so far, in words per minute.
    pub wpm: u32,
    /// Accuracy of this attempt so far, in percent.
    pub accuracy: u32,
    /// Whether the typed text ended the attempt.
    pub is_complete: bool,
    /// Whether the session's time had run out.
    pub time_expired: bool,
    /// Milliseconds left of the session.
    pub remaining_time: u64,
}

/// Everything the engine holds besides its sentence bank.
pub struct EngineState {
    /// Where the application stands.
    pub phase: AppState,
    /// The user's settings and records.
    pub profile: UserData,
    /// The attempt at the current sentence.
    pub attempt: ActiveAttempt,
    /// The totals of the current session.
    pub totals: SessionTotals,
    /// The result of the session that ended last.
    pub result: Option<SessionResult>,
}

/// The report on `attempt`, as updated at `now`, in a session with `totals`
/// that lasts `duration` seconds.
pub open spec fn report_for(
    attempt: ActiveAttempt,
    totals: SessionTotals,
    duration: u32,
    now: u64,
) -> ProgressReport {
    ProgressReport {
        correct_chars: attempt.correct_count,
        typed_chars: attempt.typed_count,
        wpm: wpm_since(attempt.typed_count as nat, attempt.start_time, now) as u32,
        accuracy: accuracy_of(attempt.correct_count as nat, attempt.typed_count as nat) as u32,
        is_complete: attempt.typed_count >= attempt.sentence@.len(),
        time_expired: totals.expired_at(duration, now),
        remaining_time: totals.remaining_at(duration, now) as u64,
    }
}

/// Whether `answer` declines a request that the phase does not allow.
pub open spec fn refused<T>(answer: Result<T, EngineError>) -> bool {
    answer == Err::<T, EngineError>(EngineError::IllegalTransition)
}

impl EngineState {
    /// Attempt, totals and phase are each well-formed.
    pub open spec fn parts_wf(&self) -> bool {
        &&& self.attempt.wf()
        &&& self.totals.wf()
        &&& self.phase.wf()
    }

    /// The parts are well-formed; while a session runs, its clock has
    /// started and the attempt is not closed; and once time is up there is
    /// a result.
    pub open spec fn wf(&self) -> bool {
        &&& self.parts_wf()
        &&& self.phase == AppState::Playing ==> self.totals.session_start is Some
            && self.attempt.end_time is None
        &&& self.phase == AppState::TimesUp || self.phase == AppState::Results
            ==> self.result is Some
    }

    /// The state in phase `phase`, all else the same.
    pub open spec fn in_phase(self, phase: AppState) -> EngineState {
        EngineState { phase, ..self }
    }

    /// The state with the attempt `attempt`, all else the same.
    pub open spec fn with_attempt(self, attempt: ActiveAttempt) -> EngineState {
        EngineState { attempt, ..self }
    }

    /// The state with the profile `profile`, all else the same.
    pub open spec fn with_profile(self, profile: UserData) -> EngineState {
        EngineState { profile, ..self }
    }

    /// Whether the session's time has run out at `now`.
    pub open spec fn expired_at(&self, now: u64) -> bool {
        self.totals.expired_at(self.profile.duration, now)
    }

    /// The state with the attempt closed at `now` and folded into the
    /// totals.
    pub open spec fn folded_at(self, now: u64) -> EngineState {
        let attempt = self.attempt.finalized(now);
        EngineState { attempt, totals: self.totals.folded(attempt), ..self }
    }

    /// The state when time is up at `now`: the attempt is closed and folded
    /// into the totals, the result is drawn from them and credited to the
    /// profile.
    pub open spec fn closed_at(self, now: u64) -> EngineState {
        let folded = self.folded_at(now);
        let result = folded.totals.result_at(now);
        EngineState {
            phase: AppState::TimesUp,
            profile: self.profile.credited(result),
            result: Some(result),
            ..folded
        }
    }

    /// Whether `after` is this state with a new, untouched attempt at one
    /// of the sentences that `bank` offers for the profile's language.
    pub open spec fn renewed_as(&self, after: EngineState, bank: SentenceBank) -> bool {
        &&& after.attempt.is_fresh()
        &&& bank.candidates(self.profile.language@).contains(after.attempt.sentence@)
        &&& after == self.with_attempt(after.attempt)
    }

    /// Whether `after` is this state at the start of a session at `now`:
    /// playing, with cleared totals and a new, untouched attempt at one of
    /// the sentences that `bank` offers for the profile's language.
    pub open spec fn begun_as(&self, after: EngineState, bank: SentenceBank, now: u64) -> bool {
        &&& after.phase == AppState::Playing
        &&& after.totals.is_cleared()
        &&& after.totals.session_start == Some(now)
        &&& after.attempt.is_fresh()
        &&& bank.candidates(self.profile.language@).contains(after.attempt.sentence@)
        &&& after.profile == self.profile
        &&& after.result == self.result
    }
}

/// A typing-practice application, without its screen.
pub struct TypingApp {
    bank: SentenceBank,
    state: EngineState,
}

impl View for TypingApp {
    type V = EngineState;

    closed spec fn view(&self) -> EngineState {
        self.state
    }
}

impl TypingApp {
    /// The sentence bank, which never changes.
    pub closed spec fn bank(&self) -> SentenceBank {
        self.bank
    }

    /// The bank and the state are well-formed.
    pub open spec fn wf(&self) -> bool {
        self.bank().wf() && self@.wf()
    }

    /// The bank and the parts of the state are well-formed: what holds in
    /// the middle of a request too.
    pub open spec fn parts_wf(&self) -> bool {
        self.bank().wf() && self@.parts_wf()
    }

    /// An application that has not been initialized yet, over the sentences
    /// of `bank` and with `profile` as the profile to fall back on.
    pub fn new(bank: SentenceBank, profile: UserData) -> (app: TypingApp)
        requires
            bank.wf(),
        ensures
            app.wf(),
            app.bank() == bank,
            app@.phase == AppState::Loading,
            app@.profile == profile,
            app@.attempt.is_fresh(),
            app@.attempt.sentence@.len() == 0,
            app@.totals.is_cleared(),
            app@.totals.session_start is None,
            app@.result is None,
    {
        TypingApp {
            bank,
            state: EngineState {
                phase: AppState::Loading,
                profile,
                attempt: ActiveAttempt::new(String::new()),
                totals: SessionTotals::new(),
                result: None,
            },
        }
    }

    /// Makes the transition that answers `event`, where there is one.
    fn advance(&mut self, event: PhaseEvent) -> (done: Result<(), EngineError>)
        requires
            old(self).parts_wf(),
        ensures
            final(self).parts_wf(),
            final(self).bank() == old(self).bank(),
            is_path(old(self)@.phase, final(self)@.phase),
            match successor(old(self)@.phase, event) {
                Some(to) => done is Ok && final(self)@ == old(self)@.in_phase(to),
                None => refused(done) && final(self)@ == old(self)@,
            },
    {
        match self.state.phase.after(event) {
            Ok(to) => {
                self.state.phase = to;
                Ok(())
            },
            Err(error) => Err(error),
        }
    }

    /// Makes the transition that answers `event`, which is known to exist.
    fn enter(&mut self, event: PhaseEvent)
        requires
            old(self).parts_wf(),
            successor(old(self)@.phase, event) is Some,
        ensures
            final(self).parts_wf(),
            final(self).bank() == old(self).bank(),
            final(self)@ == old(self)@.in_phase(successor(old(self)@.phase, event)->0),
            is_legal(old(self)@.phase, final(self)@.phase),
    {
        match self.state.phase.after(event) {
            Ok(to) => {
                self.state.phase = to;
            },
            Err(_) => {},
        }
    }

    /// Takes the stored profile, where there is one, and waits for the
    /// user's name. Only an application that is still loading can do so.
    pub fn initialize(&mut self, stored: Option<UserData>) -> (done: Result<(), EngineError>)
        requires
            old(self).wf(),
        ensures
            final(self).wf(),
            final(self).bank() == old(self).bank(),
            is_path(old(self)@.phase, final(self)@.phase),
            if old(self)@.phase == AppState::Loading {
                &&& done is Ok
                &&& final(self)@ == old(self)@.in_phase(AppState::Welcome).with_profile(
                    match stored {
                        Some(profile) => profile,
                        None => old(self)@.profile,
                    },
                )
            } else {
                refused(done) && final(self)@ == old(self)@
            },
    {
        match self.advance(PhaseEvent::Initialize) {
            Ok(()) => {
                match stored {
                    Some(profile) => {
                        self.state.profile = profile;
                    },
                    None => {},
                }
                Ok(())
            },
            Err(error) => Err(error),
        }
    }

    /// Sets the user's name. A name of fewer than two characters is refused
    /// and nothing changes.
    pub fn set_user_name(&mut self, name: &str) -> (accepted: bool)
        requires
            old(self).wf(),
        ensures
            final(self).wf(),
            final(self).bank() == old(self).bank(),
            accepted == name_accepted(name@),
            if accepted {
                &&& final(self)@.profile.name@ == name@
                &&& final(self)@ == old(self)@.with_profile(
                    UserData { name: final(self)@.profile.name, ..old(self)@.profile },
                )
            } else {
                final(self)@ == old(self)@
            },
    {
        self.state.profile.set_name(name)
    }

    /// Sets the language to practise and the name it is shown by. A code
    /// that the sentence bank does not hold is refused and nothing changes.
    pub fn set_language(&mut self, lang_code: &str, lang_name: &str) -> (accepted: bool)
        requires
            old(self).wf(),
        ensures
            final(self).wf(),
            final(self).bank() == old(self).bank(),
            accepted == old(self).bank()@.dom().contains(lang_code@),
            if accepted {
                &&& final(self)@.profile.language@ == lang_code@
                &&& final(self)@.profile.language_name@ == lang_name@
                &&& final(self)@ == old(self)@.with_profile(
                    UserData {
                        language: final(self)@.profile.language,
                        language_name: final(self)@.profile.language_name,
                        ..old(self)@.profile
                    },
                )
            } else {
                final(self)@ == old(self)@
            },
    {
        if self.bank.contains(lang_code) {
            self.state.profile.set_language(lang_code, lang_name);
            true
        } else {
            false
        }
    }

    /// Sets the length of a session in seconds; zero counts as one.
    pub fn set_duration(&mut self, duration: u32)
        requires
            old(self).wf(),
        ensures
            final(self).wf(),
            final(self).bank() == old(self).bank(),
            final(self)@ == old(self)@.with_profile(
                UserData { duration: coerced_duration(duration), ..old(self)@.profile },
            ),
    {
        self.state.profile.set_duration(duration);
    }

    /// Goes on from the name to the choice of language. Without a name the
    /// answer is `NameMissing` and nothing changes.
    pub fn proceed_to_language(&mut self) -> (done: Result<(), EngineError>)
        requires
            old(self).wf(),
        ensures
            final(self).wf(),
            final(self).bank() == old(self).bank(),
            is_path(old(self)@.phase, final(self)@.phase),
            if old(self)@.phase != AppState::Welcome {
                refused(done) && final(self)@ == old(self)@
            } else if old(self)@.profile.name@.len() == 0 {
                &&& done == Err::<(), EngineError>(EngineError::NameMissing)
                &&& final(self)@ == old(self)@
            } else {
                done is Ok && final(self)@ == old(self)@.in_phase(AppState::Language)
            },
    {
        if self.state.phase != AppState::Welcome {
            return Err(EngineError::IllegalTransition);
        }
        if self.state.profile.name.as_str().unicode_len() == 0 {
            return Err(EngineError::NameMissing);
        }
        self.advance(PhaseEvent::ConfirmName)
    }

    /// Goes on from the language to the choice of duration.
    pub fn proceed_to_timer(&mut self) -> (done: Result<(), EngineError>)
        requires
            old(self).wf(),
        ensures
            final(self).wf(),
            final(self).bank() == old(self).bank(),
            is_path(old(self)@.phase, final(self)@.phase),
            if old(self)@.phase == AppState::Language {
                done is Ok && final(self)@ == old(self)@.in_phase(AppState::Timer)
            } else {
                refused(done) && final(self)@ == old(self)@
            },
    {
        self.advance(PhaseEvent::ConfirmLanguage)
    }

    /// Goes on from the duration to the countdown, which shows five.
    pub fn start_countdown(&mut self) -> (done: Result<(), EngineError>)
        requires
            old(self).wf(),
        ensures
            final(self).wf(),
            final(self).bank() == old(self).bank(),
            is_path(old(self)@.phase, final(self)@.phase),
            if old(self)@.phase == AppState::Timer {
                done is Ok && final(self)@ == old(self)@.in_phase(AppState::Countdown(5))
            } else {
                refused(done) && final(self)@ == old(self)@
            },
    {
        self.advance(PhaseEvent::StartCountdown)
    }

    /// Starts a new attempt at `sentence`.
    fn install(&mut self, sentence: String)
        requires
            old(self).parts_wf(),
        ensures
            final(self).parts_wf(),
            final(self).bank() == old(self).bank(),
            final(self)@.attempt.is_fresh(),
            final(self)@.attempt.sentence == sentence,
            final(self)@ == old(self)@.with_attempt(final(self)@.attempt),
    {
        self.state.attempt = ActiveAttempt::new(sentence);
    }

    /// Draws a sentence for the profile's language and starts a new attempt
    /// at it.
    fn draw(&mut self)
        requires
            old(self).parts_wf(),
        ensures
            final(self).parts_wf(),
            final(self).bank() == old(self).bank(),
            old(self)@.renewed_as(final(self)@, old(self).bank()),
    {
        let sentence = self.bank.pick(self.state.profile.language.as_str());
        self.install(sentence);
    }

    /// Begins the session at `now`, from the end of the countdown.
    fn begin(&mut self, now: u64)
        requires
            old(self).parts_wf(),
            old(self)@.phase == AppState::Countdown(0),
        ensures
            final(self).wf(),
            final(self).bank() == old(self).bank(),
            is_legal(old(self)@.phase, final(self)@.phase),
            old(self)@.begun_as(final(self)@, old(self).bank(), now),
    {
        self.enter(PhaseEvent::StartSession);
        self.state.totals = SessionTotals::begin(now);
        self.draw();
    }

    /// One tick of the countdown: the count goes down by one and is
    /// returned. With the tick that brings it to zero the session begins at
    /// `now`, as by [`TypingApp::start_game_session`]. Outside a countdown,
    /// and at zero, nothing changes.
    pub fn countdown_tick(&mut self, now: u64) -> (shown: Result<u32, EngineError>)
        requires
            old(self).wf(),
        ensures
            final(self).wf(),
            final(self).bank() == old(self).bank(),
            is_path(old(self)@.phase, final(self)@.phase),
            match old(self)@.phase {
                AppState::Countdown(count) => if count > 1 {
                    &&& shown == Ok::<u32, EngineError>((count - 1) as u32)
                    &&& final(self)@ == old(self)@.in_phase(
                        AppState::Countdown((count - 1) as u32),
                    )
                } else if count == 1 {
                    &&& shown == Ok::<u32, EngineError>(0)
                    &&& old(self)@.begun_as(final(self)@, old(self).bank(), now)
                } else {
                    refused(shown) && final(self)@ == old(self)@
                },
                _ => refused(shown) && final(self)@ == old(self)@,
            },
    {
        match self.state.phase {
            AppState::Countdown(count) => {
                if count > 0 {
                    self.enter(PhaseEvent::Tick);
                    if count == 1 {
                        self.begin(now);
                    }
                    Ok(count - 1)
                } else {
                    Err(EngineError::IllegalTransition)
                }
            },
            _ => Err(EngineError::IllegalTransition),
        }
    }

    /// Begins the session at `now`, once the countdown has reached zero: the
    /// totals are cleared, the session's clock starts, and a sentence is
    /// drawn from those of the profile's language.
    pub fn start_game_session(&mut self, now: u64) -> (done: Result<(), EngineError>)
        requires
            old(self).wf(),
        ensures
            final(self).wf(),
            final(self).bank() == old(self).bank(),
            is_path(old(self)@.phase, final(self)@.phase),
            if old(self)@.phase == AppState::Countdown(0) {
                done is Ok && old(self)@.begun_as(final(self)@, old(self).bank(), now)
            } else {
                refused(done) && final(self)@ == old(self)@
            },
    {
        if self.state.phase == AppState::Countdown(0) {
            self.begin(now);
            Ok(())
        } else {
            Err(EngineError::IllegalTransition)
        }
    }

    /// Draws a new sentence for the profile's language and starts a new
    /// attempt at it, while a session runs. Returns the sentence.
    pub fn generate_new_sentence(&mut self) -> (sentence: Result<String, EngineError>)
        requires
            old(self).wf(),
        ensures
            final(self).wf(),
            final(self).bank() == old(self).bank(),
            is_path(old(self)@.phase, final(self)@.phase),
            if old(self)@.phase == AppState::Playing {
                &&& old(self)@.renewed_as(final(self)@, old(self).bank())
                &&& sentence matches Ok(text) && text@ == final(self)@.attempt.sentence@
            } else {
                refused(sentence) && final(self)@ == old(self)@
            },
    {
        if self.state.phase == AppState::Playing {
            self.enter(PhaseEvent::NextSentence);
            self.draw();
            Ok(self.state.attempt.sentence.clone())
        } else {
            Err(EngineError::IllegalTransition)
        }
    }

    /// Starts a new attempt at `sentence`, while a session runs. This is
    /// what follows a draw, with the drawn sentence given.
    pub fn load_sentence(&mut self, sentence: String) -> (done: Result<(), EngineError>)
        requires
            old(self).wf(),
        ensures
            final(self).wf(),
            final(self).bank() == old(self).bank(),
            is_path(old(self)@.phase, final(self)@.phase),
            if old(self)@.phase == AppState::Playing {
                &&& done is Ok
                &&& final(self)@.attempt.is_fresh()
                &&& final(self)@.attempt.sentence == sentence
                &&& final(self)@ == old(self)@.with_attempt(final(self)@.attempt)
            } else {
                refused(done) && final(self)@ == old(self)@
            },
    {
        if self.state.phase == AppState::Playing {
            self.enter(PhaseEvent::NextSentence);
            self.install(sentence);
            Ok(())
        } else {
            Err(EngineError::IllegalTransition)
        }
    }

    /// Starts the attempt's clock at `now`, unless it runs already, while a
    /// session runs.
    pub fn start_typing(&mut self, now: u64) -> (done: Result<(), EngineError>)
        requires
            old(self).wf(),
        ensures
            final(self).wf(),
            final(self).bank() == old(self).bank(),
            is_path(old(self)@.phase, final(self)@.phase),
            if old(self)@.phase == AppState::Playing {
                &&& done is Ok
                &&& final(self)@ == old(self)@.with_attempt(old(self)@.attempt.started(now))
            } else {
                refused(done) && final(self)@ == old(self)@
            },
    {
        if self.state.phase == AppState::Playing {
            self.state.attempt.start(now);
            Ok(())
        } else {
            Err(EngineError::IllegalTransition)
        }
    }

    /// Closes the attempt at `now` and folds it into the totals.
    fn fold_attempt(&mut self, now: u64)
        requires
            old(self).parts_wf(),
        ensures
            final(self).parts_wf(),
            final(self).bank() == old(self).bank(),
            final(self)@ == old(self)@.folded_at(now),
            final(self)@.totals.extends(old(self)@.totals),
    {
        self.state.attempt.finalize(now);
        self.state.totals = self.state.totals.fold(&self.state.attempt);
    }

    /// Ends the running session at `now` and returns its result.
    fn close(&mut self, now: u64) -> (result: SessionResult)
        requires
            old(self).parts_wf(),
            old(self)@.phase == AppState::Playing,
        ensures
            final(self).wf(),
            final(self).bank() == old(self).bank(),
            is_legal(old(self)@.phase, final(self)@.phase),
            final(self)@ == old(self)@.closed_at(now),
            final(self)@.result == Some(result),
            final(self)@.totals.extends(old(self)@.totals),
    {
        self.fold_attempt(now);
        let result = self.state.totals.finalize(now);
        self.state.profile.credit(&result);
        self.state.result = Some(result);
        self.enter(PhaseEvent::TimeUp);
        result
    }

    /// Takes the whole typed text as it stands at `now`, while a session
    /// runs, and reports on it.
    ///
    /// The attempt is updated first, and the report speaks of the attempt as
    /// updated. Then, where the session's time has run out, the attempt is
    /// closed and folded into the totals, the session ends and its result
    /// shows. Otherwise, where the text completes the sentence, the attempt
    /// is closed and folded and a new sentence is drawn. Either way the
    /// sentence counts as completed only where the text is the sentence
    /// itself.
    pub fn update_typing_progress(&mut self, typed_text: &str, now: u64) -> (report: Result<
        ProgressReport,
        EngineError,
    >)
        requires
            old(self).wf(),
        ensures
            final(self).wf(),
            final(self).bank() == old(self).bank(),
            is_path(old(self)@.phase, final(self)@.phase),
            final(self)@.totals.extends(old(self)@.totals),
            if old(self)@.phase == AppState::Playing {
                let typed = old(self)@.with_attempt(old(self)@.attempt.updated(typed_text@, now));
                let complete = is_complete(typed_text@, old(self)@.attempt.sentence@);
                let expired = old(self)@.expired_at(now);
                &&& report == Ok::<ProgressReport, EngineError>(
                    report_for(typed.attempt, typed.totals, typed.profile.duration, now),
                )
                &&& expired ==> final(self)@ == typed.closed_at(now).in_phase(AppState::Results)
                &&& !expired && complete ==> typed.folded_at(now).renewed_as(
                    final(self)@,
                    old(self).bank(),
                )
                &&& !expired && !complete ==> final(self)@ == typed
                &&& expired || complete ==> final(self)@.totals.sentences_completed == capped_sum(
                    old(self)@.totals.sentences_completed,
                    if typed_text@ == old(self)@.attempt.sentence@ {
                        1nat
                    } else {
                        0nat
                    },
                )
            } else {
                refused(report) && final(self)@ == old(self)@
            },
    {
        if self.state.phase != AppState::Playing {
            return Err(EngineError::IllegalTransition);
        }
        let outcome = self.state.attempt.update(typed_text, now);
        let duration = self.state.profile.duration;
        let expired = self.state.totals.is_time_expired(duration, now);
        let report = ProgressReport {
            correct_chars: outcome.correct_count,
            typed_chars: outcome.typed_count,
            wpm: instantaneous_wpm(outcome.typed_count, self.state.attempt.start_time, now),
            accuracy: instantaneous_accuracy(outcome.correct_count, outcome.typed_count),
            is_complete: outcome.is_complete,
            time_expired: expired,
            remaining_time: self.state.totals.remaining_time(duration, now),
        };
        if expired {
            let _ = self.close(now);
            self.enter(PhaseEvent::ShowResults);
        } else if outcome.is_complete {
            self.fold_attempt(now);
            self.enter(PhaseEvent::NextSentence);
            self.draw();
        }
        Ok(report)
    }

    /// Ends the session at `now`, once its time has run out: the attempt is
    /// closed and folded into the totals as it stands, the result is drawn
    /// and credited to the profile, and the phase is `TimesUp`. Returns the
    /// result. While time is left, or outside a session, nothing changes.
    pub fn end_session(&mut self, now: u64) -> (result: Result<SessionResult, EngineError>)
        requires
            old(self).wf(),
        ensures
            final(self).wf(),
            final(self).bank() == old(self).bank(),
            is_path(old(self)@.phase, final(self)@.phase),
            final(self)@.totals.extends(old(self)@.totals),
            if old(self)@.phase == AppState::Playing && old(self)@.expired_at(now) {
                &&& final(self)@ == old(self)@.closed_at(now)
                &&& result == Ok::<SessionResult, EngineError>(
                    old(self)@.closed_at(now).result->0,
                )
            } else {
                refused(result) && final(self)@ == old(self)@
            },
    {
        if self.state.phase == AppState::Playing && self.state.totals.is_time_expired(
            self.state.profile.duration,
            now,
        ) {
            Ok(self.close(now))
        } else {
            Err(EngineError::IllegalTransition)
        }
    }

    /// Goes on from the end of the session to its result.
    pub fn show_results(&mut self) -> (done: Result<(), EngineError>)
        requires
            old(self).wf(),
        ensures
            final(self).wf(),
            final(self).bank() == old(self).bank(),
            is_path(old(self)@.phase, final(self)@.phase),
            if old(self)@.phase == AppState::TimesUp {
                done is Ok && final(self)@ == old(self)@.in_phase(AppState::Results)
            } else {
                refused(done) && final(self)@ == old(self)@
            },
    {
        self.advance(PhaseEvent::ShowResults)
    }

    /// Goes from the result to a new countdown, with the same settings.
    pub fn restart_game(&mut self) -> (done: Result<(), EngineError>)
        requires
            old(self).wf(),
        ensures
            final(self).wf(),
            final(self).bank() == old(self).bank(),
            is_path(old(self)@.phase, final(self)@.phase),
            if old(self)@.phase == AppState::Results {
                done is Ok && final(self)@ == old(self)@.in_phase(AppState::Countdown(5))
            } else {
                refused(done) && final(self)@ == old(self)@
            },
    {
        self.advance(PhaseEvent::Restart)
    }

    /// Goes from the result back to the choice of language.
    pub fn change_settings(&mut self) -> (done: Result<(), EngineError>)
        requires
            old(self).wf(),
        ensures
            final(self).wf(),
            final(self).bank() == old(self).bank(),
            is_path(old(self)@.phase, final(self)@.phase),
            if old(self)@.phase == AppState::Results {
                done is Ok && final(self)@ == old(self)@.in_phase(AppState::Language)
            } else {
                refused(done) && final(self)@ == old(self)@
            },
    {
        self.advance(PhaseEvent::ChangeSettings)
    }

    /// Goes from the result back to the very beginning.
    pub fn new_session(&mut self) -> (done: Result<(), EngineError>)
        requires
            old(self).wf(),
        ensures
            final(self).wf(),
            final(self).bank() == old(self).bank(),
            is_path(old(self)@.phase, final(self)@.phase),
            if old(self)@.phase == AppState::Results {
                done is Ok && final(self)@ == old(self)@.in_phase(AppState::Loading)
            } else {
                refused(done) && final(self)@ == old(self)@
            },
    {
        self.advance(PhaseEvent::NewSession)
    }

    /// Where the application stands.
    pub fn app_state(&self) -> (phase: AppState)
        ensures
            phase == self@.phase,
    {
        self.state.phase
    }

    /// The user's settings and records.
    pub fn user_data(&self) -> (profile: &UserData)
        ensures
            *profile == self@.profile,
    {
        &self.state.profile
    }

    /// The attempt at the current sentence.
    pub fn attempt(&self) -> (attempt: &ActiveAttempt)
        ensures
            *attempt == self@.attempt,
    {
        &self.state.attempt
    }

    /// The totals of the current session.
    pub fn totals(&self) -> (totals: SessionTotals)
        ensures
            totals == self@.totals,
    {
        self.state.totals
    }

    /// The result of the session that ended last.
    pub fn session_result(&self) -> (result: Option<SessionResult>)
        ensures
            result == self@.result,
    {
        self.state.result
    }

    /// The sentences that the application draws from.
    pub fn sentence_bank(&self) -> (bank: &SentenceBank)
        ensures
            *bank == self.bank(),
    {
        &self.bank
    }

    /// The user's name.
    pub fn user_name(&self) -> (name: String)
        ensures
            name@ == self@.profile.name@,
    {
        self.state.profile.name.clone()
    }

    /// The code of the language to practise.
    pub fn current_language(&self) -> (code: String)
        ensures
            code@ == self@.profile.language@,
    {
        self.state.profile.language.clone()
    }

    /// The sentence of the current attempt.
    pub fn current_sentence(&self) -> (sentence: String)
        ensures
            sentence@ == self@.attempt.sentence@,
    {
        self.state.attempt.sentence.clone()
    }

    /// A line that shows the engine is reachable, with the current sentence.
    pub fn test_connection(&self) -> (line: String)
        ensures
            line@ == "Rust is working! Current sentence: "@ + self@.attempt.sentence@,
    {
        String::from_str("Rust is working! Current sentence: ").concat(
            self.state.attempt.sentence.as_str(),
        )
    }

    /// Words per minute over the session so far, as of `now`.
    pub fn session_wpm(&self, now: u64) -> (wpm: u32)
        ensures
            wpm == self@.totals.wpm_at(now),
            wpm <= 300,
    {
        self.state.totals.session_wpm(now)
    }

    /// Accuracy over the session so far, in percent.
    pub fn session_accuracy(&self) -> (accuracy: u32)
        ensures
            accuracy == self@.totals.accuracy(),
            accuracy <= 100,
    {
        self.state.totals.session_accuracy()
    }

    /// Milliseconds left of the session at `now`; the whole duration before
    /// a session has begun.
    pub fn remaining_time(&self, now: u64) -> (ms: u64)
        ensures
            ms == self@.totals.remaining_at(self@.profile.duration, now),
    {
        self.state.totals.remaining_time(self.state.profile.duration, now)
    }

    /// Whether the session's time has run out at `now`.
    pub fn is_time_expired(&self, now: u64) -> (expired: bool)
        ensures
            expired == self@.expired_at(now),
    {
        self.state.totals.is_time_expired(self.state.profile.duration, now)
    }
}

} // verus!
