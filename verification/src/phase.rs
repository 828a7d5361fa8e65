//! The screen and session lifecycle.
//!
//! A session moves through its phases only along the transitions listed by
//! [`is_legal`]. Each transition is the answer to one [`PhaseEvent`]; an
//! event that the current phase has no answer to leaves the phase as it is
//! and is reported as [`EngineError::IllegalTransition`].

use vstd::prelude::*;

verus! {

/// The count that a countdown starts from.
pub const COUNTDOWN_START: u32 = 5;

/// How many counts have a message of their own: the counts below this one.
pub const MESSAGE_COUNT: u32 = 5;

/// Where the application stands.
#[derive(Clone, Copy, Debug, PartialEq, Eq, Structural)]
pub enum AppState {
    /// Nothing has happened yet; the stored profile has not been read.
    Loading,
    /// Waiting for the user's name.
    Welcome,
    /// Waiting for the choice of language.
    Language,
    /// Waiting for the choice of duration.
    Timer,
    /// Counting down to the session; the number is the count that shows.
    Countdown(u32),
    /// A session runs.
    Playing,
    /// The session's time has run out.
    TimesUp,
    /// The result of the session shows.
    Results,
}

/// What can move the application to another phase.
#[derive(Clone, Copy, Debug, PartialEq, Eq, Structural)]
pub enum PhaseEvent {
    /// The stored profile was read.
    Initialize,
    /// The name stands; go on to the language.
    ConfirmName,
    /// The language stands; go on to the duration.
    ConfirmLanguage,
    /// The duration stands; count down.
    StartCountdown,
    /// One tick of the countdown timer.
    Tick,
    /// The countdown is over; the session begins.
    StartSession,
    /// A sentence was finished with time left; the next one begins.
    NextSentence,
    /// The session's duration has been reached.
    TimeUp,
    /// Show the result.
    ShowResults,
    /// Play again with the same settings.
    Restart,
    /// Go back to the choice of language.
    ChangeSettings,
    /// Go back to the very beginning.
    NewSession,
}

/// Why the engine declined to act.
#[derive(Clone, Copy, Debug, PartialEq, Eq, Structural)]
pub enum EngineError {
    /// The current phase does not allow what was asked.
    IllegalTransition,
    /// No user name has been set.
    NameMissing,
}

/// The transitions that exist. Nothing else ever changes the phase.
pub open spec fn is_legal(from: AppState, to: AppState) -> bool {
    match (from, to) {
        (AppState::Loading, AppState::Welcome) => true,
        (AppState::Welcome, AppState::Language) => true,
        (AppState::Language, AppState::Timer) => true,
        (AppState::Timer, AppState::Countdown(n)) => n == COUNTDOWN_START,
        (AppState::Countdown(n), AppState::Countdown(m)) => n > 0 && m == n - 1,
        (AppState::Countdown(n), AppState::Playing) => n == 0,
        (AppState::Playing, AppState::Playing) => true,
        (AppState::Playing, AppState::TimesUp) => true,
        (AppState::TimesUp, AppState::Results) => true,
        (AppState::Results, AppState::Countdown(n)) => n == COUNTDOWN_START,
        (AppState::Results, AppState::Language) => true,
        (AppState::Results, AppState::Loading) => true,
        _ => false,
    }
}

/// The phase that `event` leads to from `from`, where it leads anywhere.
pub open spec fn successor(from: AppState, event: PhaseEvent) -> Option<AppState> {
    match (from, event) {
        (AppState::Loading, PhaseEvent::Initialize) => Some(AppState::Welcome),
        (AppState::Welcome, PhaseEvent::ConfirmName) => Some(AppState::Language),
        (AppState::Language, PhaseEvent::ConfirmLanguage) => Some(AppState::Timer),
        (AppState::Timer, PhaseEvent::StartCountdown) => Some(AppState::Countdown(COUNTDOWN_START)),
        (AppState::Countdown(n), PhaseEvent::Tick) => if n > 0 {
            Some(AppState::Countdown((n - 1) as u32))
        } else {
            None
        },
        (AppState::Countdown(n), PhaseEvent::StartSession) => if n == 0 {
            Some(AppState::Playing)
        } else {
            None
        },
        (AppState::Playing, PhaseEvent::NextSentence) => Some(AppState::Playing),
        (AppState::Playing, PhaseEvent::TimeUp) => Some(AppState::TimesUp),
        (AppState::TimesUp, PhaseEvent::ShowResults) => Some(AppState::Results),
        (AppState::Results, PhaseEvent::Restart) => Some(AppState::Countdown(COUNTDOWN_START)),
        (AppState::Results, PhaseEvent::ChangeSettings) => Some(AppState::Language),
        (AppState::Results, PhaseEvent::NewSession) => Some(AppState::Loading),
        _ => None,
    }
}

/// Whether `to` is `from` itself or lies one or two legal transitions after
/// it. One request to the engine never moves the phase further than that.
pub open spec fn is_path(from: AppState, to: AppState) -> bool {
    ||| from == to
    ||| is_legal(from, to)
    ||| exists|mid: AppState| #[trigger] is_legal(from, mid) && is_legal(mid, to)
}

/// The screen that shows in each phase, by its name in the page. While
/// loading, none does.
pub open spec fn screen_of(state: AppState) -> Option<Seq<char>> {
    match state {
        AppState::Loading => None,
        AppState::Welcome => Some("welcome-screen"@),
        AppState::Language => Some("language-screen"@),
        AppState::Timer => Some("timer-screen"@),
        AppState::Countdown(_) => Some("countdown-screen"@),
        AppState::Playing => Some("game-screen"@),
        AppState::TimesUp => Some("times-up-screen"@),
        AppState::Results => Some("results-screen"@),
    }
}

impl AppState {
    /// A countdown never shows more than the count it starts from.
    pub open spec fn wf(&self) -> bool {
        match *self {
            AppState::Countdown(n) => n <= COUNTDOWN_START,
            _ => true,
        }
    }

    /// The name of the screen that shows in this phase.
    pub fn screen_name(&self) -> (name: Option<&'static str>)
        ensures
            match name {
                Some(text) => screen_of(*self) == Some(text@),
                None => screen_of(*self) is None,
            },
            name is None <==> *self == AppState::Loading,
    {
        match self {
            AppState::Loading => None,
            AppState::Welcome => Some("welcome-screen"),
            AppState::Language => Some("language-screen"),
            AppState::Timer => Some("timer-screen"),
            AppState::Countdown(_) => Some("countdown-screen"),
            AppState::Playing => Some("game-screen"),
            AppState::TimesUp => Some("times-up-screen"),
            AppState::Results => Some("results-screen"),
        }
    }

    /// The phase after `event`, or the error where the phase has no answer
    /// to it.
    pub fn after(self, event: PhaseEvent) -> (next: Result<AppState, EngineError>)
        ensures
            match successor(self, event) {
                Some(to) => next == Ok::<AppState, EngineError>(to) && is_legal(self, to),
                None => next == Err::<AppState, EngineError>(EngineError::IllegalTransition),
            },
            self.wf() ==> (next matches Ok(to) ==> to.wf()),
    {
        match (self, event) {
            (AppState::Loading, PhaseEvent::Initialize) => Ok(AppState::Welcome),
            (AppState::Welcome, PhaseEvent::ConfirmName) => Ok(AppState::Language),
            (AppState::Language, PhaseEvent::ConfirmLanguage) => Ok(AppState::Timer),
            (AppState::Timer, PhaseEvent::StartCountdown) => Ok(
                AppState::Countdown(COUNTDOWN_START),
            ),
            (AppState::Countdown(n), PhaseEvent::Tick) => if n > 0 {
                Ok(AppState::Countdown(n - 1))
            } else {
                Err(EngineError::IllegalTransition)
            },
            (AppState::Countdown(n), PhaseEvent::StartSession) => if n == 0 {
                Ok(AppState::Playing)
            } else {
                Err(EngineError::IllegalTransition)
            },
            (AppState::Playing, PhaseEvent::NextSentence) => Ok(AppState::Playing),
            (AppState::Playing, PhaseEvent::TimeUp) => Ok(AppState::TimesUp),
            (AppState::TimesUp, PhaseEvent::ShowResults) => Ok(AppState::Results),
            (AppState::Results, PhaseEvent::Restart) => Ok(AppState::Countdown(COUNTDOWN_START)),
            (AppState::Results, PhaseEvent::ChangeSettings) => Ok(AppState::Language),
            (AppState::Results, PhaseEvent::NewSession) => Ok(AppState::Loading),
            _ => Err(EngineError::IllegalTransition),
        }
    }
}

/// Whatever an event leads to is a legal transition.
pub proof fn lemma_events_are_legal(from: AppState, event: PhaseEvent)
    ensures
        successor(from, event) matches Some(to) ==> is_legal(from, to),
{
}

/// Every legal transition is the answer to some event.
pub proof fn lemma_legal_has_event(from: AppState, to: AppState) -> (event: PhaseEvent)
    requires
        is_legal(from, to),
    ensures
        successor(from, event) == Some(to),
{
    match (from, to) {
        (AppState::Loading, _) => PhaseEvent::Initialize,
        (AppState::Welcome, _) => PhaseEvent::ConfirmName,
        (AppState::Language, _) => PhaseEvent::ConfirmLanguage,
        (AppState::Timer, _) => PhaseEvent::StartCountdown,
        (AppState::Countdown(_), AppState::Playing) => PhaseEvent::StartSession,
        (AppState::Countdown(_), _) => PhaseEvent::Tick,
        (AppState::Playing, AppState::Playing) => PhaseEvent::NextSentence,
        (AppState::Playing, _) => PhaseEvent::TimeUp,
        (AppState::TimesUp, _) => PhaseEvent::ShowResults,
        (AppState::Results, AppState::Language) => PhaseEvent::ChangeSettings,
        (AppState::Results, AppState::Loading) => PhaseEvent::NewSession,
        (AppState::Results, _) => PhaseEvent::Restart,
    }
}

/// A tick lowers the count by exactly one, and only a count above zero can
/// tick.
pub proof fn lemma_tick_decrements(n: u32)
    ensures
        n > 0 ==> successor(AppState::Countdown(n), PhaseEvent::Tick) == Some(
            AppState::Countdown((n - 1) as u32),
        ),
        n == 0 ==> successor(AppState::Countdown(n), PhaseEvent::Tick) is None,
{
}

/// The message that goes with a count, for the counts that have one.
pub open spec fn message_text(remaining: u32) -> Option<Seq<char>> {
    if remaining == 0 {
        Some("GO! Help our magical friend! 🌟"@)
    } else if remaining == 1 {
        Some("Remember: slow and steady wins the race! 🐢"@)
    } else if remaining == 2 {
        Some("Take your time and be careful! 🎯"@)
    } else if remaining == 3 {
        Some("Put your hands on the keyboard like a pianist! 🎹"@)
    } else if remaining == 4 {
        Some("Get ready for a magical adventure! ✨"@)
    } else {
        None
    }
}

/// The message to show beside the count `remaining`. Counts from
/// [`MESSAGE_COUNT`] up have none, and what shows stays.
pub fn countdown_message(remaining: u32) -> (message: Option<&'static str>)
    ensures
        message is Some <==> remaining < MESSAGE_COUNT,
        match message {
            Some(text) => message_text(remaining) == Some(text@),
            None => message_text(remaining) is None,
        },
{
    if remaining == 0 {
        Some("GO! Help our magical friend! 🌟")
    } else if remaining == 1 {
        Some("Remember: slow and steady wins the race! 🐢")
    } else if remaining == 2 {
        Some("Take your time and be careful! 🎯")
    } else if remaining == 3 {
        Some("Put your hands on the keyboard like a pianist! 🎹")
    } else if remaining == 4 {
        Some("Get ready for a magical adventure! ✨")
    } else {
        None
    }
}

/// No two counts share a message.
pub proof fn lemma_messages_distinct(first: u32, second: u32)
    requires
        first < MESSAGE_COUNT,
        second < MESSAGE_COUNT,
        first != second,
    ensures
        message_text(first) != message_text(second),
{
    reveal_strlit("GO! Help our magical friend! 🌟");
    reveal_strlit("Remember: slow and steady wins the race! 🐢");
    reveal_strlit("Take your time and be careful! 🎯");
    reveal_strlit("Put your hands on the keyboard like a pianist! 🎹");
    reveal_strlit("Get ready for a magical adventure! ✨");
    let a = message_text(first)->0;
    let b = message_text(second)->0;
    assert(a.len() != b.len());
}

} // verus!
