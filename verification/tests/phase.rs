use typing_engine::phase::{
    countdown_message, AppState, EngineError, PhaseEvent, COUNTDOWN_START, MESSAGE_COUNT,
};

const EVENTS: [PhaseEvent; 12] = [
    PhaseEvent::Initialize,
    PhaseEvent::ConfirmName,
    PhaseEvent::ConfirmLanguage,
    PhaseEvent::StartCountdown,
    PhaseEvent::Tick,
    PhaseEvent::StartSession,
    PhaseEvent::NextSentence,
    PhaseEvent::TimeUp,
    PhaseEvent::ShowResults,
    PhaseEvent::Restart,
    PhaseEvent::ChangeSettings,
    PhaseEvent::NewSession,
];

fn states() -> Vec<AppState> {
    let mut all = vec![
        AppState::Loading,
        AppState::Welcome,
        AppState::Language,
        AppState::Timer,
        AppState::Playing,
        AppState::TimesUp,
        AppState::Results,
    ];
    for n in 0..=5 {
        all.push(AppState::Countdown(n));
    }
    all
}

#[test]
fn the_way_to_the_first_result() {
    let mut state = AppState::Loading;
    let path = [
        (PhaseEvent::Initialize, AppState::Welcome),
        (PhaseEvent::ConfirmName, AppState::Language),
        (PhaseEvent::ConfirmLanguage, AppState::Timer),
        (PhaseEvent::StartCountdown, AppState::Countdown(5)),
        (PhaseEvent::Tick, AppState::Countdown(4)),
        (PhaseEvent::Tick, AppState::Countdown(3)),
        (PhaseEvent::Tick, AppState::Countdown(2)),
        (PhaseEvent::Tick, AppState::Countdown(1)),
        (PhaseEvent::Tick, AppState::Countdown(0)),
        (PhaseEvent::StartSession, AppState::Playing),
        (PhaseEvent::NextSentence, AppState::Playing),
        (PhaseEvent::TimeUp, AppState::TimesUp),
        (PhaseEvent::ShowResults, AppState::Results),
    ];
    for (event, expected) in path {
        assert_eq!(state.after(event), Ok(expected));
        state = expected;
    }
}

#[test]
fn the_three_ways_on_from_the_result() {
    assert_eq!(AppState::Results.after(PhaseEvent::Restart), Ok(AppState::Countdown(5)));
    assert_eq!(AppState::Results.after(PhaseEvent::ChangeSettings), Ok(AppState::Language));
    assert_eq!(AppState::Results.after(PhaseEvent::NewSession), Ok(AppState::Loading));
    assert_eq!(COUNTDOWN_START, 5);
}

#[test]
fn every_other_pair_is_refused() {
    let mut allowed = 0;
    for state in states() {
        for event in EVENTS {
            let expected = match (state, event) {
                (AppState::Loading, PhaseEvent::Initialize) => Some(AppState::Welcome),
                (AppState::Welcome, PhaseEvent::ConfirmName) => Some(AppState::Language),
                (AppState::Language, PhaseEvent::ConfirmLanguage) => Some(AppState::Timer),
                (AppState::Timer, PhaseEvent::StartCountdown) => Some(AppState::Countdown(5)),
                (AppState::Countdown(n), PhaseEvent::Tick) if n > 0 => {
                    Some(AppState::Countdown(n - 1))
                }
                (AppState::Countdown(0), PhaseEvent::StartSession) => Some(AppState::Playing),
                (AppState::Playing, PhaseEvent::NextSentence) => Some(AppState::Playing),
                (AppState::Playing, PhaseEvent::TimeUp) => Some(AppState::TimesUp),
                (AppState::TimesUp, PhaseEvent::ShowResults) => Some(AppState::Results),
                (AppState::Results, PhaseEvent::Restart) => Some(AppState::Countdown(5)),
                (AppState::Results, PhaseEvent::ChangeSettings) => Some(AppState::Language),
                (AppState::Results, PhaseEvent::NewSession) => Some(AppState::Loading),
                _ => None,
            };
            match expected {
                Some(next) => {
                    allowed += 1;
                    assert_eq!(state.after(event), Ok(next));
                }
                None => assert_eq!(state.after(event), Err(EngineError::IllegalTransition)),
            }
        }
    }
    assert_eq!(allowed, 16);
}

#[test]
fn a_tick_lowers_the_count_by_one() {
    for n in 1..=5u32 {
        assert_eq!(AppState::Countdown(n).after(PhaseEvent::Tick), Ok(AppState::Countdown(n - 1)));
    }
    assert_eq!(
        AppState::Countdown(u32::MAX).after(PhaseEvent::Tick),
        Ok(AppState::Countdown(u32::MAX - 1))
    );
}

#[test]
fn no_tick_at_zero() {
    assert_eq!(
        AppState::Countdown(0).after(PhaseEvent::Tick),
        Err(EngineError::IllegalTransition)
    );
}

#[test]
fn the_session_starts_only_from_zero() {
    assert_eq!(AppState::Countdown(0).after(PhaseEvent::StartSession), Ok(AppState::Playing));
    for n in 1..=5u32 {
        assert_eq!(
            AppState::Countdown(n).after(PhaseEvent::StartSession),
            Err(EngineError::IllegalTransition)
        );
    }
}

#[test]
fn each_count_below_five_has_its_message() {
    assert_eq!(MESSAGE_COUNT, 5);
    assert_eq!(countdown_message(0), Some("GO! Help our magical friend! 🌟"));
    assert_eq!(countdown_message(1), Some("Remember: slow and steady wins the race! 🐢"));
    assert_eq!(countdown_message(2), Some("Take your time and be careful! 🎯"));
    assert_eq!(countdown_message(3), Some("Put your hands on the keyboard like a pianist! 🎹"));
    assert_eq!(countdown_message(4), Some("Get ready for a magical adventure! ✨"));
}

#[test]
fn counts_from_five_up_have_no_message() {
    assert_eq!(countdown_message(5), None);
    assert_eq!(countdown_message(6), None);
    assert_eq!(countdown_message(u32::MAX), None);
}

#[test]
fn messages_are_distinct() {
    for a in 0..5u32 {
        for b in 0..5u32 {
            if a != b {
                assert_ne!(countdown_message(a), countdown_message(b));
            }
        }
    }
}

#[test]
fn each_phase_but_loading_has_its_screen() {
    assert_eq!(AppState::Loading.screen_name(), None);
    assert_eq!(AppState::Welcome.screen_name(), Some("welcome-screen"));
    assert_eq!(AppState::Language.screen_name(), Some("language-screen"));
    assert_eq!(AppState::Timer.screen_name(), Some("timer-screen"));
    assert_eq!(AppState::Countdown(5).screen_name(), Some("countdown-screen"));
    assert_eq!(AppState::Countdown(0).screen_name(), Some("countdown-screen"));
    assert_eq!(AppState::Playing.screen_name(), Some("game-screen"));
    assert_eq!(AppState::TimesUp.screen_name(), Some("times-up-screen"));
    assert_eq!(AppState::Results.screen_name(), Some("results-screen"));
}
