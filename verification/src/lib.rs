//! A typing-practice session engine: progress tracking against a target
//! sentence, speed and accuracy metrics, session aggregation and the screen
//! lifecycle, all driven by plain values so that a host supplies the clock,
//! the sentence corpus and the display.

pub mod bank;
pub mod engine;
pub mod metrics;
pub mod phase;
pub mod profile;
pub mod progress;
pub mod session;

pub use bank::SentenceBank;
pub use engine::{EngineState, ProgressReport, TypingApp};
pub use phase::{AppState, EngineError, PhaseEvent};
pub use profile::UserData;
pub use progress::{ActiveAttempt, UpdateOutcome};
pub use session::{SessionResult, SessionTotals};
