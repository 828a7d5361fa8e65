//! The user's settings and records.

use vstd::prelude::*;
use crate::session::SessionResult;

verus! {

/// The shortest name that is accepted, in characters.
pub const MIN_NAME_LENGTH: usize = 2;

/// The shortest session, in seconds.
pub const MIN_DURATION: u32 = 1;

/// What is kept of a user between sessions.
#[derive(Clone, Debug, PartialEq, Eq)]
pub struct UserData {
    /// The user's name; empty until one is set.
    pub name: String,
    /// Code of the language to practise.
    pub language: String,
    /// That language's name, for display.
    pub language_name: String,
    /// Length of a session, in seconds.
    pub duration: u32,
    /// Best speed of any session, in words per minute.
    pub best_wpm: u32,
    /// Best accuracy of any session, in percent.
    pub best_accuracy: u32,
    /// Sessions finished.
    pub total_sessions: u32,
}

/// Whether `name` is long enough to be a user's name.
pub open spec fn name_accepted(name: Seq<char>) -> bool {
    name.len() >= MIN_NAME_LENGTH
}

/// The duration that a request for `seconds` sets: at least one second.
pub open spec fn coerced_duration(seconds: u32) -> u32 {
    if seconds < MIN_DURATION {
        MIN_DURATION
    } else {
        seconds
    }
}

impl UserData {
    /// The profile after a session with `result`: one more session, and each
    /// record raised to the result where the result is better. The count of
    /// sessions stops at `u32::MAX`.
    pub open spec fn credited(self, result: SessionResult) -> UserData {
        UserData {
            total_sessions: if self.total_sessions == u32::MAX {
                u32::MAX
            } else {
                (self.total_sessions + 1) as u32
            },
            best_wpm: if result.wpm > self.best_wpm {
                result.wpm
            } else {
                self.best_wpm
            },
            best_accuracy: if result.accuracy > self.best_accuracy {
                result.accuracy
            } else {
                self.best_accuracy
            },
            ..self
        }
    }

    /// Records a finished session.
    pub fn credit(&mut self, result: &SessionResult)
        ensures
            *final(self) == old(self).credited(*result),
            final(self).best_wpm >= old(self).best_wpm,
            final(self).best_accuracy >= old(self).best_accuracy,
            final(self).total_sessions >= old(self).total_sessions,
    {
        self.total_sessions = self.total_sessions.saturating_add(1);
        if result.wpm > self.best_wpm {
            self.best_wpm = result.wpm;
        }
        if result.accuracy > self.best_accuracy {
            self.best_accuracy = result.accuracy;
        }
    }

    /// Sets the name where it has at least two characters; a shorter one is
    /// refused and nothing changes.
    pub fn set_name(&mut self, name: &str) -> (accepted: bool)
        ensures
            accepted == name_accepted(name@),
            accepted ==> final(self).name@ == name@ && *final(self) == (UserData {
                name: final(self).name,
                ..*old(self)
            }),
            !accepted ==> *final(self) == *old(self),
    {
        if name.unicode_len() >= MIN_NAME_LENGTH {
            self.name = name.to_owned();
            true
        } else {
            false
        }
    }

    /// Sets the language and the name it is shown by.
    pub fn set_language(&mut self, code: &str, display_name: &str)
        ensures
            final(self).language@ == code@,
            final(self).language_name@ == display_name@,
            *final(self) == (UserData {
                language: final(self).language,
                language_name: final(self).language_name,
                ..*old(self)
            }),
    {
        self.language = code.to_owned();
        self.language_name = display_name.to_owned();
    }

    /// Sets the session length, raising zero to one second.
    pub fn set_duration(&mut self, seconds: u32)
        ensures
            *final(self) == (UserData { duration: coerced_duration(seconds), ..*old(self) }),
            final(self).duration >= MIN_DURATION,
    {
        self.duration = if seconds < MIN_DURATION {
            MIN_DURATION
        } else {
            seconds
        };
    }
}

/// The character that stands for the digit `d`.
pub open spec fn digit_char(d: nat) -> char {
    if d == 0 {
        '0'
    } else if d == 1 {
        '1'
    } else if d == 2 {
        '2'
    } else if d == 3 {
        '3'
    } else if d == 4 {
        '4'
    } else if d == 5 {
        '5'
    } else if d == 6 {
        '6'
    } else if d == 7 {
        '7'
    } else if d == 8 {
        '8'
    } else {
        '9'
    }
}

/// `n` in decimal digits, without leading zeros.
pub open spec fn decimal(n: nat) -> Seq<char>
    decreases n,
{
    if n < 10 {
        seq![digit_char(n)]
    } else {
        decimal(n / 10).push(digit_char(n % 10))
    }
}

/// How a duration of `seconds` reads: in whole minutes from a minute up
/// ("1 minute", "2 minutes"), else in seconds ("45 seconds").
pub open spec fn duration_text(seconds: u32) -> Seq<char> {
    if seconds >= 60 {
        decimal((seconds / 60) as nat) + " minute"@ + (if seconds / 60 != 1 {
            "s"@
        } else {
            Seq::<char>::empty()
        })
    } else {
        decimal(seconds as nat) + " seconds"@
    }
}

/// The digit `d` as a text of one character.
fn digit_text(d: u32) -> (text: &'static str)
    requires
        d < 10,
    ensures
        text@ == seq![digit_char(d as nat)],
{
    proof {
        reveal_strlit("0");
        reveal_strlit("1");
        reveal_strlit("2");
        reveal_strlit("3");
        reveal_strlit("4");
        reveal_strlit("5");
        reveal_strlit("6");
        reveal_strlit("7");
        reveal_strlit("8");
        reveal_strlit("9");
    }
    let text = if d == 0 {
        "0"
    } else if d == 1 {
        "1"
    } else if d == 2 {
        "2"
    } else if d == 3 {
        "3"
    } else if d == 4 {
        "4"
    } else if d == 5 {
        "5"
    } else if d == 6 {
        "6"
    } else if d == 7 {
        "7"
    } else if d == 8 {
        "8"
    } else {
        "9"
    };
    assert(text@ =~= seq![digit_char(d as nat)]);
    text
}

/// `n` written in decimal.
pub fn decimal_string(n: u32) -> (text: String)
    ensures
        text@ == decimal(n as nat),
    decreases n,
{
    if n < 10 {
        String::from_str(digit_text(n))
    } else {
        let mut text = decimal_string(n / 10);
        text.append(digit_text(n % 10));
        assert(text@ =~= decimal(n as nat));
        text
    }
}

/// A duration in words, for display.
pub fn format_duration(seconds: u32) -> (text: String)
    ensures
        text@ == duration_text(seconds),
{
    if seconds >= 60 {
        let minutes = seconds / 60;
        let mut text = decimal_string(minutes);
        text.append(" minute");
        if minutes != 1 {
            text.append("s");
        }
        assert(text@ =~= duration_text(seconds));
        text
    } else {
        let mut text = decimal_string(seconds);
        text.append(" seconds");
        text
    }
}

} // verus!
