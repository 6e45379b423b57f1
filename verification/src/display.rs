//! How a snapshot of the timer is shown to the user.

use vstd::prelude::*;
use vstd::string::StringExecFns;
use crate::engine::{SnapshotModel, TimerSnapshot};
use crate::text::{decimal, decimal_string, same_text};
use crate::timer::TimerState;

verus! {

/// The smallest unit of time that is shown for a running timer.
#[derive(Clone, Copy, Debug, PartialEq, Eq, Structural)]
pub enum TimerPrecision {
    Second,
    Minute,
    Hour,
}

impl Default for TimerPrecision {
    fn default() -> (precision: Self)
        ensures
            precision == TimerPrecision::Minute,
    {
        TimerPrecision::Minute
    }
}

impl TimerPrecision {
    /// The precision that a word of the configuration names, if it names
    /// one: the unit itself, its plural or one of its abbreviations.
    pub open spec fn named(word: Seq<char>) -> Option<TimerPrecision> {
        if word == "second"@ || word == "seconds"@ || word == "secs"@ || word == "sec"@ || word
            == "s"@ {
            Some(TimerPrecision::Second)
        } else if word == "minute"@ || word == "minutes"@ || word == "mins"@ || word == "min"@
            || word == "m"@ {
            Some(TimerPrecision::Minute)
        } else if word == "hour"@ || word == "hours"@ || word == "h"@ {
            Some(TimerPrecision::Hour)
        } else {
            None
        }
    }

    /// Reads a precision from a word of the configuration.
    pub fn from_name(word: &str) -> (precision: Option<TimerPrecision>)
        ensures
            precision == TimerPrecision::named(word@),
    {
        if same_text(word, "second") || same_text(word, "seconds") || same_text(word, "secs")
            || same_text(word, "sec") || same_text(word, "s") {
            Some(TimerPrecision::Second)
        } else if same_text(word, "minute") || same_text(word, "minutes") || same_text(
            word,
            "mins",
        ) || same_text(word, "min") || same_text(word, "m") {
            Some(TimerPrecision::Minute)
        } else if same_text(word, "hour") || same_text(word, "hours") || same_text(word, "h") {
            Some(TimerPrecision::Hour)
        } else {
            None
        }
    }
}

/// The time left, as shown at a precision. Under a minute it is shown in
/// seconds whatever the precision; under an hour in minutes, with the seconds
/// at second precision; from an hour on in hours, with the minutes at minute
/// precision and with minutes and seconds at second precision.
pub open spec fn clock(seconds: nat, precision: TimerPrecision) -> Seq<char> {
    if seconds < 60 {
        decimal(seconds) + "s"@
    } else if seconds < 3600 {
        match precision {
            TimerPrecision::Second => decimal(seconds / 60) + "min "@ + decimal(seconds % 60)
                + "s"@,
            _ => decimal(seconds / 60) + "min"@,
        }
    } else {
        match precision {
            TimerPrecision::Second => decimal(seconds / 3600) + "h "@ + decimal(
                (seconds % 3600) / 60,
            ) + "min "@ + decimal((seconds % 3600) % 60) + "s"@,
            TimerPrecision::Minute => decimal(seconds / 3600) + "h "@ + decimal(
                (seconds % 3600) / 60,
            ) + "min"@,
            TimerPrecision::Hour => decimal(seconds / 3600) + "h"@,
        }
    }
}

/// The line that shows a snapshot: `OFF` for a stopped timer, else the name
/// of the cycle in square brackets, followed by `paused` or by the time left.
pub open spec fn shown(shot: SnapshotModel, precision: TimerPrecision) -> Seq<char> {
    match shot.state {
        TimerState::Stopped => "OFF"@,
        TimerState::Paused => "["@ + shot.cycle.name + "] paused"@,
        TimerState::Running => "["@ + shot.cycle.name + "] "@ + clock(
            shot.cycle.duration,
            precision,
        ),
    }
}

fn append_number(text: &mut String, number: u64)
    ensures
        final(text)@ == old(text)@ + decimal(number as nat),
{
    let digits = decimal_string(number);
    text.append(digits.as_str());
}

/// Writes the time left at a precision.
pub fn clock_text(seconds: u64, precision: TimerPrecision) -> (text: String)
    ensures
        text@ == clock(seconds as nat, precision),
{
    let mut text = String::new();
    if seconds < 60 {
        append_number(&mut text, seconds);
        text.append("s");
    } else if seconds < 3600 {
        append_number(&mut text, seconds / 60);
        match precision {
            TimerPrecision::Second => {
                text.append("min ");
                append_number(&mut text, seconds % 60);
                text.append("s");
            },
            _ => {
                text.append("min");
            },
        }
    } else {
        append_number(&mut text, seconds / 3600);
        match precision {
            TimerPrecision::Second => {
                text.append("h ");
                append_number(&mut text, (seconds % 3600) / 60);
                text.append("min ");
                append_number(&mut text, (seconds % 3600) % 60);
                text.append("s");
            },
            TimerPrecision::Minute => {
                text.append("h ");
                append_number(&mut text, (seconds % 3600) / 60);
                text.append("min");
            },
            TimerPrecision::Hour => {
                text.append("h");
            },
        }
    }
    assert(text@ =~= clock(seconds as nat, precision));
    text
}

/// A snapshot together with the precision at which it is to be shown.
#[derive(Debug, PartialEq, Eq)]
pub struct DisplayTimer {
    pub precision: TimerPrecision,
    pub timer: TimerSnapshot,
}

impl DisplayTimer {
    /// The line that shows the timer to the user.
    pub fn render(&self) -> (line: String)
        ensures
            line@ == shown(self.timer@, self.precision),
    {
        match self.timer.state {
            TimerState::Stopped => String::from_str("OFF"),
            TimerState::Paused => {
                let mut line = String::from_str("[");
                line.append(self.timer.cycle.name.as_str());
                line.append("] paused");
                line
            },
            TimerState::Running => {
                let mut line = String::from_str("[");
                line.append(self.timer.cycle.name.as_str());
                line.append("] ");
                let time = clock_text(self.timer.cycle.duration, self.precision);
                line.append(time.as_str());
                line
            },
        }
    }
}

} // verus!
