//! The configuration file as a value: presets by name, each with its plan,
//! its sockets and its hooks, and the global hooks that presets fall back on.

use vstd::prelude::*;
use vstd::string::StringExecFns;
use crate::account::{HookConfig, TcpConfig};
use crate::display::TimerPrecision;
use crate::hooks_config::HooksConfig;
use crate::named::{distinct, first_position, has_name, names_distinct, position};
use crate::text::same_text;
use crate::timer::{CycleModel, TimerCycle};

verus! {

/// A plan that is known by name.
#[derive(Clone, Copy, Debug, PartialEq, Eq, Structural)]
pub enum PresetKind {
    /// 25 minutes of work followed by a break of 5 minutes, four times, and
    /// then a long break of 15 minutes.
    PresetPomodoro,
    /// 52 minutes of work and 17 minutes of rest.
    Preset52_17,
}

/// The cycle called `Work` of a given number of minutes.
pub open spec fn work_cycle(minutes: nat) -> CycleModel {
    CycleModel { name: "Work"@, duration: minutes * 60 }
}

/// The cycle called `Short break`, of 5 minutes.
pub open spec fn short_break_cycle() -> CycleModel {
    CycleModel { name: "Short break"@, duration: 300 }
}

/// The cycle called `Long break`, of 15 minutes.
pub open spec fn long_break_cycle() -> CycleModel {
    CycleModel { name: "Long break"@, duration: 900 }
}

/// The cycle called `Rest`, of 17 minutes.
pub open spec fn rest_cycle() -> CycleModel {
    CycleModel { name: "Rest"@, duration: 1020 }
}

impl PresetKind {
    /// The name of the plan in the configuration file.
    pub open spec fn name(self) -> Seq<char> {
        match self {
            PresetKind::PresetPomodoro => "pomodoro"@,
            PresetKind::Preset52_17 => "52/17"@,
        }
    }

    /// The plan that a word of the configuration file names, if it names
    /// one.
    pub open spec fn named(word: Seq<char>) -> Option<PresetKind> {
        if word == "pomodoro"@ {
            Some(PresetKind::PresetPomodoro)
        } else if word == "52/17"@ {
            Some(PresetKind::Preset52_17)
        } else {
            None
        }
    }

    /// Reads a plan from a word of the configuration file.
    pub fn from_name(word: &str) -> (kind: Option<PresetKind>)
        ensures
            kind == PresetKind::named(word@),
    {
        if same_text(word, "pomodoro") {
            Some(PresetKind::PresetPomodoro)
        } else if same_text(word, "52/17") {
            Some(PresetKind::Preset52_17)
        } else {
            None
        }
    }

    /// The cycles of the plan, in order.
    pub open spec fn plan(self) -> Seq<CycleModel> {
        match self {
            PresetKind::PresetPomodoro => seq![
                work_cycle(25),
                short_break_cycle(),
                work_cycle(25),
                short_break_cycle(),
                work_cycle(25),
                short_break_cycle(),
                work_cycle(25),
                short_break_cycle(),
                long_break_cycle(),
            ],
            PresetKind::Preset52_17 => seq![work_cycle(52), rest_cycle()],
        }
    }

    /// The cycles of the plan, in order.
    pub fn cycles(&self) -> (cycles: Vec<TimerCycle>)
        ensures
            cycles.deep_view() == self.plan(),
    {
        let mut cycles: Vec<TimerCycle> = Vec::new();
        match self {
            PresetKind::PresetPomodoro => {
                let mut round: usize = 0;
                while round < 4
                    invariant
                        round <= 4,
                        cycles.len() == 2 * round,
                        forall|i: int|
                            0 <= i < cycles.len() ==> (#[trigger] cycles[i])@ == (if i % 2 == 0 {
                                work_cycle(25)
                            } else {
                                short_break_cycle()
                            }),
                    decreases 4 - round,
                {
                    cycles.push(TimerCycle::new("Work", 25 * 60));
                    cycles.push(TimerCycle::new("Short break", 5 * 60));
                    round += 1;
                }
                cycles.push(TimerCycle::new("Long break", 15 * 60));
            },
            PresetKind::Preset52_17 => {
                cycles.push(TimerCycle::new("Work", 52 * 60));
                cycles.push(TimerCycle::new("Rest", 17 * 60));
            },
        }
        assert(cycles.deep_view() =~= self.plan());
        cycles
    }
}

/// A preset as the configuration file gives it: a plan known by name or
/// cycles of its own, a TCP socket, hooks by name, the number of passes (zero
/// for endless) and the precision at which the timer is shown.
///
/// No two hooks have the same name.
#[derive(Debug, PartialEq, Eq)]
pub struct TomlPresetConfig {
    pub preset: Option<PresetKind>,
    pub cycles: Vec<TimerCycle>,
    pub tcp: Option<TcpConfig>,
    pub hooks: Vec<(String, HookConfig)>,
    pub cycles_count: usize,
    pub timer_precision: TimerPrecision,
}

impl TomlPresetConfig {
    /// The plan that the preset asks for: that of the plan it names, else
    /// its own cycles.
    pub open spec fn plan(&self) -> Seq<CycleModel> {
        match self.preset {
            Some(kind) => kind.plan(),
            None => self.cycles.deep_view(),
        }
    }

    /// The cycles that the timer of this preset follows.
    pub fn resolve_cycles(&self) -> (cycles: Vec<TimerCycle>)
        ensures
            cycles.deep_view() == self.plan(),
    {
        match self.preset {
            Some(kind) => kind.cycles(),
            None => {
                let mut cycles: Vec<TimerCycle> = Vec::new();
                let mut i: usize = 0;
                while i < self.cycles.len()
                    invariant
                        i <= self.cycles.len(),
                        cycles.len() == i,
                        forall|j: int| 0 <= j < i ==> cycles[j]@ == self.cycles[j]@,
                    decreases self.cycles.len() - i,
                {
                    cycles.push(self.cycles[i].clone());
                    i += 1;
                }
                assert(cycles.deep_view() =~= self.cycles.deep_view());
                cycles
            },
        }
    }

    /// The hook of a given name, if the preset has one.
    pub fn hook(&self, name: &str) -> (found: Option<&HookConfig>)
        ensures
            found == (if has_name(self.hooks@, name@) {
                Some(&self.hooks[first_position(self.hooks@, name@)].1)
            } else {
                None
            }),
    {
        match position(&self.hooks, name) {
            Some(at) => {
                Some(&self.hooks[at].1)
            },
            None => None,
        }
    }
}

/// Durations that override those of the classic pomodoro plan, in seconds;
/// one that is not set leaves the plan's own.
#[derive(Clone, Copy, Debug, Default, PartialEq, Eq, Structural)]
pub struct DurationsConfig {
    pub work_duration: Option<usize>,
    pub short_break_duration: Option<usize>,
    pub long_break_duration: Option<usize>,
}

/// The durations of the classic pomodoro plan, in seconds.
#[derive(Clone, Copy, Debug, PartialEq, Eq, Structural)]
pub struct PomodoroDurations {
    pub work: usize,
    pub short_break: usize,
    pub long_break: usize,
}

/// A duration that is set, else the one it would override.
pub open spec fn overridden(own: Option<usize>, planned: usize) -> usize {
    match own {
        Some(duration) => duration,
        None => planned,
    }
}

impl DurationsConfig {
    /// Overrides the durations of a plan by those that are set.
    pub fn apply(&self, server: PomodoroDurations) -> (applied: PomodoroDurations)
        ensures
            applied.work == overridden(self.work_duration, server.work),
            applied.short_break == overridden(self.short_break_duration, server.short_break),
            applied.long_break == overridden(self.long_break_duration, server.long_break),
    {
        let mut server = server;
        if let Some(duration) = self.work_duration {
            server.work = duration;
        }
        if let Some(duration) = self.short_break_duration {
            server.short_break = duration;
        }
        if let Some(duration) = self.long_break_duration {
            server.long_break = duration;
        }
        server
    }
}

/// The configuration file: its presets by name, and the hooks and durations
/// that hold for all of them.
///
/// No two presets have the same name.
#[derive(Debug, PartialEq, Eq)]
pub struct Config {
    pub presets: Vec<(String, TomlPresetConfig)>,
    pub hooks: HooksConfig,
    pub durations: DurationsConfig,
}

/// A preset was asked for that the configuration does not hold.
#[derive(Debug, PartialEq, Eq)]
pub struct PresetNotFound {
    pub name: String,
}

impl PresetNotFound {
    /// The text shown to the user for this error.
    pub open spec fn message_spec(&self) -> Seq<char> {
        "cannot find preset "@ + self.name@
    }

    /// The text shown to the user for this error.
    pub fn message(&self) -> (text: String)
        ensures
            text@ == self.message_spec(),
    {
        let mut text = String::from_str("cannot find preset ");
        text.append(self.name.as_str());
        text
    }
}

impl Config {
    /// No two presets have the same name, and no preset has two hooks of
    /// the same name.
    pub open spec fn wf(&self) -> bool {
        &&& names_distinct(self.presets@)
        &&& forall|i: int|
            0 <= i < self.presets.len() ==> names_distinct((#[trigger] self.presets[i]).1.hooks@)
    }

    /// Whether a preset of a given name exists.
    pub open spec fn has_preset(&self, name: Seq<char>) -> bool {
        has_name(self.presets@, name)
    }

    /// The preset of a given name, where one exists.
    pub open spec fn preset_named(&self, name: Seq<char>) -> TomlPresetConfig {
        self.presets[first_position(self.presets@, name)].1
    }

    /// Whether no name is used twice, among the presets and among the hooks
    /// of each preset.
    pub fn validate(&self) -> (ok: bool)
        ensures
            ok == self.wf(),
    {
        if !distinct(&self.presets) {
            return false;
        }
        let mut i: usize = 0;
        while i < self.presets.len()
            invariant
                i <= self.presets.len(),
                names_distinct(self.presets@),
                forall|j: int|
                    0 <= j < i ==> names_distinct((#[trigger] self.presets[j]).1.hooks@),
            decreases self.presets.len() - i,
        {
            if !distinct(&self.presets[i].1.hooks) {
                return false;
            }
            i += 1;
        }
        true
    }

    /// Finds the preset of a given name. One that the configuration does not
    /// hold is refused with an error that carries the name.
    pub fn get_preset(&self, name: &str) -> (found: Result<&TomlPresetConfig, PresetNotFound>)
        ensures
            match found {
                Ok(preset) => self.has_preset(name@) && *preset == self.preset_named(name@),
                Err(e) => !self.has_preset(name@) && e.name@ == name@,
            },
    {
        match position(&self.presets, name) {
            Some(at) => {
                Ok(&self.presets[at].1)
            },
            None => Err(PresetNotFound { name: name.to_owned() }),
        }
    }
}

/// The preset named on the command line.
#[derive(Debug, Default, PartialEq, Eq)]
pub struct PresetNameArg {
    pub name: String,
}

} // verus!
