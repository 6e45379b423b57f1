//! Shell hooks of the classic pomodoro plan: which command is configured for
//! which event, how a preset's hooks fall back on the global ones, and which
//! commands an event runs.

use vstd::prelude::*;
use crate::config::Config;

verus! {

/// An event in the life of the server process.
#[derive(Clone, Copy, Debug, PartialEq, Eq, Structural)]
pub enum ServerEvent {
    Started,
    Stopping,
    Stopped,
}

/// A cycle of the classic pomodoro plan.
#[derive(Clone, Copy, Debug, PartialEq, Eq, Structural)]
pub enum PomodoroCycle {
    FirstWork,
    FirstShortBreak,
    SecondWork,
    SecondShortBreak,
    LongBreak,
}

/// A transition of a timer that follows the classic pomodoro plan.
#[derive(Clone, Copy, Debug, PartialEq, Eq, Structural)]
pub enum PomodoroEvent {
    Started,
    Stopped,
    Began(PomodoroCycle),
    Running(PomodoroCycle),
    Paused(PomodoroCycle),
    Resumed(PomodoroCycle),
    Ended(PomodoroCycle),
}

/// An event that a hook can be bound to.
#[derive(Clone, Copy, Debug, PartialEq, Eq, Structural)]
pub enum HookEvent {
    Server(ServerEvent),
    Timer(PomodoroEvent),
}

/// The first of two optional texts that is present.
pub open spec fn first_present(own: Option<Seq<char>>, fallback: Option<Seq<char>>) -> Option<
    Seq<char>,
> {
    if own is Some {
        own
    } else {
        fallback
    }
}

/// The texts that are present among two optional ones, in order.
pub open spec fn present(general: Option<Seq<char>>, specific: Option<Seq<char>>) -> Seq<
    Seq<char>,
> {
    let head = if let Some(text) = general {
        seq![text]
    } else {
        Seq::<Seq<char>>::empty()
    };
    if let Some(text) = specific {
        head.push(text)
    } else {
        head
    }
}

fn duplicate(text: &Option<String>) -> (copy: Option<String>)
    ensures
        copy.deep_view() == text.deep_view(),
{
    match text {
        Some(t) => Some(t.clone()),
        None => None,
    }
}

fn or_fallback(own: Option<String>, fallback: &Option<String>) -> (chosen: Option<String>)
    ensures
        chosen.deep_view() == first_present(own.deep_view(), fallback.deep_view()),
{
    match own {
        Some(t) => Some(t),
        None => duplicate(fallback),
    }
}

fn in_order(general: &Option<String>, specific: &Option<String>) -> (commands: Vec<String>)
    ensures
        commands.deep_view() == present(general.deep_view(), specific.deep_view()),
{
    let mut commands: Vec<String> = Vec::new();
    if let Some(text) = general {
        commands.push(text.clone());
    }
    if let Some(text) = specific {
        commands.push(text.clone());
    }
    assert(commands.deep_view() =~= present(general.deep_view(), specific.deep_view()));
    commands
}

/// Shell commands bound to the events of the server and of the timer, one
/// optional command per event.
///
/// A work or short-break cycle has a general hook and, beside it, one for its
/// first and one for its second occurrence in the plan.
#[derive(Debug, Default, PartialEq, Eq)]
pub struct HooksConfig {
    pub server_started_hook: Option<String>,
    pub server_stopping_hook: Option<String>,
    pub server_stopped_hook: Option<String>,
    pub timer_started_hook: Option<String>,
    pub timer_stopped_hook: Option<String>,
    pub work_began_hook: Option<String>,
    pub work_running_hook: Option<String>,
    pub work_paused_hook: Option<String>,
    pub work_resumed_hook: Option<String>,
    pub work_ended_hook: Option<String>,
    pub first_work_began_hook: Option<String>,
    pub first_work_running_hook: Option<String>,
    pub first_work_paused_hook: Option<String>,
    pub first_work_resumed_hook: Option<String>,
    pub first_work_ended_hook: Option<String>,
    pub second_work_began_hook: Option<String>,
    pub second_work_running_hook: Option<String>,
    pub second_work_paused_hook: Option<String>,
    pub second_work_resumed_hook: Option<String>,
    pub second_work_ended_hook: Option<String>,
    pub short_break_began_hook: Option<String>,
    pub short_break_running_hook: Option<String>,
    pub short_break_paused_hook: Option<String>,
    pub short_break_resumed_hook: Option<String>,
    pub short_break_ended_hook: Option<String>,
    pub first_short_break_began_hook: Option<String>,
    pub first_short_break_running_hook: Option<String>,
    pub first_short_break_paused_hook: Option<String>,
    pub first_short_break_resumed_hook: Option<String>,
    pub first_short_break_ended_hook: Option<String>,
    pub second_short_break_began_hook: Option<String>,
    pub second_short_break_running_hook: Option<String>,
    pub second_short_break_paused_hook: Option<String>,
    pub second_short_break_resumed_hook: Option<String>,
    pub second_short_break_ended_hook: Option<String>,
    pub long_break_began_hook: Option<String>,
    pub long_break_running_hook: Option<String>,
    pub long_break_paused_hook: Option<String>,
    pub long_break_resumed_hook: Option<String>,
    pub long_break_ended_hook: Option<String>,
}

/// Mathematical value of a [`HooksConfig`].
pub struct HooksModel {
    pub server_started_hook: Option<Seq<char>>,
    pub server_stopping_hook: Option<Seq<char>>,
    pub server_stopped_hook: Option<Seq<char>>,
    pub timer_started_hook: Option<Seq<char>>,
    pub timer_stopped_hook: Option<Seq<char>>,
    pub work_began_hook: Option<Seq<char>>,
    pub work_running_hook: Option<Seq<char>>,
    pub work_paused_hook: Option<Seq<char>>,
    pub work_resumed_hook: Option<Seq<char>>,
    pub work_ended_hook: Option<Seq<char>>,
    pub first_work_began_hook: Option<Seq<char>>,
    pub first_work_running_hook: Option<Seq<char>>,
    pub first_work_paused_hook: Option<Seq<char>>,
    pub first_work_resumed_hook: Option<Seq<char>>,
    pub first_work_ended_hook: Option<Seq<char>>,
    pub second_work_began_hook: Option<Seq<char>>,
    pub second_work_running_hook: Option<Seq<char>>,
    pub second_work_paused_hook: Option<Seq<char>>,
    pub second_work_resumed_hook: Option<Seq<char>>,
    pub second_work_ended_hook: Option<Seq<char>>,
    pub short_break_began_hook: Option<Seq<char>>,
    pub short_break_running_hook: Option<Seq<char>>,
    pub short_break_paused_hook: Option<Seq<char>>,
    pub short_break_resumed_hook: Option<Seq<char>>,
    pub short_break_ended_hook: Option<Seq<char>>,
    pub first_short_break_began_hook: Option<Seq<char>>,
    pub first_short_break_running_hook: Option<Seq<char>>,
    pub first_short_break_paused_hook: Option<Seq<char>>,
    pub first_short_break_resumed_hook: Option<Seq<char>>,
    pub first_short_break_ended_hook: Option<Seq<char>>,
    pub second_short_break_began_hook: Option<Seq<char>>,
    pub second_short_break_running_hook: Option<Seq<char>>,
    pub second_short_break_paused_hook: Option<Seq<char>>,
    pub second_short_break_resumed_hook: Option<Seq<char>>,
    pub second_short_break_ended_hook: Option<Seq<char>>,
    pub long_break_began_hook: Option<Seq<char>>,
    pub long_break_running_hook: Option<Seq<char>>,
    pub long_break_paused_hook: Option<Seq<char>>,
    pub long_break_resumed_hook: Option<Seq<char>>,
    pub long_break_ended_hook: Option<Seq<char>>,
}

impl View for HooksConfig {
    type V = HooksModel;

    open spec fn view(&self) -> HooksModel {
        HooksModel {
            server_started_hook: self.server_started_hook.deep_view(),
            server_stopping_hook: self.server_stopping_hook.deep_view(),
            server_stopped_hook: self.server_stopped_hook.deep_view(),
            timer_started_hook: self.timer_started_hook.deep_view(),
            timer_stopped_hook: self.timer_stopped_hook.deep_view(),
            work_began_hook: self.work_began_hook.deep_view(),
            work_running_hook: self.work_running_hook.deep_view(),
            work_paused_hook: self.work_paused_hook.deep_view(),
            work_resumed_hook: self.work_resumed_hook.deep_view(),
            work_ended_hook: self.work_ended_hook.deep_view(),
            first_work_began_hook: self.first_work_began_hook.deep_view(),
            first_work_running_hook: self.first_work_running_hook.deep_view(),
            first_work_paused_hook: self.first_work_paused_hook.deep_view(),
            first_work_resumed_hook: self.first_work_resumed_hook.deep_view(),
            first_work_ended_hook: self.first_work_ended_hook.deep_view(),
            second_work_began_hook: self.second_work_began_hook.deep_view(),
            second_work_running_hook: self.second_work_running_hook.deep_view(),
            second_work_paused_hook: self.second_work_paused_hook.deep_view(),
            second_work_resumed_hook: self.second_work_resumed_hook.deep_view(),
            second_work_ended_hook: self.second_work_ended_hook.deep_view(),
            short_break_began_hook: self.short_break_began_hook.deep_view(),
            short_break_running_hook: self.short_break_running_hook.deep_view(),
            short_break_paused_hook: self.short_break_paused_hook.deep_view(),
            short_break_resumed_hook: self.short_break_resumed_hook.deep_view(),
            short_break_ended_hook: self.short_break_ended_hook.deep_view(),
            first_short_break_began_hook: self.first_short_break_began_hook.deep_view(),
            first_short_break_running_hook: self.first_short_break_running_hook.deep_view(),
            first_short_break_paused_hook: self.first_short_break_paused_hook.deep_view(),
            first_short_break_resumed_hook: self.first_short_break_resumed_hook.deep_view(),
            first_short_break_ended_hook: self.first_short_break_ended_hook.deep_view(),
            second_short_break_began_hook: self.second_short_break_began_hook.deep_view(),
            second_short_break_running_hook: self.second_short_break_running_hook.deep_view(),
            second_short_break_paused_hook: self.second_short_break_paused_hook.deep_view(),
            second_short_break_resumed_hook: self.second_short_break_resumed_hook.deep_view(),
            second_short_break_ended_hook: self.second_short_break_ended_hook.deep_view(),
            long_break_began_hook: self.long_break_began_hook.deep_view(),
            long_break_running_hook: self.long_break_running_hook.deep_view(),
            long_break_paused_hook: self.long_break_paused_hook.deep_view(),
            long_break_resumed_hook: self.long_break_resumed_hook.deep_view(),
            long_break_ended_hook: self.long_break_ended_hook.deep_view(),
        }
    }
}

impl HooksModel {
    /// These hooks, each falling back on the hook of `fallback` where it is
    /// not set.
    pub open spec fn merged(self, fallback: HooksModel) -> HooksModel {
        HooksModel {
            server_started_hook: first_present(
                self.server_started_hook,
                fallback.server_started_hook,
            ),
            server_stopping_hook: first_present(
                self.server_stopping_hook,
                fallback.server_stopping_hook,
            ),
            server_stopped_hook: first_present(
                self.server_stopped_hook,
                fallback.server_stopped_hook,
            ),
            timer_started_hook: first_present(
                self.timer_started_hook,
                fallback.timer_started_hook,
            ),
            timer_stopped_hook: first_present(
                self.timer_stopped_hook,
                fallback.timer_stopped_hook,
            ),
            work_began_hook: first_present(
                self.work_began_hook,
                fallback.work_began_hook,
            ),
            work_running_hook: first_present(
                self.work_running_hook,
                fallback.work_running_hook,
            ),
            work_paused_hook: first_present(
                self.work_paused_hook,
                fallback.work_paused_hook,
            ),
            work_resumed_hook: first_present(
                self.work_resumed_hook,
                fallback.work_resumed_hook,
            ),
            work_ended_hook: first_present(
                self.work_ended_hook,
                fallback.work_ended_hook,
            ),
            first_work_began_hook: first_present(
                self.first_work_began_hook,
                fallback.first_work_began_hook,
            ),
            first_work_running_hook: first_present(
                self.first_work_running_hook,
                fallback.first_work_running_hook,
            ),
            first_work_paused_hook: first_present(
                self.first_work_paused_hook,
                fallback.first_work_paused_hook,
            ),
            first_work_resumed_hook: first_present(
                self.first_work_resumed_hook,
                fallback.first_work_resumed_hook,
            ),
            first_work_ended_hook: first_present(
                self.first_work_ended_hook,
                fallback.first_work_ended_hook,
            ),
            second_work_began_hook: first_present(
                self.second_work_began_hook,
                fallback.second_work_began_hook,
            ),
            second_work_running_hook: first_present(
                self.second_work_running_hook,
                fallback.second_work_running_hook,
            ),
            second_work_paused_hook: first_present(
                self.second_work_paused_hook,
                fallback.second_work_paused_hook,
            ),
            second_work_resumed_hook: first_present(
                self.second_work_resumed_hook,
                fallback.second_work_resumed_hook,
            ),
            second_work_ended_hook: first_present(
                self.second_work_ended_hook,
                fallback.second_work_ended_hook,
            ),
            short_break_began_hook: first_present(
                self.short_break_began_hook,
                fallback.short_break_began_hook,
            ),
            short_break_running_hook: first_present(
                self.short_break_running_hook,
                fallback.short_break_running_hook,
            ),
            short_break_paused_hook: first_present(
                self.short_break_paused_hook,
                fallback.short_break_paused_hook,
            ),
            short_break_resumed_hook: first_present(
                self.short_break_resumed_hook,
                fallback.short_break_resumed_hook,
            ),
            short_break_ended_hook: first_present(
                self.short_break_ended_hook,
                fallback.short_break_ended_hook,
            ),
            first_short_break_began_hook: first_present(
                self.first_short_break_began_hook,
                fallback.first_short_break_began_hook,
            ),
            first_short_break_running_hook: first_present(
                self.first_short_break_running_hook,
                fallback.first_short_break_running_hook,
            ),
            first_short_break_paused_hook: first_present(
                self.first_short_break_paused_hook,
                fallback.first_short_break_paused_hook,
            ),
            first_short_break_resumed_hook: first_present(
                self.first_short_break_resumed_hook,
                fallback.first_short_break_resumed_hook,
            ),
            first_short_break_ended_hook: first_present(
                self.first_short_break_ended_hook,
                fallback.first_short_break_ended_hook,
            ),
            second_short_break_began_hook: first_present(
                self.second_short_break_began_hook,
                fallback.second_short_break_began_hook,
            ),
            second_short_break_running_hook: first_present(
                self.second_short_break_running_hook,
                fallback.second_short_break_running_hook,
            ),
            second_short_break_paused_hook: first_present(
                self.second_short_break_paused_hook,
                fallback.second_short_break_paused_hook,
            ),
            second_short_break_resumed_hook: first_present(
                self.second_short_break_resumed_hook,
                fallback.second_short_break_resumed_hook,
            ),
            second_short_break_ended_hook: first_present(
                self.second_short_break_ended_hook,
                fallback.second_short_break_ended_hook,
            ),
            long_break_began_hook: first_present(
                self.long_break_began_hook,
                fallback.long_break_began_hook,
            ),
            long_break_running_hook: first_present(
                self.long_break_running_hook,
                fallback.long_break_running_hook,
            ),
            long_break_paused_hook: first_present(
                self.long_break_paused_hook,
                fallback.long_break_paused_hook,
            ),
            long_break_resumed_hook: first_present(
                self.long_break_resumed_hook,
                fallback.long_break_resumed_hook,
            ),
            long_break_ended_hook: first_present(
                self.long_break_ended_hook,
                fallback.long_break_ended_hook,
            ),
        }
    }

    /// The hook bound to an event of the server.
    pub open spec fn server_hook(self, event: ServerEvent) -> Option<Seq<char>> {
        match event {
            ServerEvent::Started => self.server_started_hook,
            ServerEvent::Stopping => self.server_stopping_hook,
            ServerEvent::Stopped => self.server_stopped_hook,
        }
    }

    /// The hook bound to a phase of work cycles in general.
    pub open spec fn work_hook(self, event: PomodoroEvent) -> Option<Seq<char>> {
        match event {
            PomodoroEvent::Began(_) => self.work_began_hook,
            PomodoroEvent::Running(_) => self.work_running_hook,
            PomodoroEvent::Paused(_) => self.work_paused_hook,
            PomodoroEvent::Resumed(_) => self.work_resumed_hook,
            PomodoroEvent::Ended(_) => self.work_ended_hook,
            _ => None,
        }
    }

    /// The hook bound to a phase of short breaks in general.
    pub open spec fn short_break_hook(self, event: PomodoroEvent) -> Option<Seq<char>> {
        match event {
            PomodoroEvent::Began(_) => self.short_break_began_hook,
            PomodoroEvent::Running(_) => self.short_break_running_hook,
            PomodoroEvent::Paused(_) => self.short_break_paused_hook,
            PomodoroEvent::Resumed(_) => self.short_break_resumed_hook,
            PomodoroEvent::Ended(_) => self.short_break_ended_hook,
            _ => None,
        }
    }

    /// The hook bound to this very event: to the timer's start or stop, or to
    /// a phase of one particular cycle of the plan.
    pub open spec fn own_hook(self, event: PomodoroEvent) -> Option<Seq<char>> {
        match event {
            PomodoroEvent::Started => self.timer_started_hook,
            PomodoroEvent::Stopped => self.timer_stopped_hook,
            PomodoroEvent::Began(PomodoroCycle::FirstWork) => {
                self.first_work_began_hook
            },
            PomodoroEvent::Began(PomodoroCycle::FirstShortBreak) => {
                self.first_short_break_began_hook
            },
            PomodoroEvent::Began(PomodoroCycle::SecondWork) => {
                self.second_work_began_hook
            },
            PomodoroEvent::Began(PomodoroCycle::SecondShortBreak) => {
                self.second_short_break_began_hook
            },
            PomodoroEvent::Began(PomodoroCycle::LongBreak) => {
                self.long_break_began_hook
            },
            PomodoroEvent::Running(PomodoroCycle::FirstWork) => {
                self.first_work_running_hook
            },
            PomodoroEvent::Running(PomodoroCycle::FirstShortBreak) => {
                self.first_short_break_running_hook
            },
            PomodoroEvent::Running(PomodoroCycle::SecondWork) => {
                self.second_work_running_hook
            },
            PomodoroEvent::Running(PomodoroCycle::SecondShortBreak) => {
                self.second_short_break_running_hook
            },
            PomodoroEvent::Running(PomodoroCycle::LongBreak) => {
                self.long_break_running_hook
            },
            PomodoroEvent::Paused(PomodoroCycle::FirstWork) => {
                self.first_work_paused_hook
            },
            PomodoroEvent::Paused(PomodoroCycle::FirstShortBreak) => {
                self.first_short_break_paused_hook
            },
            PomodoroEvent::Paused(PomodoroCycle::SecondWork) => {
                self.second_work_paused_hook
            },
            PomodoroEvent::Paused(PomodoroCycle::SecondShortBreak) => {
                self.second_short_break_paused_hook
            },
            PomodoroEvent::Paused(PomodoroCycle::LongBreak) => {
                self.long_break_paused_hook
            },
            PomodoroEvent::Resumed(PomodoroCycle::FirstWork) => {
                self.first_work_resumed_hook
            },
            PomodoroEvent::Resumed(PomodoroCycle::FirstShortBreak) => {
                self.first_short_break_resumed_hook
            },
            PomodoroEvent::Resumed(PomodoroCycle::SecondWork) => {
                self.second_work_resumed_hook
            },
            PomodoroEvent::Resumed(PomodoroCycle::SecondShortBreak) => {
                self.second_short_break_resumed_hook
            },
            PomodoroEvent::Resumed(PomodoroCycle::LongBreak) => {
                self.long_break_resumed_hook
            },
            PomodoroEvent::Ended(PomodoroCycle::FirstWork) => {
                self.first_work_ended_hook
            },
            PomodoroEvent::Ended(PomodoroCycle::FirstShortBreak) => {
                self.first_short_break_ended_hook
            },
            PomodoroEvent::Ended(PomodoroCycle::SecondWork) => {
                self.second_work_ended_hook
            },
            PomodoroEvent::Ended(PomodoroCycle::SecondShortBreak) => {
                self.second_short_break_ended_hook
            },
            PomodoroEvent::Ended(PomodoroCycle::LongBreak) => {
                self.long_break_ended_hook
            },
        }
    }

    /// The hook that an event shares with the other occurrences of its kind
    /// of cycle: a long break, the start and the stop have none.
    pub open spec fn general_hook(self, event: PomodoroEvent) -> Option<Seq<char>> {
        match event {
            PomodoroEvent::Started | PomodoroEvent::Stopped => None,
            PomodoroEvent::Began(cycle)
            | PomodoroEvent::Running(cycle)
            | PomodoroEvent::Paused(cycle)
            | PomodoroEvent::Resumed(cycle)
            | PomodoroEvent::Ended(cycle) => match cycle {
                PomodoroCycle::FirstWork | PomodoroCycle::SecondWork => self.work_hook(event),
                PomodoroCycle::FirstShortBreak | PomodoroCycle::SecondShortBreak => {
                    self.short_break_hook(event)
                },
                PomodoroCycle::LongBreak => None,
            },
        }
    }

    /// The commands that an event runs, in the order in which they run: the
    /// general hook of its kind of cycle first, then its own.
    pub open spec fn commands(self, event: HookEvent) -> Seq<Seq<char>> {
        match event {
            HookEvent::Server(e) => present(None, self.server_hook(e)),
            HookEvent::Timer(e) => present(self.general_hook(e), self.own_hook(e)),
        }
    }
}

impl Clone for HooksConfig {
    fn clone(&self) -> (copy: Self)
        ensures
            copy@ == self@,
    {
        HooksConfig {
            server_started_hook: duplicate(&self.server_started_hook),
            server_stopping_hook: duplicate(&self.server_stopping_hook),
            server_stopped_hook: duplicate(&self.server_stopped_hook),
            timer_started_hook: duplicate(&self.timer_started_hook),
            timer_stopped_hook: duplicate(&self.timer_stopped_hook),
            work_began_hook: duplicate(&self.work_began_hook),
            work_running_hook: duplicate(&self.work_running_hook),
            work_paused_hook: duplicate(&self.work_paused_hook),
            work_resumed_hook: duplicate(&self.work_resumed_hook),
            work_ended_hook: duplicate(&self.work_ended_hook),
            first_work_began_hook: duplicate(&self.first_work_began_hook),
            first_work_running_hook: duplicate(&self.first_work_running_hook),
            first_work_paused_hook: duplicate(&self.first_work_paused_hook),
            first_work_resumed_hook: duplicate(&self.first_work_resumed_hook),
            first_work_ended_hook: duplicate(&self.first_work_ended_hook),
            second_work_began_hook: duplicate(&self.second_work_began_hook),
            second_work_running_hook: duplicate(&self.second_work_running_hook),
            second_work_paused_hook: duplicate(&self.second_work_paused_hook),
            second_work_resumed_hook: duplicate(&self.second_work_resumed_hook),
            second_work_ended_hook: duplicate(&self.second_work_ended_hook),
            short_break_began_hook: duplicate(&self.short_break_began_hook),
            short_break_running_hook: duplicate(&self.short_break_running_hook),
            short_break_paused_hook: duplicate(&self.short_break_paused_hook),
            short_break_resumed_hook: duplicate(&self.short_break_resumed_hook),
            short_break_ended_hook: duplicate(&self.short_break_ended_hook),
            first_short_break_began_hook: duplicate(&self.first_short_break_began_hook),
            first_short_break_running_hook: duplicate(&self.first_short_break_running_hook),
            first_short_break_paused_hook: duplicate(&self.first_short_break_paused_hook),
            first_short_break_resumed_hook: duplicate(&self.first_short_break_resumed_hook),
            first_short_break_ended_hook: duplicate(&self.first_short_break_ended_hook),
            second_short_break_began_hook: duplicate(&self.second_short_break_began_hook),
            second_short_break_running_hook: duplicate(&self.second_short_break_running_hook),
            second_short_break_paused_hook: duplicate(&self.second_short_break_paused_hook),
            second_short_break_resumed_hook: duplicate(&self.second_short_break_resumed_hook),
            second_short_break_ended_hook: duplicate(&self.second_short_break_ended_hook),
            long_break_began_hook: duplicate(&self.long_break_began_hook),
            long_break_running_hook: duplicate(&self.long_break_running_hook),
            long_break_paused_hook: duplicate(&self.long_break_paused_hook),
            long_break_resumed_hook: duplicate(&self.long_break_resumed_hook),
            long_break_ended_hook: duplicate(&self.long_break_ended_hook),
        }
    }
}

impl HooksConfig {
    /// Fills every hook that is not set from the hooks that the
    /// configuration holds for all presets; a hook that is set stays as it
    /// is.
    pub fn merge_with(self, config: &Config) -> (merged: Self)
        ensures
            merged@ == self@.merged(config.hooks@),
    {
        HooksConfig {
            server_started_hook: or_fallback(
                self.server_started_hook,
                &config.hooks.server_started_hook,
            ),
            server_stopping_hook: or_fallback(
                self.server_stopping_hook,
                &config.hooks.server_stopping_hook,
            ),
            server_stopped_hook: or_fallback(
                self.server_stopped_hook,
                &config.hooks.server_stopped_hook,
            ),
            timer_started_hook: or_fallback(
                self.timer_started_hook,
                &config.hooks.timer_started_hook,
            ),
            timer_stopped_hook: or_fallback(
                self.timer_stopped_hook,
                &config.hooks.timer_stopped_hook,
            ),
            work_began_hook: or_fallback(
                self.work_began_hook,
                &config.hooks.work_began_hook,
            ),
            work_running_hook: or_fallback(
                self.work_running_hook,
                &config.hooks.work_running_hook,
            ),
            work_paused_hook: or_fallback(
                self.work_paused_hook,
                &config.hooks.work_paused_hook,
            ),
            work_resumed_hook: or_fallback(
                self.work_resumed_hook,
                &config.hooks.work_resumed_hook,
            ),
            work_ended_hook: or_fallback(
                self.work_ended_hook,
                &config.hooks.work_ended_hook,
            ),
            first_work_began_hook: or_fallback(
                self.first_work_began_hook,
                &config.hooks.first_work_began_hook,
            ),
            first_work_running_hook: or_fallback(
                self.first_work_running_hook,
                &config.hooks.first_work_running_hook,
            ),
            first_work_paused_hook: or_fallback(
                self.first_work_paused_hook,
                &config.hooks.first_work_paused_hook,
            ),
            first_work_resumed_hook: or_fallback(
                self.first_work_resumed_hook,
                &config.hooks.first_work_resumed_hook,
            ),
            first_work_ended_hook: or_fallback(
                self.first_work_ended_hook,
                &config.hooks.first_work_ended_hook,
            ),
            second_work_began_hook: or_fallback(
                self.second_work_began_hook,
                &config.hooks.second_work_began_hook,
            ),
            second_work_running_hook: or_fallback(
                self.second_work_running_hook,
                &config.hooks.second_work_running_hook,
            ),
            second_work_paused_hook: or_fallback(
                self.second_work_paused_hook,
                &config.hooks.second_work_paused_hook,
            ),
            second_work_resumed_hook: or_fallback(
                self.second_work_resumed_hook,
                &config.hooks.second_work_resumed_hook,
            ),
            second_work_ended_hook: or_fallback(
                self.second_work_ended_hook,
                &config.hooks.second_work_ended_hook,
            ),
            short_break_began_hook: or_fallback(
                self.short_break_began_hook,
                &config.hooks.short_break_began_hook,
            ),
            short_break_running_hook: or_fallback(
                self.short_break_running_hook,
                &config.hooks.short_break_running_hook,
            ),
            short_break_paused_hook: or_fallback(
                self.short_break_paused_hook,
                &config.hooks.short_break_paused_hook,
            ),
            short_break_resumed_hook: or_fallback(
                self.short_break_resumed_hook,
                &config.hooks.short_break_resumed_hook,
            ),
            short_break_ended_hook: or_fallback(
                self.short_break_ended_hook,
                &config.hooks.short_break_ended_hook,
            ),
            first_short_break_began_hook: or_fallback(
                self.first_short_break_began_hook,
                &config.hooks.first_short_break_began_hook,
            ),
            first_short_break_running_hook: or_fallback(
                self.first_short_break_running_hook,
                &config.hooks.first_short_break_running_hook,
            ),
            first_short_break_paused_hook: or_fallback(
                self.first_short_break_paused_hook,
                &config.hooks.first_short_break_paused_hook,
            ),
            first_short_break_resumed_hook: or_fallback(
                self.first_short_break_resumed_hook,
                &config.hooks.first_short_break_resumed_hook,
            ),
            first_short_break_ended_hook: or_fallback(
                self.first_short_break_ended_hook,
                &config.hooks.first_short_break_ended_hook,
            ),
            second_short_break_began_hook: or_fallback(
                self.second_short_break_began_hook,
                &config.hooks.second_short_break_began_hook,
            ),
            second_short_break_running_hook: or_fallback(
                self.second_short_break_running_hook,
                &config.hooks.second_short_break_running_hook,
            ),
            second_short_break_paused_hook: or_fallback(
                self.second_short_break_paused_hook,
                &config.hooks.second_short_break_paused_hook,
            ),
            second_short_break_resumed_hook: or_fallback(
                self.second_short_break_resumed_hook,
                &config.hooks.second_short_break_resumed_hook,
            ),
            second_short_break_ended_hook: or_fallback(
                self.second_short_break_ended_hook,
                &config.hooks.second_short_break_ended_hook,
            ),
            long_break_began_hook: or_fallback(
                self.long_break_began_hook,
                &config.hooks.long_break_began_hook,
            ),
            long_break_running_hook: or_fallback(
                self.long_break_running_hook,
                &config.hooks.long_break_running_hook,
            ),
            long_break_paused_hook: or_fallback(
                self.long_break_paused_hook,
                &config.hooks.long_break_paused_hook,
            ),
            long_break_resumed_hook: or_fallback(
                self.long_break_resumed_hook,
                &config.hooks.long_break_resumed_hook,
            ),
            long_break_ended_hook: or_fallback(
                self.long_break_ended_hook,
                &config.hooks.long_break_ended_hook,
            ),
        }
    }

    /// The commands that a server event runs: its hook, if one is set.
    pub fn server_commands(&self, event: ServerEvent) -> (commands: Vec<String>)
        ensures
            commands.deep_view() == self@.commands(HookEvent::Server(event)),
    {
        let none: Option<String> = None;
        match event {
            ServerEvent::Started => in_order(&none, &self.server_started_hook),
            ServerEvent::Stopping => in_order(&none, &self.server_stopping_hook),
            ServerEvent::Stopped => in_order(&none, &self.server_stopped_hook),
        }
    }

    /// The commands that a timer event runs, in order: for a work or a short
    /// break the general hook of the phase and then the hook of that
    /// occurrence, for anything else its one hook; hooks that are not set are
    /// left out.
    pub fn timer_commands(&self, event: PomodoroEvent) -> (commands: Vec<String>)
        ensures
            commands.deep_view() == self@.commands(HookEvent::Timer(event)),
    {
        let none: Option<String> = None;
        match event {
            PomodoroEvent::Started => in_order(&none, &self.timer_started_hook),
            PomodoroEvent::Stopped => in_order(&none, &self.timer_stopped_hook),
            PomodoroEvent::Began(PomodoroCycle::FirstWork) => in_order(
                &self.work_began_hook,
                &self.first_work_began_hook,
            ),
            PomodoroEvent::Began(PomodoroCycle::FirstShortBreak) => in_order(
                &self.short_break_began_hook,
                &self.first_short_break_began_hook,
            ),
            PomodoroEvent::Began(PomodoroCycle::SecondWork) => in_order(
                &self.work_began_hook,
                &self.second_work_began_hook,
            ),
            PomodoroEvent::Began(PomodoroCycle::SecondShortBreak) => in_order(
                &self.short_break_began_hook,
                &self.second_short_break_began_hook,
            ),
            PomodoroEvent::Began(PomodoroCycle::LongBreak) => in_order(
                &none,
                &self.long_break_began_hook,
            ),
            PomodoroEvent::Running(PomodoroCycle::FirstWork) => in_order(
                &self.work_running_hook,
                &self.first_work_running_hook,
            ),
            PomodoroEvent::Running(PomodoroCycle::FirstShortBreak) => in_order(
                &self.short_break_running_hook,
                &self.first_short_break_running_hook,
            ),
            PomodoroEvent::Running(PomodoroCycle::SecondWork) => in_order(
                &self.work_running_hook,
                &self.second_work_running_hook,
            ),
            PomodoroEvent::Running(PomodoroCycle::SecondShortBreak) => in_order(
                &self.short_break_running_hook,
                &self.second_short_break_running_hook,
            ),
            PomodoroEvent::Running(PomodoroCycle::LongBreak) => in_order(
                &none,
                &self.long_break_running_hook,
            ),
            PomodoroEvent::Paused(PomodoroCycle::FirstWork) => in_order(
                &self.work_paused_hook,
                &self.first_work_paused_hook,
            ),
            PomodoroEvent::Paused(PomodoroCycle::FirstShortBreak) => in_order(
                &self.short_break_paused_hook,
                &self.first_short_break_paused_hook,
            ),
            PomodoroEvent::Paused(PomodoroCycle::SecondWork) => in_order(
                &self.work_paused_hook,
                &self.second_work_paused_hook,
            ),
            PomodoroEvent::Paused(PomodoroCycle::SecondShortBreak) => in_order(
                &self.short_break_paused_hook,
                &self.second_short_break_paused_hook,
            ),
            PomodoroEvent::Paused(PomodoroCycle::LongBreak) => in_order(
                &none,
                &self.long_break_paused_hook,
            ),
            PomodoroEvent::Resumed(PomodoroCycle::FirstWork) => in_order(
                &self.work_resumed_hook,
                &self.first_work_resumed_hook,
            ),
            PomodoroEvent::Resumed(PomodoroCycle::FirstShortBreak) => in_order(
                &self.short_break_resumed_hook,
                &self.first_short_break_resumed_hook,
            ),
            PomodoroEvent::Resumed(PomodoroCycle::SecondWork) => in_order(
                &self.work_resumed_hook,
                &self.second_work_resumed_hook,
            ),
            PomodoroEvent::Resumed(PomodoroCycle::SecondShortBreak) => in_order(
                &self.short_break_resumed_hook,
                &self.second_short_break_resumed_hook,
            ),
            PomodoroEvent::Resumed(PomodoroCycle::LongBreak) => in_order(
                &none,
                &self.long_break_resumed_hook,
            ),
            PomodoroEvent::Ended(PomodoroCycle::FirstWork) => in_order(
                &self.work_ended_hook,
                &self.first_work_ended_hook,
            ),
            PomodoroEvent::Ended(PomodoroCycle::FirstShortBreak) => in_order(
                &self.short_break_ended_hook,
                &self.first_short_break_ended_hook,
            ),
            PomodoroEvent::Ended(PomodoroCycle::SecondWork) => in_order(
                &self.work_ended_hook,
                &self.second_work_ended_hook,
            ),
            PomodoroEvent::Ended(PomodoroCycle::SecondShortBreak) => in_order(
                &self.short_break_ended_hook,
                &self.second_short_break_ended_hook,
            ),
            PomodoroEvent::Ended(PomodoroCycle::LongBreak) => in_order(
                &none,
                &self.long_break_ended_hook,
            ),
        }
    }

    /// The commands that an event runs once these hooks have been completed
    /// from those of the configuration, in the order in which they run.
    pub fn apply(&self, config: &Config, event: HookEvent) -> (commands: Vec<String>)
        ensures
            commands.deep_view() == self@.merged(config.hooks@).commands(event),
    {
        let merged = self.clone().merge_with(config);
        match event {
            HookEvent::Server(e) => merged.server_commands(e),
            HookEvent::Timer(e) => merged.timer_commands(e),
        }
    }
}

} // verus!
