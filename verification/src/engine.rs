//! The timer engine: a state machine that follows the plan one second per
//! tick and answers start, pause, resume and stop.
//!
//! Every operation is stated over [`TimerModel`], the mathematical value of a
//! [`Timer`], and returns the events of the transitions it made, in the order
//! in which they happened.

use vstd::prelude::*;
use crate::timer::{
    ConfigError, ConfigModel, CycleModel, EventModel, TimerConfig, TimerCycle, TimerError,
    TimerEvent, TimerLoop, TimerState,
};

verus! {

/// Mathematical value of a [`TimerSnapshot`].
pub struct SnapshotModel {
    pub state: TimerState,
    pub cycle: CycleModel,
    pub cycle_index: nat,
    pub loop_count: nat,
}

/// A copy of what a timer shows at one moment: its state, the active cycle
/// with the seconds left of it, the position of that cycle in the plan and
/// the number of completed passes through the plan.
#[derive(Debug, PartialEq, Eq)]
pub struct TimerSnapshot {
    pub state: TimerState,
    pub cycle: TimerCycle,
    pub cycle_index: u64,
    pub loop_count: u64,
}

impl View for TimerSnapshot {
    type V = SnapshotModel;

    open spec fn view(&self) -> SnapshotModel {
        SnapshotModel {
            state: self.state,
            cycle: self.cycle@,
            cycle_index: self.cycle_index as nat,
            loop_count: self.loop_count as nat,
        }
    }
}

impl Clone for TimerSnapshot {
    fn clone(&self) -> (copy: Self)
        ensures
            copy@ == self@,
    {
        TimerSnapshot {
            state: self.state,
            cycle: self.cycle.clone(),
            cycle_index: self.cycle_index,
            loop_count: self.loop_count,
        }
    }
}

/// Mathematical value of a [`Timer`].
pub struct TimerModel {
    pub config: ConfigModel,
    pub state: TimerState,
    pub cycle_index: nat,
    pub remaining: nat,
    pub loop_count: nat,
}

/// The largest number of completed passes that a timer counts; the count
/// stays there instead of overflowing.
pub open spec fn loop_count_limit() -> nat {
    u64::MAX as nat
}

impl TimerModel {
    /// The timer at rest on a plan: stopped, on the first cycle, with all of
    /// that cycle left and no pass completed.
    pub open spec fn at_rest(config: ConfigModel) -> TimerModel {
        TimerModel {
            config,
            state: TimerState::Stopped,
            cycle_index: 0,
            remaining: config.plan[0].duration,
            loop_count: 0,
        }
    }

    /// The invariant of the engine: the plan is usable, the position lies in
    /// it, a stopped timer is at rest, and an active cycle has between one
    /// second and its full length left.
    pub open spec fn wf(self) -> bool {
        &&& self.config.wf()
        &&& self.cycle_index < self.config.plan.len()
        &&& self.loop_count <= loop_count_limit()
        &&& self.state is Stopped ==> self == TimerModel::at_rest(self.config)
        &&& !(self.state is Stopped) ==> 1 <= self.remaining
            <= self.config.plan[self.cycle_index as int].duration
    }

    /// The active cycle with the seconds that are left of it.
    pub open spec fn current(self) -> CycleModel {
        CycleModel {
            name: self.config.plan[self.cycle_index as int].name,
            duration: self.remaining,
        }
    }

    /// What a client is shown of the timer.
    pub open spec fn snapshot(self) -> SnapshotModel {
        SnapshotModel {
            state: self.state,
            cycle: self.current(),
            cycle_index: self.cycle_index,
            loop_count: self.loop_count,
        }
    }

    /// The timer at the beginning of the cycle at `index`, running, with
    /// `loops` passes completed.
    pub open spec fn entering(self, index: nat, loops: nat) -> TimerModel {
        TimerModel {
            config: self.config,
            state: TimerState::Running,
            cycle_index: index,
            remaining: self.config.plan[index as int].duration,
            loop_count: loops,
        }
    }

    /// Why `start` is refused, if it is.
    pub open spec fn start_error(self) -> Option<TimerError> {
        if self.state is Stopped {
            None
        } else {
            Some(TimerError::AlreadyStarted)
        }
    }

    /// The timer after a `start` that was accepted.
    pub open spec fn started(self) -> TimerModel {
        self.entering(0, 0)
    }

    /// The events of a `start` that was accepted.
    pub open spec fn start_events(self) -> Seq<EventModel> {
        seq![EventModel::Started, EventModel::Began(self.config.plan[0])]
    }

    /// Why `pause` is refused, if it is.
    pub open spec fn pause_error(self) -> Option<TimerError> {
        if self.state is Running {
            None
        } else {
            Some(TimerError::NotRunning)
        }
    }

    /// The timer after a `pause` that was accepted.
    pub open spec fn paused(self) -> TimerModel {
        TimerModel { state: TimerState::Paused, ..self }
    }

    /// The events of a `pause` that was accepted.
    pub open spec fn pause_events(self) -> Seq<EventModel> {
        seq![EventModel::Paused(self.current())]
    }

    /// Why `resume` is refused, if it is.
    pub open spec fn resume_error(self) -> Option<TimerError> {
        if self.state is Paused {
            None
        } else {
            Some(TimerError::NotPaused)
        }
    }

    /// The timer after a `resume` that was accepted.
    pub open spec fn resumed(self) -> TimerModel {
        TimerModel { state: TimerState::Running, ..self }
    }

    /// The events of a `resume` that was accepted.
    pub open spec fn resume_events(self) -> Seq<EventModel> {
        seq![EventModel::Resumed(self.current())]
    }

    /// Why `stop` is refused, if it is.
    pub open spec fn stop_error(self) -> Option<TimerError> {
        if self.state is Stopped {
            Some(TimerError::NotStarted)
        } else {
            None
        }
    }

    /// The timer after a `stop` that was accepted.
    pub open spec fn stopped(self) -> TimerModel {
        TimerModel::at_rest(self.config)
    }

    /// The events of a `stop` that was accepted.
    pub open spec fn stop_events(self) -> Seq<EventModel> {
        seq![EventModel::Stopped]
    }

    /// Seconds left of the active cycle once one more has elapsed; never
    /// below zero.
    pub open spec fn left_after_tick(self) -> nat {
        if self.remaining > 0 {
            (self.remaining - 1) as nat
        } else {
            0
        }
    }

    /// Passes completed once the present one ends.
    pub open spec fn loops_after_pass(self) -> nat {
        if self.loop_count < loop_count_limit() {
            self.loop_count + 1
        } else {
            self.loop_count
        }
    }

    /// The active cycle is the last of the plan.
    pub open spec fn on_last_cycle(self) -> bool {
        self.cycle_index + 1 >= self.config.plan.len()
    }

    /// The pass that is under way is the last one that the repeat policy
    /// allows.
    pub open spec fn on_last_pass(self) -> bool {
        match self.config.cycles_count {
            TimerLoop::Infinite => false,
            TimerLoop::Fixed(n) => self.loops_after_pass() >= n,
        }
    }

    /// The timer after one tick.
    ///
    /// A timer that is not running ignores the tick. A running one loses a
    /// second; when none is left the cycle ends and the next one begins, the
    /// first one again after the last, unless the repeat policy is fulfilled,
    /// in which case the timer comes to rest.
    pub open spec fn ticked(self) -> TimerModel {
        if !(self.state is Running) {
            self
        } else if self.left_after_tick() > 0 {
            TimerModel { remaining: self.left_after_tick(), ..self }
        } else if !self.on_last_cycle() {
            self.entering(self.cycle_index + 1, self.loop_count)
        } else if self.on_last_pass() {
            TimerModel::at_rest(self.config)
        } else {
            self.entering(0, self.loops_after_pass())
        }
    }

    /// The cycle that just ran out, as events carry it.
    pub open spec fn ended_cycle(self) -> CycleModel {
        CycleModel { name: self.config.plan[self.cycle_index as int].name, duration: 0 }
    }

    /// The events of one tick, in order: `Running` while the cycle goes on;
    /// at its end `Ended`, followed by `Began` for the next cycle or by
    /// `Stopped` when the timer comes to rest.
    pub open spec fn tick_events(self) -> Seq<EventModel> {
        if !(self.state is Running) {
            Seq::<EventModel>::empty()
        } else if self.left_after_tick() > 0 {
            seq![
                EventModel::Running(
                    CycleModel {
                        name: self.config.plan[self.cycle_index as int].name,
                        duration: self.left_after_tick(),
                    },
                ),
            ]
        } else if !self.on_last_cycle() {
            seq![
                EventModel::Ended(self.ended_cycle()),
                EventModel::Began(self.config.plan[self.cycle_index as int + 1]),
            ]
        } else if self.on_last_pass() {
            seq![EventModel::Ended(self.ended_cycle()), EventModel::Stopped]
        } else {
            seq![EventModel::Ended(self.ended_cycle()), EventModel::Began(self.config.plan[0])]
        }
    }
}

/// The one timer of a server: the plan it follows and where it stands in it.
#[derive(Debug)]
pub struct Timer {
    config: TimerConfig,
    state: TimerState,
    cycle_index: usize,
    remaining: u64,
    loop_count: u64,
}

impl View for Timer {
    type V = TimerModel;

    closed spec fn view(&self) -> TimerModel {
        TimerModel {
            config: self.config@,
            state: self.state,
            cycle_index: self.cycle_index as nat,
            remaining: self.remaining as nat,
            loop_count: self.loop_count as nat,
        }
    }
}

impl Timer {
    /// The invariant that every operation keeps.
    pub open spec fn wf(&self) -> bool {
        self@.wf()
    }

    /// Creates the timer of a plan, at rest. A plan that
    /// [`TimerConfig::validate`] refuses is refused here, with the same
    /// error.
    pub fn new(config: TimerConfig) -> (made: Result<Timer, ConfigError>)
        ensures
            made is Ok <==> config@.wf(),
            made matches Ok(timer) ==> timer.wf() && timer@ == TimerModel::at_rest(config@),
            made matches Err(ConfigError::EmptyPlan) <==> config.cycles.len() == 0,
            made matches Err(ConfigError::ZeroDuration(at)) ==> config@.first_zero_at(at as int),
    {
        match config.validate() {
            Err(e) => Err(e),
            Ok(()) => {
                let remaining = config.cycles[0].duration;
                Ok(
                    Timer {
                        config,
                        state: TimerState::Stopped,
                        cycle_index: 0,
                        remaining,
                        loop_count: 0,
                    },
                )
            },
        }
    }

    /// The plan that the timer follows.
    pub fn config(&self) -> (config: &TimerConfig)
        ensures
            config@ == self@.config,
    {
        &self.config
    }

    /// What the timer is doing.
    pub fn state(&self) -> (state: TimerState)
        ensures
            state == self@.state,
    {
        self.state
    }

    /// Position of the active cycle in the plan.
    pub fn cycle_index(&self) -> (index: usize)
        ensures
            index == self@.cycle_index,
    {
        self.cycle_index
    }

    /// Seconds left of the active cycle.
    pub fn remaining(&self) -> (seconds: u64)
        ensures
            seconds == self@.remaining,
    {
        self.remaining
    }

    /// Passes through the plan completed since the last start.
    pub fn loop_count(&self) -> (loops: u64)
        ensures
            loops == self@.loop_count,
    {
        self.loop_count
    }

    fn cycle_at(&self, index: usize, duration: u64) -> (cycle: TimerCycle)
        requires
            index < self.config.cycles.len(),
        ensures
            cycle@ == (CycleModel {
                name: self@.config.plan[index as int].name,
                duration: duration as nat,
            }),
    {
        TimerCycle { name: self.config.cycles[index].name.clone(), duration }
    }

    fn rest(&mut self)
        requires
            old(self).config@.wf(),
        ensures
            final(self)@ == TimerModel::at_rest(old(self)@.config),
            final(self).config == old(self).config,
    {
        self.state = TimerState::Stopped;
        self.cycle_index = 0;
        self.remaining = self.config.cycles[0].duration;
        self.loop_count = 0;
    }

    fn enter(&mut self, index: usize, loops: u64)
        requires
            index < old(self).config.cycles.len(),
        ensures
            final(self)@ == old(self)@.entering(index as nat, loops as nat),
            final(self).config == old(self).config,
    {
        self.state = TimerState::Running;
        self.cycle_index = index;
        self.remaining = self.config.cycles[index].duration;
        self.loop_count = loops;
    }

    /// A copy of what the timer shows now. Never fails and changes nothing.
    pub fn get(&self) -> (shot: TimerSnapshot)
        requires
            self.wf(),
        ensures
            shot@ == self@.snapshot(),
    {
        TimerSnapshot {
            state: self.state,
            cycle: self.cycle_at(self.cycle_index, self.remaining),
            cycle_index: self.cycle_index as u64,
            loop_count: self.loop_count,
        }
    }

    /// Starts the plan from its first cycle. Accepted only on a stopped
    /// timer; otherwise refused with `AlreadyStarted`, the timer unchanged.
    pub fn start(&mut self) -> (outcome: Result<Vec<TimerEvent>, TimerError>)
        requires
            old(self).wf(),
        ensures
            final(self).wf(),
            match old(self)@.start_error() {
                None => {
                    &&& outcome matches Ok(events)
                    &&& events.deep_view() == old(self)@.start_events()
                    &&& final(self)@ == old(self)@.started()
                },
                Some(e) => outcome == Err::<Vec<TimerEvent>, TimerError>(e) && *final(self) == *old(
                    self,
                ),
            },
    {
        if self.state != TimerState::Stopped {
            return Err(TimerError::AlreadyStarted);
        }
        self.enter(0, 0);
        let mut events: Vec<TimerEvent> = Vec::new();
        events.push(TimerEvent::Started);
        events.push(TimerEvent::Began(self.config.cycles[0].clone()));
        assert(events.deep_view() =~= old(self)@.start_events());
        Ok(events)
    }

    /// Freezes the active cycle. Accepted only on a running timer; otherwise
    /// refused with `NotRunning`, the timer unchanged.
    pub fn pause(&mut self) -> (outcome: Result<Vec<TimerEvent>, TimerError>)
        requires
            old(self).wf(),
        ensures
            final(self).wf(),
            match old(self)@.pause_error() {
                None => {
                    &&& outcome matches Ok(events)
                    &&& events.deep_view() == old(self)@.pause_events()
                    &&& final(self)@ == old(self)@.paused()
                },
                Some(e) => outcome == Err::<Vec<TimerEvent>, TimerError>(e) && *final(self) == *old(
                    self,
                ),
            },
    {
        if self.state != TimerState::Running {
            return Err(TimerError::NotRunning);
        }
        self.state = TimerState::Paused;
        let mut events: Vec<TimerEvent> = Vec::new();
        events.push(TimerEvent::Paused(self.cycle_at(self.cycle_index, self.remaining)));
        assert(events.deep_view() =~= old(self)@.pause_events());
        Ok(events)
    }

    /// Lets a frozen cycle go on. Accepted only on a paused timer; otherwise
    /// refused with `NotPaused`, the timer unchanged.
    pub fn resume(&mut self) -> (outcome: Result<Vec<TimerEvent>, TimerError>)
        requires
            old(self).wf(),
        ensures
            final(self).wf(),
            match old(self)@.resume_error() {
                None => {
                    &&& outcome matches Ok(events)
                    &&& events.deep_view() == old(self)@.resume_events()
                    &&& final(self)@ == old(self)@.resumed()
                },
                Some(e) => outcome == Err::<Vec<TimerEvent>, TimerError>(e) && *final(self) == *old(
                    self,
                ),
            },
    {
        if self.state != TimerState::Paused {
            return Err(TimerError::NotPaused);
        }
        self.state = TimerState::Running;
        let mut events: Vec<TimerEvent> = Vec::new();
        events.push(TimerEvent::Resumed(self.cycle_at(self.cycle_index, self.remaining)));
        assert(events.deep_view() =~= old(self)@.resume_events());
        Ok(events)
    }

    /// Brings the timer to rest and clears its progress. Accepted on a
    /// running or paused timer; on a stopped one refused with `NotStarted`,
    /// the timer unchanged.
    pub fn stop(&mut self) -> (outcome: Result<Vec<TimerEvent>, TimerError>)
        requires
            old(self).wf(),
        ensures
            final(self).wf(),
            match old(self)@.stop_error() {
                None => {
                    &&& outcome matches Ok(events)
                    &&& events.deep_view() == old(self)@.stop_events()
                    &&& final(self)@ == old(self)@.stopped()
                },
                Some(e) => outcome == Err::<Vec<TimerEvent>, TimerError>(e) && *final(self) == *old(
                    self,
                ),
            },
    {
        if self.state == TimerState::Stopped {
            return Err(TimerError::NotStarted);
        }
        self.rest();
        let mut events: Vec<TimerEvent> = Vec::new();
        events.push(TimerEvent::Stopped);
        assert(events.deep_view() =~= old(self)@.stop_events());
        Ok(events)
    }

    /// Lets one second elapse. Ignored, with no event, unless the timer is
    /// running; see [`TimerModel::ticked`] and [`TimerModel::tick_events`].
    pub fn tick(&mut self) -> (events: Vec<TimerEvent>)
        requires
            old(self).wf(),
        ensures
            final(self).wf(),
            final(self)@ == old(self)@.ticked(),
            events.deep_view() == old(self)@.tick_events(),
    {
        let mut events: Vec<TimerEvent> = Vec::new();
        if self.state != TimerState::Running {
            assert(events.deep_view() =~= old(self)@.tick_events());
            return events;
        }
        let left: u64 = if self.remaining > 0 {
            self.remaining - 1
        } else {
            0
        };
        if left > 0 {
            self.remaining = left;
            events.push(TimerEvent::Running(self.cycle_at(self.cycle_index, left)));
            assert(events.deep_view() =~= old(self)@.tick_events());
            return events;
        }
        events.push(TimerEvent::Ended(self.cycle_at(self.cycle_index, 0)));
        assert(self.cycle_index < self.config.cycles.len()) by {
            assert(self.config@.plan.len() == self.config.cycles.len());
        }
        if self.cycle_index + 1 < self.config.cycles.len() {
            let next: usize = self.cycle_index + 1;
            let loops: u64 = self.loop_count;
            self.enter(next, loops);
            events.push(TimerEvent::Began(self.config.cycles[next].clone()));
            assert(events.deep_view() =~= old(self)@.tick_events());
            return events;
        }
        let loops: u64 = if self.loop_count < u64::MAX {
            self.loop_count + 1
        } else {
            self.loop_count
        };
        let last_pass: bool = match self.config.cycles_count {
            TimerLoop::Infinite => false,
            TimerLoop::Fixed(n) => loops >= n,
        };
        if last_pass {
            self.rest();
            events.push(TimerEvent::Stopped);
        } else {
            self.enter(0, loops);
            events.push(TimerEvent::Began(self.config.cycles[0].clone()));
        }
        assert(events.deep_view() =~= old(self)@.tick_events());
        events
    }
}

} // verus!
