//! The cycle plan and the values that describe a timer: cycles, repeat
//! policy, states, events and errors, each with its mathematical model.

use vstd::prelude::*;

verus! {

/// What a timer is doing.
#[derive(Clone, Copy, Debug, PartialEq, Eq, Structural)]
pub enum TimerState {
    /// No plan is being followed.
    Stopped,
    /// A cycle is active and frozen.
    Paused,
    /// A cycle is active and loses one second per tick.
    Running,
}

/// How often the plan is repeated before the timer stops by itself.
#[derive(Clone, Copy, Debug, PartialEq, Eq, Structural)]
pub enum TimerLoop {
    /// The plan is repeated until a stop is requested.
    Infinite,
    /// The timer stops by itself once the plan has been completed this many
    /// times; with a count of zero it stops after the first pass, as with a
    /// count of one.
    Fixed(u64),
}

impl TimerLoop {
    /// Reads a configured count, where zero stands for "repeat forever".
    pub fn from_count(count: u64) -> (policy: TimerLoop)
        ensures
            policy == (if count == 0 {
                TimerLoop::Infinite
            } else {
                TimerLoop::Fixed(count)
            }),
    {
        if count == 0 {
            TimerLoop::Infinite
        } else {
            TimerLoop::Fixed(count)
        }
    }
}

/// Mathematical value of a [`TimerCycle`].
pub struct CycleModel {
    pub name: Seq<char>,
    pub duration: nat,
}

/// A named phase of the plan and its length in seconds.
///
/// In a plan the duration is the full length of the cycle; in a snapshot or an
/// event it is the time that is left of it.
#[derive(Debug, PartialEq, Eq)]
pub struct TimerCycle {
    pub name: String,
    pub duration: u64,
}

impl View for TimerCycle {
    type V = CycleModel;

    open spec fn view(&self) -> CycleModel {
        CycleModel { name: self.name@, duration: self.duration as nat }
    }
}

impl DeepView for TimerCycle {
    type V = CycleModel;

    open spec fn deep_view(&self) -> CycleModel {
        self@
    }
}

impl Clone for TimerCycle {
    fn clone(&self) -> (copy: Self)
        ensures
            copy@ == self@,
    {
        TimerCycle { name: self.name.clone(), duration: self.duration }
    }
}

impl TimerCycle {
    /// Builds a cycle from its name and its length in seconds.
    pub fn new(name: &str, duration: u64) -> (cycle: Self)
        ensures
            cycle@ == (CycleModel { name: name@, duration: duration as nat }),
    {
        TimerCycle { name: name.to_owned(), duration }
    }
}

/// Mathematical value of a [`TimerEvent`].
pub enum EventModel {
    Started,
    Began(CycleModel),
    Running(CycleModel),
    SetTo(CycleModel),
    Paused(CycleModel),
    Resumed(CycleModel),
    Ended(CycleModel),
    Stopped,
}

/// One transition of the timer, as handed to whoever dispatches hooks.
#[derive(Debug, PartialEq, Eq)]
pub enum TimerEvent {
    /// The timer left `Stopped`.
    Started,
    /// A cycle became active; carries the cycle as planned.
    Began(TimerCycle),
    /// A second of the active cycle elapsed; carries the time that is left.
    Running(TimerCycle),
    /// The time left of the active cycle was overwritten.
    SetTo(TimerCycle),
    /// The active cycle was frozen; carries the time that is left.
    Paused(TimerCycle),
    /// The frozen cycle went on; carries the time that is left.
    Resumed(TimerCycle),
    /// The active cycle ran out; carries a duration of zero.
    Ended(TimerCycle),
    /// The timer returned to `Stopped`.
    Stopped,
}

impl View for TimerEvent {
    type V = EventModel;

    open spec fn view(&self) -> EventModel {
        match *self {
            TimerEvent::Started => EventModel::Started,
            TimerEvent::Began(cycle) => EventModel::Began(cycle@),
            TimerEvent::Running(cycle) => EventModel::Running(cycle@),
            TimerEvent::SetTo(cycle) => EventModel::SetTo(cycle@),
            TimerEvent::Paused(cycle) => EventModel::Paused(cycle@),
            TimerEvent::Resumed(cycle) => EventModel::Resumed(cycle@),
            TimerEvent::Ended(cycle) => EventModel::Ended(cycle@),
            TimerEvent::Stopped => EventModel::Stopped,
        }
    }
}

impl DeepView for TimerEvent {
    type V = EventModel;

    open spec fn deep_view(&self) -> EventModel {
        self@
    }
}

impl Clone for TimerEvent {
    fn clone(&self) -> (copy: Self)
        ensures
            copy@ == self@,
    {
        match self {
            TimerEvent::Started => TimerEvent::Started,
            TimerEvent::Began(cycle) => TimerEvent::Began(cycle.clone()),
            TimerEvent::Running(cycle) => TimerEvent::Running(cycle.clone()),
            TimerEvent::SetTo(cycle) => TimerEvent::SetTo(cycle.clone()),
            TimerEvent::Paused(cycle) => TimerEvent::Paused(cycle.clone()),
            TimerEvent::Resumed(cycle) => TimerEvent::Resumed(cycle.clone()),
            TimerEvent::Ended(cycle) => TimerEvent::Ended(cycle.clone()),
            TimerEvent::Stopped => TimerEvent::Stopped,
        }
    }
}

/// Why a plan was refused.
#[derive(Clone, Copy, Debug, PartialEq, Eq, Structural)]
pub enum ConfigError {
    /// The plan holds no cycle.
    EmptyPlan,
    /// The cycle at this position, the first of its kind, lasts zero seconds.
    ZeroDuration(usize),
}

/// Mathematical value of a [`TimerConfig`].
pub struct ConfigModel {
    pub plan: Seq<CycleModel>,
    pub cycles_count: TimerLoop,
}

impl ConfigModel {
    /// A plan is usable when it holds a cycle and every cycle takes time.
    pub open spec fn wf(self) -> bool {
        &&& self.plan.len() > 0
        &&& forall|i: int| 0 <= i < self.plan.len() ==> (#[trigger] self.plan[i]).duration > 0
    }

    /// Position `at` holds the first cycle of the plan that lasts zero
    /// seconds.
    pub open spec fn first_zero_at(self, at: int) -> bool {
        &&& 0 <= at < self.plan.len()
        &&& self.plan[at].duration == 0
        &&& forall|j: int| 0 <= j < at ==> (#[trigger] self.plan[j]).duration > 0
    }

    /// Seconds that one pass through the cycles from position `from` on takes.
    pub open spec fn seconds_from(self, from: int) -> nat
        decreases self.plan.len() - from,
    {
        if 0 <= from < self.plan.len() {
            self.plan[from].duration + self.seconds_from(from + 1)
        } else {
            0
        }
    }
}

/// The plan a timer follows: its cycles in order and how often they repeat.
#[derive(Debug, PartialEq, Eq)]
pub struct TimerConfig {
    pub cycles: Vec<TimerCycle>,
    pub cycles_count: TimerLoop,
}

impl View for TimerConfig {
    type V = ConfigModel;

    open spec fn view(&self) -> ConfigModel {
        ConfigModel { plan: self.cycles.deep_view(), cycles_count: self.cycles_count }
    }
}

impl Clone for TimerConfig {
    fn clone(&self) -> (copy: Self)
        ensures
            copy@ == self@,
    {
        let mut cycles: Vec<TimerCycle> = Vec::new();
        let mut i: usize = 0;
        while i < self.cycles.len()
            invariant
                i <= self.cycles.len(),
                cycles.len() == i,
                forall|j: int| 0 <= j < i ==> cycles[j]@ == self.cycles[j]@,
            decreases self.cycles.len() - i,
        {
            cycles.push(self.cycles[i].clone());
            i += 1;
        }
        assert(cycles.deep_view() =~= self.cycles.deep_view());
        TimerConfig { cycles, cycles_count: self.cycles_count }
    }
}

impl TimerConfig {
    /// Checks a plan. It is accepted when it holds at least one cycle and no
    /// cycle of zero seconds; otherwise the first fault found is reported.
    pub fn validate(&self) -> (verdict: Result<(), ConfigError>)
        ensures
            verdict is Ok <==> self@.wf(),
            verdict matches Err(ConfigError::EmptyPlan) <==> self.cycles.len() == 0,
            verdict matches Err(ConfigError::ZeroDuration(at)) ==> self@.first_zero_at(at as int),
    {
        if self.cycles.len() == 0 {
            return Err(ConfigError::EmptyPlan);
        }
        let mut i: usize = 0;
        while i < self.cycles.len()
            invariant
                i <= self.cycles.len(),
                forall|j: int| 0 <= j < i ==> (#[trigger] self@.plan[j]).duration > 0,
            decreases self.cycles.len() - i,
        {
            if self.cycles[i].duration == 0 {
                assert(self@.plan[i as int].duration == 0);
                return Err(ConfigError::ZeroDuration(i));
            }
            assert(self@.plan[i as int].duration > 0);
            i += 1;
        }
        Ok(())
    }

    /// Builds a plan, refusing one that [`TimerConfig::validate`] refuses.
    pub fn new(cycles: Vec<TimerCycle>, cycles_count: TimerLoop) -> (made: Result<
        TimerConfig,
        ConfigError,
    >)
        ensures
            made matches Ok(config) ==> config.cycles == cycles && config.cycles_count
                == cycles_count,
            made is Ok <==> plan_of(cycles, cycles_count).wf(),
            made matches Err(ConfigError::EmptyPlan) <==> cycles.len() == 0,
            made matches Err(ConfigError::ZeroDuration(at)) ==> plan_of(
                cycles,
                cycles_count,
            ).first_zero_at(at as int),
    {
        let config = TimerConfig { cycles, cycles_count };
        match config.validate() {
            Ok(()) => Ok(config),
            Err(e) => Err(e),
        }
    }
}

/// The plan that these cycles and this repeat policy make.
pub open spec fn plan_of(cycles: Vec<TimerCycle>, cycles_count: TimerLoop) -> ConfigModel {
    ConfigModel { plan: cycles.deep_view(), cycles_count }
}

/// Why an operation was refused in the timer's present state.
#[derive(Clone, Copy, Debug, PartialEq, Eq, Structural)]
pub enum TimerError {
    /// `start` on a timer that is running or paused.
    AlreadyStarted,
    /// `pause` on a timer that is not running.
    NotRunning,
    /// `resume` on a timer that is not paused.
    NotPaused,
    /// `stop` on a timer that is stopped.
    NotStarted,
}

impl TimerError {
    /// The text sent to a client for this error.
    pub open spec fn message_spec(self) -> Seq<char> {
        match self {
            TimerError::AlreadyStarted => "timer already started"@,
            TimerError::NotRunning => "timer not running"@,
            TimerError::NotPaused => "timer not paused"@,
            TimerError::NotStarted => "timer not started"@,
        }
    }

    /// The text sent to a client for this error.
    pub fn message(&self) -> (text: &'static str)
        ensures
            text@ == self.message_spec(),
    {
        match self {
            TimerError::AlreadyStarted => "timer already started",
            TimerError::NotRunning => "timer not running",
            TimerError::NotPaused => "timer not paused",
            TimerError::NotStarted => "timer not started",
        }
    }
}

} // verus!
