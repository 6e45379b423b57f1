//! What holds of the timer engine over whole runs: sequences of ticks, and
//! operations that follow one another.

use vstd::prelude::*;
use crate::engine::{loop_count_limit, TimerModel};
use crate::timer::{ConfigModel, EventModel, TimerError, TimerLoop, TimerState};

verus! {

impl TimerModel {
    /// The timer after `n` ticks in a row.
    pub open spec fn after_ticks(self, n: nat) -> TimerModel
        decreases n,
    {
        if n == 0 {
            self
        } else {
            self.after_ticks((n - 1) as nat).ticked()
        }
    }

    /// The events of `n` ticks in a row, in the order in which they happen.
    pub open spec fn events_of_ticks(self, n: nat) -> Seq<EventModel>
        decreases n,
    {
        if n == 0 {
            Seq::<EventModel>::empty()
        } else {
            self.events_of_ticks((n - 1) as nat) + self.after_ticks((n - 1) as nat).tick_events()
        }
    }

    /// The timer keeps running through the first `n` ticks: it is running
    /// before each of them.
    pub open spec fn runs_through(self, n: nat) -> bool {
        forall|m: nat| m < n ==> (#[trigger] self.after_ticks(m)).state is Running
    }
}

/// The names of the cycles whose end the events report, in order.
pub open spec fn ended_cycles(events: Seq<EventModel>) -> Seq<Seq<char>>
    decreases events.len(),
{
    if events.len() == 0 {
        Seq::<Seq<char>>::empty()
    } else {
        let before = ended_cycles(events.drop_last());
        match events.last() {
            EventModel::Ended(cycle) => before.push(cycle.name),
            _ => before,
        }
    }
}

/// How many of the events report that the timer stopped.
pub open spec fn stops(events: Seq<EventModel>) -> nat
    decreases events.len(),
{
    if events.len() == 0 {
        0
    } else {
        let before = stops(events.drop_last());
        match events.last() {
            EventModel::Stopped => before + 1,
            _ => before,
        }
    }
}

/// The names of the cycles of a plan, in order.
pub open spec fn cycle_names(config: ConfigModel) -> Seq<Seq<char>> {
    Seq::new(config.plan.len(), |i: int| config.plan[i].name)
}

/// A sequence followed by itself, `times` times in all.
pub open spec fn repeated(names: Seq<Seq<char>>, times: nat) -> Seq<Seq<char>>
    decreases times,
{
    if times == 0 {
        Seq::<Seq<char>>::empty()
    } else {
        names + repeated(names, (times - 1) as nat)
    }
}

/// A repeated sequence has the length of the sequence times the number of
/// repetitions, and holds at each position the element that the sequence
/// holds at that position modulo its length.
pub proof fn lemma_repeated(names: Seq<Seq<char>>, times: nat)
    requires
        names.len() > 0,
    ensures
        repeated(names, times).len() == names.len() * times,
        forall|j: int|
            0 <= j < names.len() * times ==> #[trigger] repeated(names, times)[j] == names[j
                % (names.len() as int)],
    decreases times,
{
    let n = names.len() as int;
    if times == 0 {
        assert(n * 0 == 0);
    } else {
        lemma_repeated(names, (times - 1) as nat);
        assert(n * times == n + n * (times - 1)) by (nonlinear_arith);
        assert forall|j: int| 0 <= j < n * times implies #[trigger] repeated(names, times)[j]
            == names[j % n] by {
            if j < n {
                assert(j % n == j) by (nonlinear_arith)
                    requires
                        0 <= j < n,
                ;
            } else {
                assert((j - n) % n == j % n) by (nonlinear_arith)
                    requires
                        n > 0,
                ;
                assert(repeated(names, times)[j] == repeated(names, (times - 1) as nat)[j - n]);
            }
        }
    }
}

proof fn lemma_ended_cycles_concat(first: Seq<EventModel>, second: Seq<EventModel>)
    ensures
        ended_cycles(first + second) == ended_cycles(first) + ended_cycles(second),
        stops(first + second) == stops(first) + stops(second),
    decreases second.len(),
{
    if second.len() == 0 {
        assert(first + second =~= first);
        assert(ended_cycles(first) + ended_cycles(second) =~= ended_cycles(first));
    } else {
        lemma_ended_cycles_concat(first, second.drop_last());
        assert((first + second).drop_last() =~= first + second.drop_last());
        assert((first + second).last() == second.last());
        assert(ended_cycles(first + second) =~= ended_cycles(first) + ended_cycles(second));
    }
}

proof fn lemma_ended_cycles_of_short(events: Seq<EventModel>)
    requires
        events.len() <= 2,
    ensures
        events.len() == 1 ==> ended_cycles(events) == (match events[0] {
            EventModel::Ended(cycle) => seq![cycle.name],
            _ => Seq::<Seq<char>>::empty(),
        }),
        events.len() == 1 ==> stops(events) == (if events[0] is Stopped {
            1nat
        } else {
            0nat
        }),
        events.len() == 2 && events[0] is Ended && !(events[1] is Ended) ==> ended_cycles(events)
            == seq![events[0]->Ended_0.name],
        events.len() == 2 && !(events[0] is Stopped) ==> stops(events) == (if events[1]
            is Stopped {
            1nat
        } else {
            0nat
        }),
{
    if events.len() >= 1 {
        let head = events.drop_last();
        if head.len() == 1 {
            assert(head.drop_last().len() == 0);
            assert(ended_cycles(head.drop_last()) =~= Seq::<Seq<char>>::empty());
            assert(stops(head.drop_last()) == 0);
            assert(head.last() == events[0]);
            if !(events[0] is Stopped) {
                assert(stops(head) == 0);
            }
            if events[0] is Ended && !(events[1] is Ended) {
                assert(ended_cycles(head) =~= seq![events[0]->Ended_0.name]);
                assert(ended_cycles(events) =~= seq![events[0]->Ended_0.name]);
            }
        } else {
            assert(ended_cycles(head) =~= Seq::<Seq<char>>::empty());
            assert(stops(head) == 0);
            if let EventModel::Ended(cycle) = events[0] {
                assert(ended_cycles(events) =~= seq![cycle.name]);
            }
        }
    }
}

/// Ticking `first` times and, after that, `second` times is ticking `first + second`
/// times: the timer arrives at the same value, and the events of the two runs
/// follow one another.
pub proof fn lemma_ticks_compose(timer: TimerModel, first: nat, second: nat)
    ensures
        timer.after_ticks(first + second) == timer.after_ticks(first).after_ticks(second),
        timer.events_of_ticks(first + second) == timer.events_of_ticks(first) + timer.after_ticks(
            first,
        ).events_of_ticks(second),
    decreases second,
{
    if second == 0 {
        assert(timer.events_of_ticks(first) + Seq::<EventModel>::empty()
            =~= timer.events_of_ticks(first));
    } else {
        let less = (second - 1) as nat;
        lemma_ticks_compose(timer, first, less);
        assert((first + second - 1) as nat == first + less);
        let mid = timer.after_ticks(first);
        assert(timer.events_of_ticks(first + second) =~= timer.events_of_ticks(first) + (
        mid.events_of_ticks(less) + mid.after_ticks(less).tick_events()));
    }
}

proof fn lemma_runs_through_compose(timer: TimerModel, first: nat, second: nat)
    requires
        timer.runs_through(first),
        timer.after_ticks(first).runs_through(second),
    ensures
        timer.runs_through(first + second),
{
    assert forall|m: nat| m < first + second implies (#[trigger] timer.after_ticks(m)).state
        is Running by {
        if m >= first {
            let over = (m - first) as nat;
            lemma_ticks_compose(timer, first, over);
            assert(timer.after_ticks(first).after_ticks(over).state is Running);
        }
    }
}

proof fn lemma_countdown(timer: TimerModel, ticks: nat)
    requires
        timer.wf(),
        timer.state is Running,
        ticks < timer.remaining,
    ensures
        timer.after_ticks(ticks) == (TimerModel {
            remaining: (timer.remaining - ticks) as nat,
            ..timer
        }),
        ended_cycles(timer.events_of_ticks(ticks)) == Seq::<Seq<char>>::empty(),
        stops(timer.events_of_ticks(ticks)) == 0,
        timer.runs_through(ticks + 1),
    decreases ticks,
{
    if ticks == 0 {
        assert(timer.after_ticks(0) == timer);
        assert forall|m: nat| m < 1 implies (#[trigger] timer.after_ticks(m)).state
            is Running by {
            assert(m == 0);
        }
    } else {
        let less = (ticks - 1) as nat;
        lemma_countdown(timer, less);
        let before = timer.after_ticks(less);
        assert(before.left_after_tick() == timer.remaining - ticks);
        lemma_ended_cycles_concat(timer.events_of_ticks(less), before.tick_events());
        lemma_ended_cycles_of_short(before.tick_events());
        assert(ended_cycles(timer.events_of_ticks(ticks)) =~= Seq::<Seq<char>>::empty());
        assert forall|m: nat| m < ticks + 1 implies (#[trigger] timer.after_ticks(m)).state
            is Running by {
            if m == ticks {
            } else {
                assert(m < less + 1);
            }
        }
    }
}

/// The timer at the beginning of the cycle at `index` of a plan, running,
/// with `loops` passes completed.
pub open spec fn at_cycle(config: ConfigModel, index: nat, loops: nat) -> TimerModel {
    TimerModel::at_rest(config).entering(index, loops)
}

proof fn lemma_cycle_runs_out(config: ConfigModel, index: nat, loops: nat, passes: nat)
    requires
        config.wf(),
        index < config.plan.len(),
        config.cycles_count == TimerLoop::Fixed(passes as u64),
        loops < passes <= loop_count_limit(),
    ensures
        ({
            let timer = at_cycle(config, index, loops);
            let length = config.plan[index as int].duration;
            let events = timer.events_of_ticks(length);
            let last_cycle = index + 1 == config.plan.len();
            let last_pass = loops + 1 == passes;
            &&& timer.runs_through(length)
            &&& ended_cycles(events) == seq![config.plan[index as int].name]
            &&& events.len() > 0
            &&& timer.after_ticks(length) == (if !last_cycle {
                at_cycle(config, index + 1, loops)
            } else if last_pass {
                TimerModel::at_rest(config)
            } else {
                at_cycle(config, 0, loops + 1)
            })
            &&& stops(events) == (if last_cycle && last_pass {
                1nat
            } else {
                0nat
            })
            &&& last_cycle && last_pass ==> events.last() == EventModel::Stopped
        }),
{
    let timer = at_cycle(config, index, loops);
    let length = config.plan[index as int].duration;
    let less = (length - 1) as nat;
    assert(timer.wf());
    lemma_countdown(timer, less);
    let before = timer.after_ticks(less);
    assert(before.remaining == 1);
    assert(before.left_after_tick() == 0);
    assert(before.loops_after_pass() == loops + 1);
    lemma_ended_cycles_concat(timer.events_of_ticks(less), before.tick_events());
    lemma_ended_cycles_of_short(before.tick_events());
    assert(before.tick_events().len() == 2);
    assert(Seq::<Seq<char>>::empty() + seq![config.plan[index as int].name]
        =~= seq![config.plan[index as int].name]);
    assert(timer.events_of_ticks(length).last() == before.tick_events().last());
}

proof fn lemma_pass_runs_out(config: ConfigModel, index: nat, loops: nat, passes: nat)
    requires
        config.wf(),
        index < config.plan.len(),
        config.cycles_count == TimerLoop::Fixed(passes as u64),
        loops < passes <= loop_count_limit(),
    ensures
        ({
            let timer = at_cycle(config, index, loops);
            let length = config.seconds_from(index as int);
            let events = timer.events_of_ticks(length);
            let last_pass = loops + 1 == passes;
            &&& timer.runs_through(length)
            &&& ended_cycles(events) == cycle_names(config).subrange(
                index as int,
                config.plan.len() as int,
            )
            &&& events.len() > 0
            &&& timer.after_ticks(length) == (if last_pass {
                TimerModel::at_rest(config)
            } else {
                at_cycle(config, 0, loops + 1)
            })
            &&& stops(events) == (if last_pass {
                1nat
            } else {
                0nat
            })
            &&& last_pass ==> events.last() == EventModel::Stopped
        }),
    decreases config.plan.len() - index,
{
    let timer = at_cycle(config, index, loops);
    let first = config.plan[index as int].duration;
    let names = cycle_names(config);
    let end = config.plan.len() as int;
    lemma_cycle_runs_out(config, index, loops, passes);
    if index + 1 == config.plan.len() {
        assert(config.seconds_from(index as int + 1) == 0);
        assert(names.subrange(index as int, end) =~= seq![config.plan[index as int].name]);
    } else {
        let rest = config.seconds_from(index as int + 1);
        lemma_pass_runs_out(config, index + 1, loops, passes);
        lemma_ticks_compose(timer, first, rest);
        lemma_runs_through_compose(timer, first, rest);
        let next = at_cycle(config, index + 1, loops);
        lemma_ended_cycles_concat(timer.events_of_ticks(first), next.events_of_ticks(rest));
        assert(names.subrange(index as int, end) =~= seq![config.plan[index as int].name]
            + names.subrange(index as int + 1, end));
        assert((timer.events_of_ticks(first) + next.events_of_ticks(rest)).last()
            == next.events_of_ticks(rest).last());
    }
}

proof fn lemma_plan_runs_out(config: ConfigModel, loops: nat, passes: nat)
    requires
        config.wf(),
        config.cycles_count == TimerLoop::Fixed(passes as u64),
        loops < passes <= loop_count_limit(),
    ensures
        ({
            let timer = at_cycle(config, 0, loops);
            let length = config.seconds_from(0) * (passes - loops);
            let events = timer.events_of_ticks(length as nat);
            &&& length >= 0
            &&& timer.runs_through(length as nat)
            &&& ended_cycles(events) == repeated(cycle_names(config), (passes - loops) as nat)
            &&& events.len() > 0
            &&& timer.after_ticks(length as nat) == TimerModel::at_rest(config)
            &&& stops(events) == 1
            &&& events.last() == EventModel::Stopped
        }),
    decreases passes - loops,
{
    let timer = at_cycle(config, 0, loops);
    let pass = config.seconds_from(0);
    let names = cycle_names(config);
    lemma_pass_runs_out(config, 0, loops, passes);
    assert(names.subrange(0, config.plan.len() as int) =~= names);
    if loops + 1 == passes {
        assert(pass * (passes - loops) == pass) by (nonlinear_arith)
            requires
                passes - loops == 1,
        ;
        assert(repeated(names, 0) =~= Seq::<Seq<char>>::empty());
        assert(repeated(names, 1) =~= names);
    } else {
        let left = (passes - loops - 1) as nat;
        let rest = pass * left;
        assert(pass * (passes - loops) == pass + pass * left) by (nonlinear_arith)
            requires
                left == passes - loops - 1,
        ;
        assert(rest >= 0) by (nonlinear_arith)
            requires
                rest == pass * left,
                pass >= 0,
                left >= 0,
        ;
        lemma_plan_runs_out(config, loops + 1, passes);
        lemma_ticks_compose(timer, pass, rest as nat);
        lemma_runs_through_compose(timer, pass, rest as nat);
        let next = at_cycle(config, 0, loops + 1);
        lemma_ended_cycles_concat(timer.events_of_ticks(pass), next.events_of_ticks(rest as nat));
        assert((timer.events_of_ticks(pass) + next.events_of_ticks(rest as nat)).last()
            == next.events_of_ticks(rest as nat).last());
    }
}

/// A plan of `N` cycles that is repeated a fixed number of times, `passes`,
/// runs to its end once started: the timer keeps running through as many
/// ticks as the plan has seconds times `passes`, and the last of them brings
/// it to rest. The events of those ticks report the end of `N * passes`
/// cycles, which are the cycles of the plan in order, pass after pass, and
/// they report one stop, as their last event.
pub proof fn law_fixed_plan_runs_to_completion(config: ConfigModel, passes: u64)
    requires
        config.wf(),
        config.cycles_count == TimerLoop::Fixed(passes),
        passes >= 1,
    ensures
        ({
            let begun = TimerModel::at_rest(config).started();
            let ticks = config.seconds_from(0) * passes;
            let events = begun.events_of_ticks(ticks as nat);
            let ended = ended_cycles(events);
            &&& ticks >= 0
            &&& begun.runs_through(ticks as nat)
            &&& begun.after_ticks(ticks as nat) == TimerModel::at_rest(config)
            &&& ended == repeated(cycle_names(config), passes as nat)
            &&& ended.len() == config.plan.len() * passes
            &&& forall|j: int|
                0 <= j < ended.len() ==> #[trigger] ended[j] == config.plan[j % (
                config.plan.len() as int)].name
            &&& stops(events) == 1
            &&& events.len() > 0
            &&& events.last() == EventModel::Stopped
        }),
{
    lemma_plan_runs_out(config, 0, passes as nat);
    lemma_repeated(cycle_names(config), passes as nat);
    let ended = repeated(cycle_names(config), passes as nat);
    let n = config.plan.len() as int;
    assert forall|j: int| 0 <= j < ended.len() implies #[trigger] ended[j] == config.plan[j
        % n].name by {
        assert(0 <= j % n < n) by (nonlinear_arith)
            requires
                n > 0,
                0 <= j,
        ;
    }
}

/// A timer that was just started shows that it is running the first cycle
/// of the plan with all of that cycle left.
pub proof fn law_start_then_get(timer: TimerModel)
    requires
        timer.wf(),
        timer.start_error() is None,
    ensures
        timer.started().wf(),
        timer.started().snapshot().state == TimerState::Running,
        timer.started().snapshot().cycle_index == 0,
        timer.started().snapshot().loop_count == 0,
        timer.started().snapshot().cycle == timer.config.plan[0],
{
}

/// Pausing and resuming at once changes nothing: the timer is the one it was
/// before the pause, so as many seconds are left of the same cycle.
pub proof fn law_pause_then_resume(timer: TimerModel)
    requires
        timer.wf(),
        timer.pause_error() is None,
    ensures
        timer.paused().wf(),
        timer.paused().resume_error() is None,
        timer.paused().resumed() == timer,
        timer.paused().remaining == timer.remaining,
{
}

/// What a timer shows is what one state of it holds: the cycle at the
/// position shown, by its name, with no more left of it than it lasts; a
/// stopped timer shows the first cycle in full.
pub proof fn law_snapshot_shows_one_state(timer: TimerModel)
    requires
        timer.wf(),
    ensures
        ({
            let shot = timer.snapshot();
            &&& shot.cycle_index < timer.config.plan.len()
            &&& shot.cycle.name == timer.config.plan[shot.cycle_index as int].name
            &&& shot.cycle.duration <= timer.config.plan[shot.cycle_index as int].duration
            &&& shot.state is Stopped ==> shot.cycle_index == 0 && shot.loop_count == 0
                && shot.cycle == timer.config.plan[0]
            &&& !(shot.state is Stopped) ==> shot.cycle.duration >= 1
        }),
{
}

/// A paused timer ignores ticks, however many.
pub proof fn law_paused_timer_ignores_ticks(timer: TimerModel, ticks: nat)
    requires
        timer.state is Paused,
    ensures
        timer.after_ticks(ticks) == timer,
        timer.events_of_ticks(ticks) == Seq::<EventModel>::empty(),
    decreases ticks,
{
    if ticks > 0 {
        law_paused_timer_ignores_ticks(timer, (ticks - 1) as nat);
        assert(timer.events_of_ticks(ticks) =~= Seq::<EventModel>::empty());
    }
}

/// On a stopped timer `pause`, `resume` and `stop` are refused, and `start`
/// is refused on any other.
pub proof fn law_refusals(timer: TimerModel)
    ensures
        timer.state is Stopped ==> timer.pause_error() == Some(TimerError::NotRunning)
            && timer.resume_error() == Some(TimerError::NotPaused) && timer.stop_error() == Some(
            TimerError::NotStarted,
        ) && timer.start_error() is None,
        !(timer.state is Stopped) ==> timer.start_error() == Some(TimerError::AlreadyStarted)
            && timer.stop_error() is None,
{
}

/// Every operation keeps the invariant of the engine.
pub proof fn law_invariant_is_kept(timer: TimerModel)
    requires
        timer.wf(),
    ensures
        timer.start_error() is None ==> timer.started().wf(),
        timer.pause_error() is None ==> timer.paused().wf(),
        timer.resume_error() is None ==> timer.resumed().wf(),
        timer.stop_error() is None ==> timer.stopped().wf(),
        timer.ticked().wf(),
{
}

/// Something that can be done to a timer.
pub enum Operation {
    Start,
    Pause,
    Resume,
    Stop,
    Tick,
}

/// What someone who reads the events of a timer knows of it.
pub enum Observed {
    /// No cycle is active.
    Idle,
    /// The cycle of this name began and has not ended.
    Active(Seq<char>),
    /// An event arrived that cannot follow those before it.
    OutOfOrder,
}

impl Observed {
    /// What is known after one more event. `Started` and `Began` must find
    /// no cycle active; `Running`, `SetTo`, `Paused`, `Resumed` and `Ended`
    /// must name the cycle that is active; `Stopped` may arrive at any time.
    pub open spec fn after_event(self, event: EventModel) -> Observed {
        match (self, event) {
            (Observed::OutOfOrder, _) => Observed::OutOfOrder,
            (_, EventModel::Stopped) => Observed::Idle,
            (Observed::Idle, EventModel::Started) => Observed::Idle,
            (Observed::Idle, EventModel::Began(cycle)) => Observed::Active(cycle.name),
            (Observed::Active(name), EventModel::Running(cycle)) => if cycle.name == name {
                self
            } else {
                Observed::OutOfOrder
            },
            (Observed::Active(name), EventModel::SetTo(cycle)) => if cycle.name == name {
                self
            } else {
                Observed::OutOfOrder
            },
            (Observed::Active(name), EventModel::Paused(cycle)) => if cycle.name == name {
                self
            } else {
                Observed::OutOfOrder
            },
            (Observed::Active(name), EventModel::Resumed(cycle)) => if cycle.name == name {
                self
            } else {
                Observed::OutOfOrder
            },
            (Observed::Active(name), EventModel::Ended(cycle)) => if cycle.name == name {
                Observed::Idle
            } else {
                Observed::OutOfOrder
            },
            _ => Observed::OutOfOrder,
        }
    }

    /// What is known after a run of events.
    pub open spec fn after_events(self, events: Seq<EventModel>) -> Observed
        decreases events.len(),
    {
        if events.len() == 0 {
            self
        } else {
            self.after_events(events.drop_last()).after_event(events.last())
        }
    }
}

impl TimerModel {
    /// The timer after an operation; one that is refused changes nothing.
    pub open spec fn after(self, operation: Operation) -> TimerModel {
        match operation {
            Operation::Start => if self.start_error() is None {
                self.started()
            } else {
                self
            },
            Operation::Pause => if self.pause_error() is None {
                self.paused()
            } else {
                self
            },
            Operation::Resume => if self.resume_error() is None {
                self.resumed()
            } else {
                self
            },
            Operation::Stop => if self.stop_error() is None {
                self.stopped()
            } else {
                self
            },
            Operation::Tick => self.ticked(),
        }
    }

    /// The events of an operation; one that is refused causes none.
    pub open spec fn events_of(self, operation: Operation) -> Seq<EventModel> {
        match operation {
            Operation::Start => if self.start_error() is None {
                self.start_events()
            } else {
                Seq::<EventModel>::empty()
            },
            Operation::Pause => if self.pause_error() is None {
                self.pause_events()
            } else {
                Seq::<EventModel>::empty()
            },
            Operation::Resume => if self.resume_error() is None {
                self.resume_events()
            } else {
                Seq::<EventModel>::empty()
            },
            Operation::Stop => if self.stop_error() is None {
                self.stop_events()
            } else {
                Seq::<EventModel>::empty()
            },
            Operation::Tick => self.tick_events(),
        }
    }

    /// The timer after a run of operations.
    pub open spec fn after_all(self, operations: Seq<Operation>) -> TimerModel
        decreases operations.len(),
    {
        if operations.len() == 0 {
            self
        } else {
            self.after_all(operations.drop_last()).after(operations.last())
        }
    }

    /// The events of a run of operations, in the order in which they happen.
    pub open spec fn events_of_all(self, operations: Seq<Operation>) -> Seq<EventModel>
        decreases operations.len(),
    {
        if operations.len() == 0 {
            Seq::<EventModel>::empty()
        } else {
            self.events_of_all(operations.drop_last()) + self.after_all(
                operations.drop_last(),
            ).events_of(operations.last())
        }
    }

    /// What the events so far have told of the timer: which cycle is
    /// active, if one is.
    pub open spec fn observed(self) -> Observed {
        if self.state is Stopped {
            Observed::Idle
        } else {
            Observed::Active(self.config.plan[self.cycle_index as int].name)
        }
    }
}

proof fn lemma_after_events_concat(seen: Observed, first: Seq<EventModel>, second: Seq<EventModel>)
    ensures
        seen.after_events(first + second) == seen.after_events(first).after_events(second),
    decreases second.len(),
{
    if second.len() == 0 {
        assert(first + second =~= first);
    } else {
        lemma_after_events_concat(seen, first, second.drop_last());
        assert((first + second).drop_last() =~= first + second.drop_last());
    }
}

proof fn lemma_after_events_short(seen: Observed, events: Seq<EventModel>)
    requires
        events.len() <= 2,
    ensures
        events.len() == 0 ==> seen.after_events(events) == seen,
        events.len() == 1 ==> seen.after_events(events) == seen.after_event(events[0]),
        events.len() == 2 ==> seen.after_events(events) == seen.after_event(
            events[0],
        ).after_event(events[1]),
{
    if events.len() == 1 {
        assert(seen.after_events(events.drop_last()) == seen);
    } else if events.len() == 2 {
        let head = events.drop_last();
        assert(head.last() == events[0]);
        assert(seen.after_events(head.drop_last()) == seen);
        assert(seen.after_events(head) == seen.after_event(events[0]));
    }
}

/// The events of any one operation follow from what the events before it
/// told: they leave the reader knowing which cycle is active after the
/// operation, and none of them arrives out of order.
pub proof fn law_operation_keeps_events_in_order(timer: TimerModel, operation: Operation)
    requires
        timer.wf(),
    ensures
        timer.after(operation).wf(),
        timer.observed().after_events(timer.events_of(operation)) == timer.after(
            operation,
        ).observed(),
{
    lemma_after_events_short(timer.observed(), timer.events_of(operation));
}

/// Whatever is done to a timer from its creation on, its events arrive in
/// causal order: a cycle is reported as running, paused, resumed or ended
/// only while it is the one that began last and has not ended, and a cycle
/// begins only when none is active.
pub proof fn law_events_are_in_causal_order(config: ConfigModel, operations: Seq<Operation>)
    requires
        config.wf(),
    ensures
        ({
            let fresh = TimerModel::at_rest(config);
            &&& fresh.after_all(operations).wf()
            &&& Observed::Idle.after_events(fresh.events_of_all(operations)) == fresh.after_all(
                operations,
            ).observed()
            &&& !(Observed::Idle.after_events(fresh.events_of_all(operations)) is OutOfOrder)
        }),
    decreases operations.len(),
{
    let fresh = TimerModel::at_rest(config);
    if operations.len() > 0 {
        let before = operations.drop_last();
        law_events_are_in_causal_order(config, before);
        let timer = fresh.after_all(before);
        law_operation_keeps_events_in_order(timer, operations.last());
        lemma_after_events_concat(
            Observed::Idle,
            fresh.events_of_all(before),
            timer.events_of(operations.last()),
        );
    }
}

} // verus!
