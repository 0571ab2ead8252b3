use vstd::prelude::*;

use crate::model::{Action, ClickPosition};

verus! {

/// The shortest pause the engine accepts between two actions, in milliseconds.
pub const MIN_INTERVAL_MS: u64 = 10;

/// The pause between two starts that the engine gives itself when a fresh engine
/// is created, in milliseconds.
pub const DEFAULT_INTERVAL_MS: u64 = 100;

/// How long an idle worker waits before it looks at the engine again, in milliseconds.
pub const IDLE_POLL_MS: u64 = 20;

/// How long a worker waits after a start before its first action, in milliseconds.
/// The window hides the start button meanwhile, so that a click sent at the pointer
/// does not land on it.
pub const START_DELAY_MS: u64 = 150;

/// Where the worker stands in a run.
#[derive(Clone, Copy, Debug, PartialEq, Eq, Structural)]
pub enum RunPhase {
    /// No run: the engine was inactive when the worker last looked.
    Idle,
    /// The engine became active and the worker is waiting out the start delay.
    Warming,
    /// A run is under way, with its limits fixed.
    Running,
}

/// What the worker does next.
#[derive(Clone, Copy, Debug, PartialEq, Eq, Structural)]
pub enum WorkerStep {
    /// Sleep this many milliseconds, then poll again.
    Wait { ms: u64 },
    /// Poll again at once.
    Again,
    /// Perform the action (at the position, for a mouse click), then report the outcome.
    Perform { action: Action, position: Option<ClickPosition> },
}

/// The engine as its contracts speak of it.
pub struct EngineState {
    pub active: bool,
    pub interval_ms: u64,
    pub duration_ms: u64,
    pub remaining_ms: u64,
    pub max_actions: u64,
    pub remaining_actions: u64,
    pub completed_run: bool,
    pub action: Action,
    pub position: Option<ClickPosition>,
    pub backend_error: Option<Seq<char>>,
    pub phase: RunPhase,
    pub stop_at_ms: Option<u64>,
    pub run_started_ms: u64,
    pub time_limit: u64,
    pub action_limit: u64,
    pub actions_completed: u64,
}

/// The shared state of the autoclicker: the settings that the window edits, the run
/// flags that the window, the tray and the hotkey flip, and the progress of the worker
/// that performs the actions.
///
/// The worker is driven from outside: it calls [`ClickEngine::poll`] and does what the
/// returned [`WorkerStep`] says, and after performing an action it reports the outcome
/// to [`ClickEngine::record_outcome`]. Times are milliseconds on a clock of the
/// worker's choosing that never goes back.
pub struct ClickEngine {
    active: bool,
    interval_ms: u64,
    duration_ms: u64,
    remaining_ms: u64,
    max_actions: u64,
    remaining_actions: u64,
    completed_run: bool,
    action: Action,
    position: Option<ClickPosition>,
    backend_error: Option<String>,
    phase: RunPhase,
    stop_at_ms: Option<u64>,
    run_started_ms: u64,
    time_limit: u64,
    action_limit: u64,
    actions_completed: u64,
}

pub open spec fn opt_string_view(s: Option<String>) -> Option<Seq<char>> {
    match s {
        Some(s) => Some(s@),
        None => None,
    }
}

pub open spec fn outcome_view(outcome: Result<(), String>) -> Result<(), Seq<char>> {
    match outcome {
        Ok(()) => Ok(()),
        Err(e) => Err(e@),
    }
}

impl View for ClickEngine {
    type V = EngineState;

    closed spec fn view(&self) -> EngineState {
        EngineState {
            active: self.active,
            interval_ms: self.interval_ms,
            duration_ms: self.duration_ms,
            remaining_ms: self.remaining_ms,
            max_actions: self.max_actions,
            remaining_actions: self.remaining_actions,
            completed_run: self.completed_run,
            action: self.action,
            position: self.position,
            backend_error: opt_string_view(self.backend_error),
            phase: self.phase,
            stop_at_ms: self.stop_at_ms,
            run_started_ms: self.run_started_ms,
            time_limit: self.time_limit,
            action_limit: self.action_limit,
            actions_completed: self.actions_completed,
        }
    }
}

/// The engine as [`ClickEngine::new`] makes it: idle, left clicks every 100 ms, no limits.
pub open spec fn initial_state() -> EngineState {
    EngineState {
        active: false,
        interval_ms: DEFAULT_INTERVAL_MS,
        duration_ms: 0,
        remaining_ms: 0,
        max_actions: 0,
        remaining_actions: 0,
        completed_run: false,
        action: Action::LeftClick,
        position: None,
        backend_error: None,
        phase: RunPhase::Idle,
        stop_at_ms: None,
        run_started_ms: 0,
        time_limit: 0,
        action_limit: 0,
        actions_completed: 0,
    }
}

/// Starting or stopping: a start clears the record of a finished run.
pub open spec fn spec_set_active(s: EngineState, active: bool) -> EngineState {
    EngineState { active, completed_run: if active { false } else { s.completed_run }, ..s }
}

/// Flipping between running and stopped.
pub open spec fn spec_toggle(s: EngineState) -> EngineState {
    spec_set_active(s, !s.active)
}

pub open spec fn spec_max(a: u64, b: u64) -> u64 {
    if a >= b { a } else { b }
}

pub open spec fn sat_add(a: u64, b: u64) -> u64 {
    if a + b > u64::MAX { u64::MAX } else { (a + b) as u64 }
}

pub open spec fn sat_sub(a: u64, b: u64) -> u64 {
    if a >= b { (a - b) as u64 } else { 0 }
}

/// A count or time left, where zero means that there is none to report.
pub open spec fn nonzero(v: u64) -> Option<u64> {
    if v > 0 { Some(v) } else { None }
}

/// The state in which a run begins at `now_ms`: the limits are read from the settings,
/// the deadline lies the run duration ahead, and nothing has been done yet.
pub open spec fn spec_begin_run(s: EngineState, now_ms: u64) -> EngineState {
    EngineState {
        phase: RunPhase::Running,
        run_started_ms: now_ms,
        time_limit: s.duration_ms,
        stop_at_ms: if s.duration_ms > 0 { Some((now_ms + s.duration_ms) as u64) } else { None },
        remaining_ms: s.duration_ms,
        action_limit: s.max_actions,
        actions_completed: 0,
        remaining_actions: s.max_actions,
        ..s
    }
}

/// One look of the worker at the engine at `now_ms`: the next state and what to do.
pub open spec fn spec_poll(s: EngineState, now_ms: u64) -> (EngineState, WorkerStep) {
    if !s.active {
        (
            EngineState {
                phase: RunPhase::Idle,
                stop_at_ms: None,
                remaining_ms: 0,
                remaining_actions: 0,
                ..s
            },
            WorkerStep::Wait { ms: IDLE_POLL_MS },
        )
    } else if s.phase == RunPhase::Idle {
        (EngineState { phase: RunPhase::Warming, ..s }, WorkerStep::Wait { ms: START_DELAY_MS })
    } else {
        let r = if s.phase == RunPhase::Warming { spec_begin_run(s, now_ms) } else { s };
        match r.stop_at_ms {
            Some(deadline) => if now_ms >= deadline {
                (
                    EngineState { remaining_ms: 0, active: false, completed_run: true, ..r },
                    WorkerStep::Again,
                )
            } else {
                (
                    EngineState { remaining_ms: (deadline - now_ms) as u64, ..r },
                    WorkerStep::Perform { action: r.action, position: r.position },
                )
            },
            None => (r, WorkerStep::Perform { action: r.action, position: r.position }),
        }
    }
}

/// What the worker's report of one action does: a failure records the error and stops;
/// a success counts against the action limit and stops the run when none is left.
/// The second part is the pause to keep before the next poll (`None`: poll at once).
pub open spec fn spec_record(s: EngineState, outcome: Result<(), Seq<char>>) -> (
    EngineState,
    Option<u64>,
) {
    match outcome {
        Err(e) => (
            EngineState { backend_error: Some(e), ..spec_set_active(s, false) },
            Some(s.interval_ms),
        ),
        Ok(()) => if s.action_limit > 0 {
            let done = sat_add(s.actions_completed, 1);
            let left = sat_sub(s.action_limit, done);
            if left == 0 {
                (
                    EngineState {
                        actions_completed: done,
                        remaining_actions: 0,
                        active: false,
                        completed_run: true,
                        ..s
                    },
                    None,
                )
            } else {
                (
                    EngineState { actions_completed: done, remaining_actions: left, ..s },
                    Some(s.interval_ms),
                )
            }
        } else {
            (s, Some(s.interval_ms))
        },
    }
}

/// Asking whether a run finished: the answer, and the state with the answer cleared.
pub open spec fn spec_take_completed(s: EngineState) -> (EngineState, bool) {
    (EngineState { completed_run: false, ..s }, s.completed_run)
}

/// The progress that the engine reports agrees with its run: actions left are the
/// action limit of the run less the actions done, and a time left comes with a deadline,
/// which lies the run's time limit after its start, and is no more than that limit.
pub open spec fn progress_consistent(s: EngineState) -> bool {
    &&& s.remaining_actions > 0 ==> s.action_limit > 0 && s.remaining_actions == sat_sub(
        s.action_limit,
        s.actions_completed,
    )
    &&& s.remaining_ms > 0 ==> s.stop_at_ms is Some && s.remaining_ms <= s.time_limit
    &&& s.stop_at_ms matches Some(deadline) ==> deadline == s.run_started_ms + s.time_limit
}

/// Whether a poll at `now_ms` fits the run on the clock: a run that it starts can place
/// its deadline, and a timed run under way did not begin after `now_ms`.
pub open spec fn spec_deadline_fits(s: EngineState, now_ms: u64) -> bool {
    &&& s.active && s.phase == RunPhase::Warming && s.duration_ms > 0 ==> now_ms + s.duration_ms
        <= u64::MAX
    &&& s.active && s.phase == RunPhase::Running && s.stop_at_ms is Some ==> now_ms
        >= s.run_started_ms
}

impl ClickEngine {
    #[verifier::type_invariant]
    spec fn well_formed(self) -> bool {
        &&& self.interval_ms >= MIN_INTERVAL_MS
        &&& progress_consistent(self@)
    }

    /// A fresh engine: stopped, repeating left clicks every 100 ms, without limits,
    /// fixed position or error.
    pub fn new() -> (r: ClickEngine)
        ensures
            r@ == initial_state(),
    {
        ClickEngine {
            active: false,
            interval_ms: DEFAULT_INTERVAL_MS,
            duration_ms: 0,
            remaining_ms: 0,
            max_actions: 0,
            remaining_actions: 0,
            completed_run: false,
            action: Action::LeftClick,
            position: None,
            backend_error: None,
            phase: RunPhase::Idle,
            stop_at_ms: None,
            run_started_ms: 0,
            time_limit: 0,
            action_limit: 0,
            actions_completed: 0,
        }
    }

    /// Whether the engine is running.
    pub fn is_active(&self) -> (r: bool)
        ensures
            r == self@.active,
    {
        self.active
    }

    /// Starts or stops. Starting clears the record of a finished run.
    pub fn set_active(&mut self, active: bool)
        ensures
            final(self)@ == spec_set_active(old(self)@, active),
    {
        proof {
            use_type_invariant(&*self);
        }
        if active {
            self.completed_run = false;
        }
        self.active = active;
    }

    /// Stops a running engine, starts a stopped one (clearing the record of a finished
    /// run).
    pub fn toggle(&mut self)
        ensures
            final(self)@ == spec_toggle(old(self)@),
    {
        proof {
            use_type_invariant(&*self);
        }
        let was_active = self.active;
        self.active = !was_active;
        if !was_active {
            self.completed_run = false;
        }
    }

    /// Sets the pause between actions; values below 10 ms are raised to 10 ms.
    pub fn set_interval_ms(&mut self, interval_ms: u64)
        ensures
            final(self)@ == (EngineState {
                interval_ms: spec_max(interval_ms, MIN_INTERVAL_MS),
                ..old(self)@
            }),
    {
        proof {
            use_type_invariant(&*self);
        }
        let clamped = if interval_ms >= MIN_INTERVAL_MS { interval_ms } else { MIN_INTERVAL_MS };
        self.interval_ms = clamped;
    }

    /// Sets how long a run lasts, in milliseconds; 0 means without a time limit.
    /// A run that is under way keeps the duration it started with.
    pub fn set_duration_ms(&mut self, duration_ms: u64)
        ensures
            final(self)@ == (EngineState { duration_ms, ..old(self)@ }),
    {
        proof {
            use_type_invariant(&*self);
        }
        self.duration_ms = duration_ms;
    }

    /// The pause between actions, never below 10 ms.
    pub fn interval_ms(&self) -> (r: u64)
        ensures
            r == self@.interval_ms,
            r >= MIN_INTERVAL_MS,
    {
        proof {
            use_type_invariant(self);
        }
        self.interval_ms
    }

    /// The run duration in milliseconds; 0 means without a time limit.
    pub fn duration_ms(&self) -> (r: u64)
        ensures
            r == self@.duration_ms,
    {
        self.duration_ms
    }

    /// Sets how many actions a run performs; 0 means without a count limit.
    /// A run that is under way keeps the limit it started with.
    pub fn set_max_actions(&mut self, max_actions: u64)
        ensures
            final(self)@ == (EngineState { max_actions, ..old(self)@ }),
    {
        proof {
            use_type_invariant(&*self);
        }
        self.max_actions = max_actions;
    }

    /// The action limit of a run; 0 means without a count limit.
    pub fn max_actions(&self) -> (r: u64)
        ensures
            r == self@.max_actions,
    {
        self.max_actions
    }

    /// The actions left in a count-limited run, if there are any to report: the action
    /// limit the run began with, less the actions done in it.
    pub fn remaining_actions(&self) -> (r: Option<u64>)
        ensures
            r == nonzero(self@.remaining_actions),
            r matches Some(n) ==> {
                &&& 0 < n <= self@.action_limit
                &&& n == self@.action_limit - self@.actions_completed
            },
    {
        proof {
            use_type_invariant(self);
        }
        if self.remaining_actions > 0 {
            Some(self.remaining_actions)
        } else {
            None
        }
    }

    /// The milliseconds left in a time-limited run, if there are any to report; a run
    /// that reports them has a deadline, and no more than its time limit is left.
    pub fn remaining_ms(&self) -> (r: Option<u64>)
        ensures
            r == nonzero(self@.remaining_ms),
            r matches Some(n) ==> self@.stop_at_ms is Some && n <= self@.time_limit,
    {
        proof {
            use_type_invariant(self);
        }
        if self.remaining_ms > 0 {
            Some(self.remaining_ms)
        } else {
            None
        }
    }

    /// Whether a run ended by reaching its limit since this was last asked; asking
    /// clears the answer.
    pub fn take_completed_run(&mut self) -> (r: bool)
        ensures
            (final(self)@, r) == spec_take_completed(old(self)@),
    {
        proof {
            use_type_invariant(&*self);
        }
        let completed = self.completed_run;
        self.completed_run = false;
        completed
    }

    /// Sets the action that the engine repeats.
    pub fn set_action(&mut self, action: Action)
        ensures
            final(self)@ == (EngineState { action, ..old(self)@ }),
    {
        proof {
            use_type_invariant(&*self);
        }
        self.action = action;
    }

    /// The action that the engine repeats.
    pub fn action(&self) -> (r: Action)
        ensures
            r == self@.action,
    {
        self.action
    }

    /// Sets the point that mouse clicks are sent to; `None` clicks where the pointer is.
    pub fn set_position(&mut self, position: Option<ClickPosition>)
        ensures
            final(self)@ == (EngineState { position, ..old(self)@ }),
    {
        proof {
            use_type_invariant(&*self);
        }
        self.position = position;
    }

    /// The point that mouse clicks are sent to, if it is fixed.
    pub fn position(&self) -> (r: Option<ClickPosition>)
        ensures
            r == self@.position,
    {
        self.position
    }

    /// The last failure of the input backend, if there was one.
    pub fn backend_error(&self) -> (r: Option<String>)
        ensures
            opt_string_view(r) == self@.backend_error,
    {
        match &self.backend_error {
            Some(error) => Some(error.clone()),
            None => None,
        }
    }

    /// Records that no input backend could be opened; the engine keeps its other state.
    pub fn report_backend_unavailable(&mut self, error: String)
        ensures
            final(self)@ == (EngineState { backend_error: Some(error@), ..old(self)@ }),
    {
        proof {
            use_type_invariant(&*self);
        }
        self.backend_error = Some(error);
    }

    /// Whether a poll at `now_ms` can place the deadline of a run that it starts on the
    /// worker's clock. Where it cannot, the run would end later than the clock reaches.
    pub fn deadline_fits(&self, now_ms: u64) -> (r: bool)
        ensures
            r == spec_deadline_fits(self@, now_ms),
    {
        if self.active && self.phase == RunPhase::Warming && self.duration_ms > 0 {
            now_ms <= u64::MAX - self.duration_ms
        } else if self.active && self.phase == RunPhase::Running && self.stop_at_ms.is_some() {
            now_ms >= self.run_started_ms
        } else {
            true
        }
    }

    /// One look of the worker at the engine at `now_ms`.
    ///
    /// A stopped engine ends any run and clears its progress; the worker waits 20 ms.
    /// A start is followed by a 150 ms delay, after which the run begins: its deadline
    /// lies the run duration ahead, and its action limit is the current setting. A run
    /// whose deadline has come stops and is recorded as finished; otherwise the worker
    /// performs the action.
    pub fn poll(&mut self, now_ms: u64) -> (step: WorkerStep)
        requires
            spec_deadline_fits(old(self)@, now_ms),
        ensures
            (final(self)@, step) == spec_poll(old(self)@, now_ms),
    {
        proof {
            use_type_invariant(&*self);
        }
        if !self.active {
            self.remaining_ms = 0;
            self.remaining_actions = 0;
            self.phase = RunPhase::Idle;
            self.stop_at_ms = None;
            return WorkerStep::Wait { ms: IDLE_POLL_MS };
        }
        if self.phase == RunPhase::Idle {
            self.phase = RunPhase::Warming;
            return WorkerStep::Wait { ms: START_DELAY_MS };
        }
        if self.phase == RunPhase::Warming {
            self.remaining_ms = 0;
            self.remaining_actions = 0;
            self.phase = RunPhase::Running;
            self.stop_at_ms = None;
            self.run_started_ms = now_ms;
            self.time_limit = self.duration_ms;
            let duration_ms = self.duration_ms;
            self.stop_at_ms = if duration_ms > 0 {
                Some(now_ms + duration_ms)
            } else {
                None
            };
            self.remaining_ms = duration_ms;
            self.action_limit = self.max_actions;
            self.actions_completed = 0;
            self.remaining_actions = self.action_limit;
        }
        match self.stop_at_ms {
            Some(deadline) => {
                if now_ms >= deadline {
                    self.remaining_ms = 0;
                    self.active = false;
                    self.completed_run = true;
                    return WorkerStep::Again;
                }
                self.remaining_ms = deadline - now_ms;
            },
            None => {},
        }
        WorkerStep::Perform { action: self.action, position: self.position }
    }

    /// The worker's report of one performed action. The result is the pause to keep
    /// before the next poll, measured from when the action began (`None`: poll at once).
    pub fn record_outcome(&mut self, outcome: Result<(), String>) -> (pause: Option<u64>)
        ensures
            (final(self)@, pause) == spec_record(old(self)@, outcome_view(outcome)),
    {
        proof {
            use_type_invariant(&*self);
        }
        match outcome {
            Err(error) => {
                self.backend_error = Some(error);
                self.set_active(false);
                Some(self.interval_ms)
            },
            Ok(()) => {
                if self.action_limit > 0 {
                    let done = self.actions_completed.saturating_add(1);
                    self.remaining_actions = 0;
                    self.actions_completed = done;
                    let left = self.action_limit.saturating_sub(done);
                    self.remaining_actions = left;
                    if left == 0 {
                        self.active = false;
                        self.completed_run = true;
                        return None;
                    }
                }
                Some(self.interval_ms)
            },
        }
    }
}

/// One round of a run: the worker reports a successful action, then looks again at `now_ms`.
pub open spec fn spec_success_round(s: EngineState, now_ms: u64) -> (EngineState, WorkerStep) {
    spec_poll(spec_record(s, Ok(())).0, now_ms)
}

/// The engine after `k` successful rounds, each followed by a look at `now_ms`.
pub open spec fn after_success_rounds(s: EngineState, now_ms: u64, k: nat) -> EngineState
    decreases k,
{
    if k == 0 {
        s
    } else {
        spec_success_round(after_success_rounds(s, now_ms, (k - 1) as nat), now_ms).0
    }
}

/// Toggling twice leaves the engine running or stopped as it was, with every setting
/// unchanged.
pub proof fn lemma_toggle_twice(s: EngineState)
    ensures
        spec_toggle(spec_toggle(s)).active == s.active,
        spec_toggle(spec_toggle(s)) == (EngineState {
            completed_run: spec_toggle(spec_toggle(s)).completed_run,
            ..s
        }),
{
}

/// A finished run is reported once: asking a second time answers no.
pub proof fn lemma_completed_run_reported_once(s: EngineState)
    ensures
        !spec_take_completed(spec_take_completed(s).0).1,
{
}

/// An engine that the worker has seen stopped, started with an action limit of `n`,
/// performs exactly `n` actions when each succeeds, whether or not the run also has a
/// time limit, as long as every look comes before its deadline: after the start delay
/// the worker is told to perform; after `k < n` successful rounds it is still running
/// with `n - k` actions left and is told to perform again exactly when `k + 1 < n`;
/// after `n` rounds it is stopped, the run is recorded as finished, and the worker idles.
pub proof fn lemma_action_limit_is_exact(s: EngineState, t0: u64, t1: u64, now_ms: u64, k: nat)
    requires
        s.phase == RunPhase::Idle,
        s.max_actions > 0,
        k <= s.max_actions,
        t1 + s.duration_ms <= u64::MAX,
        t1 <= now_ms,
        s.duration_ms > 0 ==> now_ms < t1 + s.duration_ms,
    ensures
        ({
            let started = spec_set_active(s, true);
            let warmed = spec_poll(started, t0);
            let begun = spec_poll(warmed.0, t1);
            let n = s.max_actions;
            let rk = after_success_rounds(begun.0, now_ms, k);
            &&& warmed.1 == WorkerStep::Wait { ms: START_DELAY_MS }
            &&& begun.1 == WorkerStep::Perform { action: s.action, position: s.position }
            &&& k < n ==> {
                &&& rk.active
                &&& rk.phase == RunPhase::Running
                &&& rk.action_limit == n
                &&& rk.actions_completed == k
                &&& rk.remaining_actions == n - k
                &&& rk.stop_at_ms == if s.duration_ms > 0 {
                    Some((t1 + s.duration_ms) as u64)
                } else {
                    None
                }
                &&& rk.action == s.action
                &&& rk.position == s.position
                &&& (spec_success_round(rk, now_ms).1 is Perform <==> k + 1 < n)
            }
            &&& k == n ==> {
                &&& !rk.active
                &&& rk.completed_run
                &&& rk.remaining_actions == 0
                &&& rk.phase == RunPhase::Idle
            }
        }),
    decreases k,
{
    if k > 0 {
        lemma_action_limit_is_exact(s, t0, t1, now_ms, (k - 1) as nat);
    }
}

/// In a run with an action limit, each successful action counts once, whatever the time
/// limit: the actions left drop by one, and the last one stops the engine and records
/// the run as finished.
pub proof fn lemma_success_counts_down(s: EngineState)
    requires
        s.action_limit > 0,
        s.actions_completed < s.action_limit,
    ensures
        ({
            let r = spec_record(s, Ok(())).0;
            &&& r.actions_completed == s.actions_completed + 1
            &&& r.remaining_actions == s.action_limit - s.actions_completed - 1
            &&& r.remaining_actions == 0 ==> !r.active && r.completed_run
            &&& r.remaining_actions > 0 ==> r.active == s.active
            &&& r.stop_at_ms == s.stop_at_ms
        }),
{
}

/// A run with a time limit of `d` begun at `t0` performs at every look before `t0 + d`,
/// reporting the milliseconds left, and at the first look from `t0 + d` on it stops and
/// is recorded as finished.
pub proof fn lemma_duration_limit(s: EngineState, t0: u64, t: u64)
    requires
        s.active,
        s.phase == RunPhase::Warming,
        s.duration_ms > 0,
        t0 + s.duration_ms <= u64::MAX,
        t0 <= t,
    ensures
        ({
            let begun = spec_poll(s, t0);
            let later = spec_poll(begun.0, t);
            let deadline = t0 + s.duration_ms;
            &&& begun.1 is Perform
            &&& begun.0.remaining_ms == s.duration_ms
            &&& t < deadline ==> later.1 is Perform && later.0.active && later.0.remaining_ms
                == deadline - t
            &&& t >= deadline ==> later.1 == WorkerStep::Again && !later.0.active
                && later.0.completed_run && later.0.remaining_ms == 0
        }),
{
}

/// A stopped engine has nothing left to report once the worker has looked at it.
pub proof fn lemma_stopped_engine_reports_no_progress(s: EngineState, now_ms: u64)
    requires
        !s.active,
    ensures
        (nonzero(spec_poll(s, now_ms).0.remaining_ms) is None),
        (nonzero(spec_poll(s, now_ms).0.remaining_actions) is None),
        (spec_poll(s, now_ms).1 == WorkerStep::Wait { ms: IDLE_POLL_MS }),
{
}

/// A failed action stops the engine and keeps the failure for the window to show,
/// whatever the limits.
pub proof fn lemma_failure_stops(s: EngineState, error: Seq<char>)
    ensures
        !spec_record(s, Err(error)).0.active,
        spec_record(s, Err(error)).0.backend_error == Some(error),
{
}

} // verus!
