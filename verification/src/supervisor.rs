//! The executable supervisor. It holds the lifecycle state behind narrow
//! operations and answers each event with the actions that are due; the
//! caller performs them and reports back what happened.

use crate::model::{
    forward, ActionView, EventView, ExitPolicy, Lifecycle, Phase, FATAL_EXIT_CODE, GRACE_SECS,
    SETTLE_SECS, UNKNOWN_EXIT_CODE,
};
use crate::notice::{early_exit_notice, spawn_failure_notice};
use crate::readiness::{classify_line, outcome_of, ready_marker, ready_marker_bytes, stripped_bytes,
    LineOutcome};
use vstd::prelude::*;

verus! {

/// One thing for the caller to do. Actions are performed in the order given.
#[derive(Debug, PartialEq, Eq)]
pub enum Action {
    /// Spawn the backend for this generation and report `Spawned` or `SpawnFailed`.
    Spawn { generation: u64 },
    /// Kill the process of this generation; a failure to do so is only logged.
    Kill { generation: u64 },
    /// Wait `secs` seconds, then report `Settled` with this text.
    Settle { secs: u64, text: String },
    /// Wait `secs` seconds.
    Pause { secs: u64 },
    /// Close the splash surface if it is there.
    CloseSplash,
    /// Close the main surface.
    CloseMain,
    /// Maximize and show the main surface.
    ShowMain,
    /// Show the crash surface if it is there.
    ShowCrash,
    /// Hide the main surface.
    HideMain,
    /// Keep the window that was asked to close.
    CancelClose,
    /// Emit `message` with one decoded output line.
    Message { text: String },
    /// Emit `crash` with this notice.
    Crash { notice: String },
    /// End the shell with this exit code.
    Exit { code: i32 },
}

impl View for Action {
    type V = ActionView;

    open spec fn view(&self) -> ActionView {
        match self {
            Action::Spawn { generation } => ActionView::Spawn { generation: *generation as nat },
            Action::Kill { generation } => ActionView::Kill { generation: *generation as nat },
            Action::Settle { secs, text } => ActionView::Settle { secs: *secs, text: text@ },
            Action::Pause { secs } => ActionView::Pause { secs: *secs },
            Action::CloseSplash => ActionView::CloseSplash,
            Action::CloseMain => ActionView::CloseMain,
            Action::ShowMain => ActionView::ShowMain,
            Action::ShowCrash => ActionView::ShowCrash,
            Action::HideMain => ActionView::HideMain,
            Action::CancelClose => ActionView::CancelClose,
            Action::Message { text } => ActionView::Message { text: text@ },
            Action::Crash { notice } => ActionView::Crash { notice: notice@ },
            Action::Exit { code } => ActionView::Exit { code: *code },
        }
    }
}

/// The mathematical values of a run of actions, in order.
pub open spec fn action_views(actions: Seq<Action>) -> Seq<ActionView> {
    actions.map_values(|a: Action| a@)
}

/// One thing that happened.
#[derive(Debug, PartialEq, Eq)]
pub enum Event {
    /// Start the first generation.
    Launch,
    /// The `restart-server` request.
    Restart,
    /// The `kill-server` request.
    Kill,
    /// The shell is about to exit.
    ExitRequested,
    /// A window was asked to close; `main_window` tells whether it is the main one.
    CloseRequested { main_window: bool },
    /// The spawn asked for this generation succeeded.
    Spawned { generation: u64 },
    /// The spawn asked for this generation failed.
    SpawnFailed { generation: u64, error: String },
    /// The process of this generation wrote a line.
    Output { generation: u64, line: Vec<u8> },
    /// The settle delay asked for this generation is over.
    Settled { generation: u64, text: String },
    /// The process of this generation ended.
    Terminated { generation: u64, code: Option<i32> },
}

impl View for Event {
    type V = EventView;

    open spec fn view(&self) -> EventView {
        match self {
            Event::Launch => EventView::Launch,
            Event::Restart => EventView::Restart,
            Event::Kill => EventView::Kill,
            Event::ExitRequested => EventView::ExitRequested,
            Event::CloseRequested { main_window } => EventView::CloseRequested {
                main_window: *main_window,
            },
            Event::Spawned { generation } => EventView::Spawned { generation: *generation as nat },
            Event::SpawnFailed { generation, error } => EventView::SpawnFailed {
                generation: *generation as nat,
                error: error@,
            },
            Event::Output { generation, line } => EventView::Output {
                generation: *generation as nat,
                line: line@,
            },
            Event::Settled { generation, text } => EventView::Settled {
                generation: *generation as nat,
                text: text@,
            },
            Event::Terminated { generation, code } => EventView::Terminated {
                generation: *generation as nat,
                code: *code,
            },
        }
    }
}

/// The supervisor of one backend process at a time.
pub struct Supervisor {
    marker: Vec<u8>,
    policy: ExitPolicy,
    generation: u64,
    phase: Phase,
    handle: Option<u64>,
    is_shutdown: bool,
    server_started: bool,
}

impl View for Supervisor {
    type V = Lifecycle;

    closed spec fn view(&self) -> Lifecycle {
        Lifecycle {
            marker: self.marker@,
            policy: self.policy,
            generation: self.generation as nat,
            phase: self.phase,
            handle: match self.handle {
                Some(h) => Some(h as nat),
                None => None,
            },
            is_shutdown: self.is_shutdown,
            server_started: self.server_started,
        }
    }
}

/// Appends the `message` event for a line that is not empty.
fn forward_into(out: &mut Vec<Action>, text: String)
    ensures
        action_views(final(out)@) == action_views(old(out)@) + forward(text@),
{
    if !text.as_str().is_empty() {
        out.push(Action::Message { text });
    }
    assert(action_views(out@) =~= action_views(old(out)@) + forward(text@));
}

impl Supervisor {
    /// An idle supervisor that looks for `marker` in the backend's output
    /// and only records the end of a backend that had been ready.
    pub fn new(marker: Vec<u8>) -> (sup: Supervisor)
        ensures
            sup@ == Lifecycle::initial(marker@, ExitPolicy::RecordOnly),
            sup@.wf(),
    {
        Supervisor::with_policy(marker, ExitPolicy::RecordOnly)
    }

    /// An idle supervisor that looks for `marker` in the backend's output
    /// and treats the end of a ready backend as `policy` says.
    pub fn with_policy(marker: Vec<u8>, policy: ExitPolicy) -> (sup: Supervisor)
        ensures
            sup@ == Lifecycle::initial(marker@, policy),
            sup@.wf(),
    {
        Supervisor {
            marker,
            policy,
            generation: 0,
            phase: Phase::Idle,
            handle: None,
            is_shutdown: false,
            server_started: false,
        }
    }

    /// An idle supervisor with the marker that the backend is known to print.
    pub fn with_default_marker() -> (sup: Supervisor)
        ensures
            sup@ == Lifecycle::initial(ready_marker_bytes(), ExitPolicy::RecordOnly),
            sup@.wf(),
    {
        Supervisor::new(ready_marker())
    }

    /// The number of the current generation.
    pub fn generation(&self) -> (g: u64)
        ensures
            g as nat == self@.generation,
    {
        self.generation
    }

    /// Where the current generation stands.
    pub fn phase(&self) -> (p: Phase)
        ensures
            p == self@.phase,
    {
        self.phase
    }

    /// The generation whose process handle is in the slot, if one is.
    pub fn handle(&self) -> (h: Option<u64>)
        ensures
            h is Some <==> self@.handle is Some,
            h matches Some(g) ==> self@.handle == Some(g as nat),
    {
        self.handle
    }

    /// Whether the current generation's process was seen to end.
    pub fn is_shutdown(&self) -> (b: bool)
        ensures
            b == self@.is_shutdown,
    {
        self.is_shutdown
    }

    /// Whether the current generation became ready.
    pub fn server_started(&self) -> (b: bool)
        ensures
            b == self@.server_started,
    {
        self.server_started
    }

    /// What the end of a ready backend means to this supervisor.
    pub fn policy(&self) -> (p: ExitPolicy)
        ensures
            p == self@.policy,
    {
        self.policy
    }

    /// The marker that this supervisor looks for.
    pub fn marker(&self) -> (m: &[u8])
        ensures
            m@ == self@.marker,
    {
        self.marker.as_slice()
    }

    /// Empties the slot and asks for the kill of what it held.
    fn take_handle(&mut self, out: &mut Vec<Action>)
        ensures
            final(self)@ == old(self)@.release(),
            action_views(final(out)@) == action_views(old(out)@) + old(self)@.retire_actions(),
    {
        match self.handle {
            Some(h) => {
                out.push(Action::Kill { generation: h });
            },
            None => {},
        }
        self.handle = None;
        assert(action_views(out@) =~= action_views(old(out)@) + old(self)@.retire_actions());
    }

    /// Retires the current generation and starts the next.
    fn begin(&mut self) -> (actions: Vec<Action>)
        requires
            old(self)@.generation < u64::MAX,
        ensures
            final(self)@ == old(self)@.begin(),
            action_views(actions@) == old(self)@.begin_actions(),
            old(self)@.wf() ==> final(self)@.wf(),
    {
        let mut actions: Vec<Action> = Vec::new();
        assert(action_views(actions@) =~= Seq::<ActionView>::empty());
        self.take_handle(&mut actions);
        self.generation = self.generation + 1;
        self.phase = Phase::Starting;
        self.is_shutdown = false;
        self.server_started = false;
        actions.push(Action::Spawn { generation: self.generation });
        assert(action_views(actions@) =~= old(self)@.begin_actions());
        actions
    }

    /// Starts a generation: both flags go down and a spawn is asked for. A
    /// handle still in the slot is killed first.
    pub fn launch(&mut self) -> (actions: Vec<Action>)
        requires
            old(self)@.generation < u64::MAX,
        ensures
            final(self)@ == old(self)@.begin(),
            action_views(actions@) == old(self)@.begin_actions(),
            old(self)@.wf() ==> final(self)@.wf(),
    {
        self.begin()
    }

    /// The `restart-server` request: the handle in the slot is taken and
    /// killed, then a new generation is launched.
    pub fn restart(&mut self) -> (actions: Vec<Action>)
        requires
            old(self)@.generation < u64::MAX,
        ensures
            final(self)@ == old(self)@.begin(),
            action_views(actions@) == old(self)@.begin_actions(),
            old(self)@.wf() ==> final(self)@.wf(),
    {
        self.begin()
    }

    /// The `kill-server` request: the handle in the slot is taken and killed;
    /// nothing is started and nothing is shown.
    pub fn kill(&mut self) -> (actions: Vec<Action>)
        ensures
            final(self)@ == old(self)@.release(),
            action_views(actions@) == old(self)@.retire_actions(),
            old(self)@.wf() ==> final(self)@.wf(),
    {
        let mut actions: Vec<Action> = Vec::new();
        assert(action_views(actions@) =~= Seq::<ActionView>::empty());
        self.take_handle(&mut actions);
        actions
    }

    /// The shell is about to exit: the handle in the slot is taken and killed.
    pub fn exit_requested(&mut self) -> (actions: Vec<Action>)
        ensures
            final(self)@ == old(self)@.release(),
            action_views(actions@) == old(self)@.retire_actions(),
            old(self)@.wf() ==> final(self)@.wf(),
    {
        self.kill()
    }

    /// A window was asked to close. The main window is hidden and kept while
    /// the backend has not been seen to end.
    pub fn close_requested(&self, main_window: bool) -> (actions: Vec<Action>)
        ensures
            action_views(actions@) == self@.close_actions(main_window),
    {
        let mut actions: Vec<Action> = Vec::new();
        if main_window && !self.is_shutdown {
            actions.push(Action::HideMain);
            actions.push(Action::CancelClose);
        }
        assert(action_views(actions@) =~= self@.close_actions(main_window));
        actions
    }

    /// A spawn succeeded. The process is put in the slot if the current
    /// generation waits for it, and killed at once if not.
    pub fn spawned(&mut self, generation: u64) -> (actions: Vec<Action>)
        ensures
            final(self)@ == old(self)@.spawned(generation as nat),
            action_views(actions@) == old(self)@.spawned_actions(generation as nat),
            old(self)@.wf() ==> final(self)@.wf(),
    {
        let mut actions: Vec<Action> = Vec::new();
        let in_slot = match self.handle {
            Some(h) => h == generation,
            None => false,
        };
        if self.phase == Phase::Starting && generation == self.generation
            && self.handle.is_none() {
            self.handle = Some(generation);
        } else if !in_slot {
            actions.push(Action::Kill { generation });
        }
        assert(action_views(actions@) =~= old(self)@.spawned_actions(generation as nat));
        actions
    }

    /// A spawn failed. For the generation that waits for it this is fatal:
    /// the crash is shown with the error, and the shell exits after the
    /// grace period.
    pub fn spawn_failed(&mut self, generation: u64, error: String) -> (actions: Vec<Action>)
        ensures
            final(self)@ == old(self)@.spawn_failed(generation as nat),
            action_views(actions@) == old(self)@.spawn_failed_actions(generation as nat, error@),
            old(self)@.wf() ==> final(self)@.wf(),
    {
        let mut actions: Vec<Action> = Vec::new();
        if self.phase == Phase::Starting && generation == self.generation
            && self.handle.is_none() {
            self.phase = Phase::Failed;
            actions.push(Action::CloseSplash);
            actions.push(Action::ShowCrash);
            actions.push(Action::Crash { notice: spawn_failure_notice(error.as_str()) });
            actions.push(Action::Pause { secs: GRACE_SECS });
            actions.push(Action::Exit { code: FATAL_EXIT_CODE });
        }
        assert(action_views(actions@) =~= old(self)@.spawn_failed_actions(
            generation as nat,
            error@,
        ));
        actions
    }

    /// A line of output that was already classified.
    pub fn line_classified(&mut self, generation: u64, outcome: LineOutcome) -> (actions: Vec<
        Action,
    >)
        ensures
            final(self)@ == old(self)@.line(generation as nat, outcome@),
            action_views(actions@) == old(self)@.line_actions(generation as nat, outcome@),
            old(self)@.wf() ==> final(self)@.wf(),
    {
        let mut actions: Vec<Action> = Vec::new();
        assert(action_views(actions@) =~= Seq::<ActionView>::empty());
        let active = self.phase == Phase::Starting || self.phase == Phase::Settling || self.phase
            == Phase::Running;
        match outcome {
            LineOutcome::Text { text, ready } => {
                if !active || generation != self.generation {
                } else if self.phase == Phase::Starting && ready {
                    self.phase = Phase::Settling;
                    actions.push(Action::Settle { secs: SETTLE_SECS, text });
                    assert(action_views(actions@) =~= old(self)@.line_actions(
                        generation as nat,
                        outcome@,
                    ));
                } else {
                    forward_into(&mut actions, text);
                    assert(action_views(actions@) =~= old(self)@.line_actions(
                        generation as nat,
                        outcome@,
                    ));
                }
            },
            LineOutcome::Dropped => {},
        }
        actions
    }

    /// A raw line of output: it is stripped of escape sequences, decoded and
    /// searched for the marker, then handled as [`Supervisor::line_classified`]
    /// handles the outcome.
    pub fn output(&mut self, generation: u64, line: &[u8]) -> (actions: Vec<Action>)
        ensures
            final(self)@ == old(self)@.line(
                generation as nat,
                outcome_of(stripped_bytes(line@), old(self)@.marker),
            ),
            action_views(actions@) == old(self)@.line_actions(
                generation as nat,
                outcome_of(stripped_bytes(line@), old(self)@.marker),
            ),
            old(self)@.wf() ==> final(self)@.wf(),
    {
        let outcome = classify_line(line, self.marker.as_slice());
        self.line_classified(generation, outcome)
    }

    /// The settle delay is over: `server_started` goes up, the main surface
    /// takes the place of the splash surface, and the line that held the
    /// marker is forwarded.
    pub fn settled(&mut self, generation: u64, text: String) -> (actions: Vec<Action>)
        ensures
            final(self)@ == old(self)@.settled(generation as nat),
            action_views(actions@) == old(self)@.settled_actions(generation as nat, text@),
            old(self)@.wf() ==> final(self)@.wf(),
    {
        let mut actions: Vec<Action> = Vec::new();
        if self.phase == Phase::Settling && generation == self.generation {
            self.phase = Phase::Running;
            self.server_started = true;
            actions.push(Action::CloseSplash);
            actions.push(Action::ShowMain);
            assert(action_views(actions@) =~= seq![ActionView::CloseSplash, ActionView::ShowMain]);
            forward_into(&mut actions, text);
        }
        assert(action_views(actions@) =~= old(self)@.settled_actions(generation as nat, text@));
        actions
    }

    /// The process ended: `is_shutdown` goes up. If the backend never became
    /// ready, or the policy makes every end fatal, the crash is shown with the
    /// exit code, and the shell exits after the grace period.
    pub fn terminated(&mut self, generation: u64, code: Option<i32>) -> (actions: Vec<Action>)
        ensures
            final(self)@ == old(self)@.terminated(generation as nat),
            action_views(actions@) == old(self)@.terminated_actions(generation as nat, code),
            old(self)@.wf() ==> final(self)@.wf(),
    {
        let mut actions: Vec<Action> = Vec::new();
        let active = self.phase == Phase::Starting || self.phase == Phase::Settling || self.phase
            == Phase::Running;
        if active && generation == self.generation {
            self.is_shutdown = true;
            if self.server_started && self.policy == ExitPolicy::RecordOnly {
                self.phase = Phase::Stopped;
            } else {
                self.phase = Phase::Failed;
                let shown: i32 = match code {
                    Some(c) => c,
                    None => UNKNOWN_EXIT_CODE,
                };
                actions.push(Action::CloseSplash);
                actions.push(Action::CloseMain);
                actions.push(Action::ShowCrash);
                actions.push(Action::Crash { notice: early_exit_notice(shown) });
                actions.push(Action::Pause { secs: GRACE_SECS });
                actions.push(Action::Exit { code: FATAL_EXIT_CODE });
            }
        }
        assert(action_views(actions@) =~= old(self)@.terminated_actions(generation as nat, code));
        actions
    }

    /// Handles any event: the state moves as [`Lifecycle::next`] says and the
    /// actions of [`Lifecycle::next_actions`] are returned.
    pub fn step(&mut self, event: Event) -> (actions: Vec<Action>)
        requires
            (event is Launch || event is Restart) ==> old(self)@.generation < u64::MAX,
        ensures
            final(self)@ == old(self)@.next(event@),
            action_views(actions@) == old(self)@.next_actions(event@),
            old(self)@.wf() ==> final(self)@.wf(),
    {
        match event {
            Event::Launch => self.launch(),
            Event::Restart => self.restart(),
            Event::Kill => self.kill(),
            Event::ExitRequested => self.exit_requested(),
            Event::CloseRequested { main_window } => self.close_requested(main_window),
            Event::Spawned { generation } => self.spawned(generation),
            Event::SpawnFailed { generation, error } => self.spawn_failed(generation, error),
            Event::Output { generation, line } => self.output(generation, line.as_slice()),
            Event::Settled { generation, text } => self.settled(generation, text),
            Event::Terminated { generation, code } => self.terminated(generation, code),
        }
    }
}

} // verus!
