//! The supervisor as a mathematical state machine: its state, the events it
//! reacts to, the actions it asks for, and one transition function per event.

use crate::notice::{early_exit_text, spawn_failure_text};
use crate::readiness::{outcome_of, stripped_bytes, LineView};
use vstd::prelude::*;

verus! {

/// Seconds between the sight of the readiness marker and the switch of surfaces.
pub const SETTLE_SECS: u64 = 2;

/// Seconds that a crash notice stays on screen before the shell exits.
pub const GRACE_SECS: u64 = 10;

/// Exit code of the shell after a fatal failure.
pub const FATAL_EXIT_CODE: i32 = 1;

/// Exit code reported for a backend whose status carries none.
pub const UNKNOWN_EXIT_CODE: i32 = 1;

/// Where a generation stands.
#[derive(Clone, Copy, Debug, PartialEq, Eq, Structural)]
pub enum Phase {
    /// Nothing was launched yet.
    Idle,
    /// A spawn was asked for; the readiness marker was not seen.
    Starting,
    /// The marker was seen; the settle delay is running.
    Settling,
    /// The backend is ready and the main surface is up.
    Running,
    /// The backend ended after it had been ready, and the shell goes on.
    Stopped,
    /// The spawn failed, or the backend ended and that was fatal.
    Failed,
}

/// What the end of a backend that had been ready means for the shell.
#[derive(Clone, Copy, Debug, PartialEq, Eq, Structural)]
pub enum ExitPolicy {
    /// The end is recorded in `is_shutdown`; the shell goes on.
    RecordOnly,
    /// The end is fatal, as it is before readiness.
    Fatal,
}

/// State of the supervisor. A generation is one launch with the process it
/// spawned; a process handle is known by the number of its generation.
pub struct Lifecycle {
    /// The readiness marker, fixed when the supervisor is made.
    pub marker: Seq<u8>,
    /// What the end of a ready backend means, fixed when the supervisor is made.
    pub policy: ExitPolicy,
    /// Number of launches so far; the current generation.
    pub generation: nat,
    pub phase: Phase,
    /// The slot for the process handle.
    pub handle: Option<nat>,
    /// The current generation's process was seen to end.
    pub is_shutdown: bool,
    /// The current generation became ready.
    pub server_started: bool,
}

/// What the supervisor asks its surroundings to do.
pub enum ActionView {
    Spawn { generation: nat },
    Kill { generation: nat },
    Settle { secs: u64, text: Seq<char> },
    Pause { secs: u64 },
    CloseSplash,
    CloseMain,
    ShowMain,
    ShowCrash,
    HideMain,
    CancelClose,
    Message { text: Seq<char> },
    Crash { notice: Seq<char> },
    Exit { code: i32 },
}

/// What the supervisor is told.
pub enum EventView {
    Launch,
    Restart,
    Kill,
    ExitRequested,
    CloseRequested { main_window: bool },
    Spawned { generation: nat },
    SpawnFailed { generation: nat, error: Seq<char> },
    Output { generation: nat, line: Seq<u8> },
    Settled { generation: nat, text: Seq<char> },
    Terminated { generation: nat, code: Option<i32> },
}

/// The `message` event for a line, if the line is not empty.
pub open spec fn forward(text: Seq<char>) -> Seq<ActionView> {
    if text.len() > 0 {
        seq![ActionView::Message { text }]
    } else {
        seq![]
    }
}

/// The exit code named in a crash notice.
pub open spec fn reported_code(code: Option<i32>) -> i32 {
    match code {
        Some(c) => c,
        None => UNKNOWN_EXIT_CODE,
    }
}

impl Lifecycle {
    /// The state before the first launch.
    pub open spec fn initial(marker: Seq<u8>, policy: ExitPolicy) -> Lifecycle {
        Lifecycle {
            marker,
            policy,
            generation: 0,
            phase: Phase::Idle,
            handle: None,
            is_shutdown: false,
            server_started: false,
        }
    }

    /// The two flags agree with the phase, and the slot holds no handle but
    /// that of the current generation.
    pub open spec fn wf(self) -> bool {
        &&& self.handle matches Some(h) ==> h == self.generation && self.phase != Phase::Idle
        &&& self.phase == Phase::Idle ==> self.generation == 0
        &&& self.phase != Phase::Idle ==> self.generation > 0
        &&& (self.phase == Phase::Running || self.phase == Phase::Stopped) ==> self.server_started
        &&& self.server_started ==> (self.phase == Phase::Running || self.phase == Phase::Stopped
            || (self.phase == Phase::Failed && self.policy == ExitPolicy::Fatal
            && self.is_shutdown))
        &&& self.is_shutdown ==> (self.phase == Phase::Stopped || self.phase == Phase::Failed)
        &&& self.phase == Phase::Stopped ==> self.is_shutdown
    }

    /// A process of the current generation may be alive.
    pub open spec fn active(self) -> bool {
        self.phase == Phase::Starting || self.phase == Phase::Settling || self.phase
            == Phase::Running
    }

    /// `generation` is the current one, and it is active.
    pub open spec fn current(self, generation: nat) -> bool {
        self.active() && generation == self.generation
    }

    /// The current generation waits for the outcome of its spawn.
    pub open spec fn awaits_spawn(self, generation: nat) -> bool {
        self.phase == Phase::Starting && generation == self.generation && self.handle is None
    }

    /// The kill owed to the handle in the slot.
    pub open spec fn retire_actions(self) -> Seq<ActionView> {
        match self.handle {
            Some(h) => seq![ActionView::Kill { generation: h }],
            None => seq![],
        }
    }

    /// Launch and restart: the slot is emptied and a new generation starts
    /// with both flags down.
    pub open spec fn begin(self) -> Lifecycle {
        Lifecycle {
            generation: self.generation + 1,
            phase: Phase::Starting,
            handle: None,
            is_shutdown: false,
            server_started: false,
            ..self
        }
    }

    /// Launch and restart: the old handle is killed before the new spawn.
    pub open spec fn begin_actions(self) -> Seq<ActionView> {
        self.retire_actions().push(ActionView::Spawn { generation: self.generation + 1 })
    }

    /// Kill and exit requests: the slot is emptied.
    pub open spec fn release(self) -> Lifecycle {
        Lifecycle { handle: None, ..self }
    }

    /// A close request on the main window is turned into hiding it while the
    /// backend has not been seen to end; any other close proceeds.
    pub open spec fn close_actions(self, main_window: bool) -> Seq<ActionView> {
        if main_window && !self.is_shutdown {
            seq![ActionView::HideMain, ActionView::CancelClose]
        } else {
            seq![]
        }
    }

    /// A spawned process is adopted by the generation that waits for it.
    pub open spec fn spawned(self, generation: nat) -> Lifecycle {
        if self.awaits_spawn(generation) {
            Lifecycle { handle: Some(generation), ..self }
        } else {
            self
        }
    }

    /// A process that no generation waits for is killed at once, unless it is
    /// the one already in the slot.
    pub open spec fn spawned_actions(self, generation: nat) -> Seq<ActionView> {
        if self.awaits_spawn(generation) || self.handle == Some(generation) {
            seq![]
        } else {
            seq![ActionView::Kill { generation }]
        }
    }

    /// A failed spawn is fatal for the generation that waits for it.
    pub open spec fn spawn_failed(self, generation: nat) -> Lifecycle {
        if self.awaits_spawn(generation) {
            Lifecycle { phase: Phase::Failed, ..self }
        } else {
            self
        }
    }

    /// A failed spawn is shown on the crash surface with the error, and the
    /// shell exits after the grace period.
    pub open spec fn spawn_failed_actions(self, generation: nat, error: Seq<char>) -> Seq<
        ActionView,
    > {
        if self.awaits_spawn(generation) {
            seq![
                ActionView::CloseSplash,
                ActionView::ShowCrash,
                ActionView::Crash { notice: spawn_failure_text(error) },
                ActionView::Pause { secs: GRACE_SECS },
                ActionView::Exit { code: FATAL_EXIT_CODE },
            ]
        } else {
            seq![]
        }
    }

    /// The line is the first of a starting generation to hold the marker.
    pub open spec fn marks_ready(self, generation: nat, outcome: LineView) -> bool {
        &&& self.phase == Phase::Starting
        &&& generation == self.generation
        &&& outcome matches LineView::Text { ready: true, .. }
    }

    /// A classified line: the first ready one starts the settle delay.
    pub open spec fn line(self, generation: nat, outcome: LineView) -> Lifecycle {
        if self.marks_ready(generation, outcome) {
            Lifecycle { phase: Phase::Settling, ..self }
        } else {
            self
        }
    }

    /// A classified line: a dropped line and a line of another generation
    /// yield nothing; the first ready line is handed to the settle delay;
    /// every other line is forwarded.
    pub open spec fn line_actions(self, generation: nat, outcome: LineView) -> Seq<ActionView> {
        match outcome {
            LineView::Text { text, ready } => {
                if !self.current(generation) {
                    seq![]
                } else if self.phase == Phase::Starting && ready {
                    seq![ActionView::Settle { secs: SETTLE_SECS, text }]
                } else {
                    forward(text)
                }
            },
            LineView::Dropped => seq![],
        }
    }

    /// The settle delay is over for the generation that waits in it.
    pub open spec fn settles(self, generation: nat) -> bool {
        self.phase == Phase::Settling && generation == self.generation
    }

    /// The end of the settle delay raises `server_started`.
    pub open spec fn settled(self, generation: nat) -> Lifecycle {
        if self.settles(generation) {
            Lifecycle { phase: Phase::Running, server_started: true, ..self }
        } else {
            self
        }
    }

    /// The end of the settle delay swaps the splash surface for the main one
    /// and forwards the line that held the marker.
    pub open spec fn settled_actions(self, generation: nat, text: Seq<char>) -> Seq<ActionView> {
        if self.settles(generation) {
            seq![ActionView::CloseSplash, ActionView::ShowMain] + forward(text)
        } else {
            seq![]
        }
    }

    /// The end of the process would be fatal: the backend never became
    /// ready, or the policy makes every end fatal.
    pub open spec fn fatal_end(self) -> bool {
        !self.server_started || self.policy == ExitPolicy::Fatal
    }

    /// The end of the current generation's process raises `is_shutdown`.
    pub open spec fn terminated(self, generation: nat) -> Lifecycle {
        if self.current(generation) {
            Lifecycle {
                is_shutdown: true,
                phase: if self.fatal_end() {
                    Phase::Failed
                } else {
                    Phase::Stopped
                },
                ..self
            }
        } else {
            self
        }
    }

    /// A fatal end closes the splash and main surfaces, shows the crash
    /// surface with the exit code, and ends the shell after the grace period;
    /// any other end asks for nothing.
    pub open spec fn terminated_actions(self, generation: nat, code: Option<i32>) -> Seq<
        ActionView,
    > {
        if self.current(generation) && self.fatal_end() {
            seq![
                ActionView::CloseSplash,
                ActionView::CloseMain,
                ActionView::ShowCrash,
                ActionView::Crash { notice: early_exit_text(reported_code(code)) },
                ActionView::Pause { secs: GRACE_SECS },
                ActionView::Exit { code: FATAL_EXIT_CODE },
            ]
        } else {
            seq![]
        }
    }

    /// The state after `event`.
    pub open spec fn next(self, event: EventView) -> Lifecycle {
        match event {
            EventView::Launch => self.begin(),
            EventView::Restart => self.begin(),
            EventView::Kill => self.release(),
            EventView::ExitRequested => self.release(),
            EventView::CloseRequested { main_window } => self,
            EventView::Spawned { generation } => self.spawned(generation),
            EventView::SpawnFailed { generation, error } => self.spawn_failed(generation),
            EventView::Output { generation, line } => self.line(
                generation,
                outcome_of(stripped_bytes(line), self.marker),
            ),
            EventView::Settled { generation, text } => self.settled(generation),
            EventView::Terminated { generation, code } => self.terminated(generation),
        }
    }

    /// The actions owed for `event`, in the order in which they are due.
    pub open spec fn next_actions(self, event: EventView) -> Seq<ActionView> {
        match event {
            EventView::Launch => self.begin_actions(),
            EventView::Restart => self.begin_actions(),
            EventView::Kill => self.retire_actions(),
            EventView::ExitRequested => self.retire_actions(),
            EventView::CloseRequested { main_window } => self.close_actions(main_window),
            EventView::Spawned { generation } => self.spawned_actions(generation),
            EventView::SpawnFailed { generation, error } => self.spawn_failed_actions(
                generation,
                error,
            ),
            EventView::Output { generation, line } => self.line_actions(
                generation,
                outcome_of(stripped_bytes(line), self.marker),
            ),
            EventView::Settled { generation, text } => self.settled_actions(generation, text),
            EventView::Terminated { generation, code } => self.terminated_actions(
                generation,
                code,
            ),
        }
    }
}

} // verus!
