//! What holds of the state machine for every state and every event, and of
//! every run of events.

use crate::model::{ActionView, EventView, ExitPolicy, Lifecycle, Phase, FATAL_EXIT_CODE,
    GRACE_SECS, SETTLE_SECS};
use crate::readiness::{contains_seq, stripped_bytes};
use vstd::prelude::*;
use vstd::utf8::{decode_utf8, valid_utf8};

verus! {

/// The idle state is well formed.
pub proof fn law_initial_wf(marker: Seq<u8>, policy: ExitPolicy)
    ensures
        Lifecycle::initial(marker, policy).wf(),
{
}

/// Every transition keeps the state well formed.
pub proof fn law_next_keeps_wf(s: Lifecycle, e: EventView)
    requires
        s.wf(),
    ensures
        s.next(e).wf(),
{
}

/// The marker and the policy are fixed, and the generation number never
/// goes down; only launch and restart raise it, and by one.
pub proof fn law_generation_advances(s: Lifecycle, e: EventView)
    ensures
        s.next(e).marker == s.marker,
        s.next(e).policy == s.policy,
        s.next(e).generation == if e is Launch || e is Restart {
            s.generation + 1
        } else {
            s.generation
        },
{
}

/// `server_started` goes up only when the settle delay of the current
/// generation is reported over while that generation waits in it.
pub proof fn law_started_rises_on_settled(s: Lifecycle, e: EventView)
    requires
        !s.server_started,
        s.next(e).server_started,
    ensures
        e matches EventView::Settled { generation, .. } && generation == s.generation,
        s.phase == Phase::Settling,
        s.next(e).generation == s.generation,
        s.next(e).phase == Phase::Running,
{
}

/// A generation enters the settle delay only on a line of its own output
/// that decodes and holds the marker, and the only action then is the
/// settle delay itself, with that line.
pub proof fn law_settling_needs_marker(s: Lifecycle, e: EventView)
    requires
        s.phase != Phase::Settling,
        s.next(e).phase == Phase::Settling,
    ensures
        s.phase == Phase::Starting,
        e matches EventView::Output { generation, line } && {
            &&& generation == s.generation
            &&& valid_utf8(stripped_bytes(line))
            &&& contains_seq(stripped_bytes(line), s.marker)
            &&& s.next_actions(e) == seq![
                ActionView::Settle { secs: SETTLE_SECS, text: decode_utf8(stripped_bytes(line)) },
            ]
        },
{
}

/// Within a generation `server_started` never goes down.
pub proof fn law_started_stays(s: Lifecycle, e: EventView)
    requires
        s.wf(),
        s.server_started,
        s.next(e).generation == s.generation,
    ensures
        s.next(e).server_started,
{
}

/// The state after a run of events.
pub open spec fn run(s: Lifecycle, events: Seq<EventView>) -> Lifecycle
    decreases events.len(),
{
    if events.len() == 0 {
        s
    } else {
        run(s.next(events[0]), events.drop_first())
    }
}

/// How often, in a run of events, `server_started` goes from false to true
/// in generation `g`.
pub open spec fn rises(s: Lifecycle, events: Seq<EventView>, g: nat) -> nat
    decreases events.len(),
{
    if events.len() == 0 {
        0
    } else {
        let t = s.next(events[0]);
        let here: nat = if !s.server_started && t.server_started && t.generation == g {
            1
        } else {
            0
        };
        here + rises(t, events.drop_first(), g)
    }
}

/// In every run of events `server_started` goes up at most once in each
/// generation, and not at all in a generation that is over or that is
/// already started.
pub proof fn law_started_rises_once(s: Lifecycle, events: Seq<EventView>, g: nat)
    requires
        s.wf(),
    ensures
        rises(s, events, g) <= 1,
        s.generation > g || (s.generation == g && s.server_started) ==> rises(s, events, g) == 0,
    decreases events.len(),
{
    if events.len() > 0 {
        let e = events[0];
        let t = s.next(e);
        law_next_keeps_wf(s, e);
        law_generation_advances(s, e);
        law_started_rises_once(t, events.drop_first(), g);
        if !s.server_started && t.server_started {
            law_started_rises_on_settled(s, e);
        }
        if s.server_started && t.generation == s.generation {
            law_started_stays(s, e);
        }
    }
}

/// `is_shutdown` goes up only when the current generation's process is seen
/// to end, and goes down only when a new generation is launched.
pub proof fn law_shutdown_follows_termination(s: Lifecycle, e: EventView)
    ensures
        !s.is_shutdown && s.next(e).is_shutdown ==> (e matches EventView::Terminated {
            generation,
            ..
        } && s.current(generation)),
        s.is_shutdown && !s.next(e).is_shutdown ==> (e is Launch || e is Restart),
{
}

/// The handles that are alive after an event: those that were, and the one
/// that the event reports as spawned, but for the one that the event reports
/// as ended and those that the actions kill.
pub open spec fn live_next(live: Set<nat>, s: Lifecycle, e: EventView) -> Set<nat> {
    Set::new(
        |h: nat|
            {
                &&& live.contains(h) || e == (EventView::Spawned { generation: h })
                &&& !(e matches EventView::Terminated { generation, .. } && generation == h)
                &&& !s.next_actions(e).contains(ActionView::Kill { generation: h })
            },
    )
}

/// Every live handle is the one in the slot.
pub open spec fn held(s: Lifecycle, live: Set<nat>) -> bool {
    forall|h: nat| live.contains(h) ==> s.handle == Some(h)
}

/// If every live handle is in the slot before an event, so it is after: a
/// handle leaves the slot only with its kill, and none enters an occupied slot.
pub proof fn law_live_handle_is_held(s: Lifecycle, live: Set<nat>, e: EventView)
    requires
        held(s, live),
    ensures
        held(s.next(e), live_next(live, s, e)),
{
    let t = s.next(e);
    let acts = s.next_actions(e);
    assert forall|h: nat| live_next(live, s, e).contains(h) implies t.handle == Some(h) by {
        match e {
            EventView::Launch | EventView::Restart | EventView::Kill | EventView::ExitRequested => {
                if live.contains(h) {
                    assert(s.handle == Some(h));
                    assert(acts[0] == ActionView::Kill { generation: h });
                }
            },
            EventView::Spawned { generation } => {
                if generation == h && !s.awaits_spawn(h) && s.handle != Some(h) {
                    assert(acts[0] == ActionView::Kill { generation: h });
                }
            },
            _ => {},
        }
    }
}

/// The live handles after a run of events.
pub open spec fn live_run(live: Set<nat>, s: Lifecycle, events: Seq<EventView>) -> Set<nat>
    decreases events.len(),
{
    if events.len() == 0 {
        live
    } else {
        live_run(live_next(live, s, events[0]), s.next(events[0]), events.drop_first())
    }
}

/// After every run of events from the idle state at most one handle is
/// alive, and it is the one in the slot.
pub proof fn law_at_most_one_live_handle(
    marker: Seq<u8>,
    policy: ExitPolicy,
    events: Seq<EventView>,
    a: nat,
    b: nat,
)
    requires
        live_run(Set::empty(), Lifecycle::initial(marker, policy), events).contains(a),
        live_run(Set::empty(), Lifecycle::initial(marker, policy), events).contains(b),
    ensures
        a == b,
        run(Lifecycle::initial(marker, policy), events).handle == Some(a),
{
    law_live_run_is_held(Set::empty(), Lifecycle::initial(marker, policy), events);
}

/// If every live handle is in the slot before a run of events, so it is after.
pub proof fn law_live_run_is_held(live: Set<nat>, s: Lifecycle, events: Seq<EventView>)
    requires
        held(s, live),
    ensures
        held(run(s, events), live_run(live, s, events)),
    decreases events.len(),
{
    if events.len() > 0 {
        law_live_handle_is_held(s, live, events[0]);
        law_live_run_is_held(
            live_next(live, s, events[0]),
            s.next(events[0]),
            events.drop_first(),
        );
    }
}

/// A restart kills the handle in the slot before it asks for the spawn of
/// the next generation, and leaves the slot empty with both flags down.
pub proof fn law_restart_kills_before_spawn(s: Lifecycle)
    ensures
        s.next(EventView::Restart).handle is None,
        !s.next(EventView::Restart).is_shutdown,
        !s.next(EventView::Restart).server_started,
        s.next(EventView::Restart).phase == Phase::Starting,
        s.handle matches Some(h) ==> s.next_actions(EventView::Restart) == seq![
            ActionView::Kill { generation: h },
            ActionView::Spawn { generation: s.generation + 1 },
        ],
        s.handle is None ==> s.next_actions(EventView::Restart) == seq![
            ActionView::Spawn { generation: s.generation + 1 },
        ],
{
    assert(s.handle matches Some(h) ==> s.next_actions(EventView::Restart) =~= seq![
        ActionView::Kill { generation: h },
        ActionView::Spawn { generation: s.generation + 1 },
    ]);
    assert(s.handle is None ==> s.next_actions(EventView::Restart) =~= seq![
        ActionView::Spawn { generation: s.generation + 1 },
    ]);
}

/// Kill is idempotent: a second kill, or a kill with an empty slot, changes
/// nothing and asks for nothing; and a kill never asks for anything but the
/// kill of the handle that was in the slot.
pub proof fn law_kill_is_idempotent(s: Lifecycle)
    ensures
        s.next(EventView::Kill).next(EventView::Kill) == s.next(EventView::Kill),
        s.next(EventView::Kill).next_actions(EventView::Kill) == Seq::<ActionView>::empty(),
        s.handle is None ==> s.next(EventView::Kill) == s && s.next_actions(EventView::Kill)
            == Seq::<ActionView>::empty(),
        forall|i: int|
            0 <= i < s.next_actions(EventView::Kill).len() ==> s.next_actions(EventView::Kill)[i]
                is Kill,
{
}

/// The end of a backend that had been ready asks for nothing and leaves the
/// shell running, unless the policy makes it fatal; the end of one that had
/// not is always fatal.
pub proof fn law_end_is_fatal_before_ready(s: Lifecycle, generation: nat, code: Option<i32>)
    requires
        s.wf(),
        s.current(generation),
    ensures
        s.next(EventView::Terminated { generation, code }).is_shutdown,
        s.server_started && s.policy == ExitPolicy::RecordOnly ==> {
            &&& s.next(EventView::Terminated { generation, code }).phase == Phase::Stopped
            &&& s.next_actions(EventView::Terminated { generation, code }) == Seq::<
                ActionView,
            >::empty()
        },
        !s.server_started ==> {
            &&& s.next(EventView::Terminated { generation, code }).phase == Phase::Failed
            &&& s.next_actions(EventView::Terminated { generation, code }).len() == 6
            &&& s.next_actions(EventView::Terminated { generation, code })[5] == (ActionView::Exit {
                code: FATAL_EXIT_CODE,
            })
        },
{
}

/// The `crash` notice.
pub open spec fn is_crash(a: ActionView) -> bool {
    a is Crash
}

/// Whenever a crash is reported, the generation has failed and the same
/// actions go on to wait the grace period and end the shell with the fatal
/// exit code.
pub proof fn law_crash_ends_the_shell(s: Lifecycle, e: EventView, i: int)
    requires
        0 <= i < s.next_actions(e).len(),
        is_crash(s.next_actions(e)[i]),
    ensures
        s.next(e).phase == Phase::Failed,
        s.phase != Phase::Failed,
        s.next_actions(e).len() == i + 3,
        s.next_actions(e)[i + 1] == (ActionView::Pause { secs: GRACE_SECS }),
        s.next_actions(e)[i + 2] == (ActionView::Exit { code: FATAL_EXIT_CODE }),
        forall|j: int| 0 <= j < i ==> !is_crash(#[trigger] s.next_actions(e)[j]),
{
}

/// A failed generation stays failed until the next launch.
pub proof fn law_failed_stays(s: Lifecycle, e: EventView)
    requires
        s.phase == Phase::Failed,
        s.next(e).generation == s.generation,
    ensures
        s.next(e).phase == Phase::Failed,
{
}

/// The actions owed for `e` hold a crash notice.
pub open spec fn reports_crash(s: Lifecycle, e: EventView) -> bool {
    exists|i: int| 0 <= i < s.next_actions(e).len() && is_crash(#[trigger] s.next_actions(e)[i])
}

/// How often, in a run of events, a crash is reported in generation `g`.
pub open spec fn crashes(s: Lifecycle, events: Seq<EventView>, g: nat) -> nat
    decreases events.len(),
{
    if events.len() == 0 {
        0
    } else {
        let here: nat = if reports_crash(s, events[0]) && s.generation == g {
            1
        } else {
            0
        };
        here + crashes(s.next(events[0]), events.drop_first(), g)
    }
}

/// In every run of events a crash is reported at most once in each
/// generation, and not at all in a generation that is over or has failed.
pub proof fn law_crash_once(s: Lifecycle, events: Seq<EventView>, g: nat)
    ensures
        crashes(s, events, g) <= 1,
        s.generation > g || (s.generation == g && s.phase == Phase::Failed) ==> crashes(
            s,
            events,
            g,
        ) == 0,
    decreases events.len(),
{
    if events.len() > 0 {
        let e = events[0];
        let t = s.next(e);
        law_generation_advances(s, e);
        law_crash_once(t, events.drop_first(), g);
        if reports_crash(s, e) {
            let i = choose|i: int|
                0 <= i < s.next_actions(e).len() && is_crash(#[trigger] s.next_actions(e)[i]);
            law_crash_ends_the_shell(s, e, i);
        }
        if s.phase == Phase::Failed && t.generation == s.generation {
            law_failed_stays(s, e);
        }
    }
}

} // verus!
