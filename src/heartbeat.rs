//! The heartbeat engine: the decisions that keep one registration alive.
//!
//! The engine never performs a request itself. Each call of
//! [`HeartbeatEngine::step`] takes the outcome of the request or sleep that
//! the engine last asked for and returns what to do next; the caller performs
//! that action and reports its outcome in turn.
use vstd::prelude::*;

verus! {

/// Milliseconds taken off the server's beat interval, so that the next beat
/// arrives before the server's liveness window closes.
pub const BEAT_SAFETY_MARGIN_MILLIS: u64 = 2;

/// The server's reply to a beat.
#[derive(Clone, Copy, Debug, PartialEq, Eq, Structural)]
pub struct NacosBeat {
    /// The interval the server asks for until the next beat.
    pub client_beat_interval: u64,
    pub code: i32,
    /// Whether the next beat may leave out the instance's full descriptor.
    pub light_beat_enabled: bool,
}

/// How long to wait before the next beat, given the server's interval.
pub open spec fn next_sleep_millis(interval: u64) -> u64 {
    if interval > BEAT_SAFETY_MARGIN_MILLIS {
        (interval - BEAT_SAFETY_MARGIN_MILLIS) as u64
    } else {
        interval
    }
}

/// The server's interval less the safety margin, when it exceeds the margin.
pub fn beat_delay(interval: u64) -> (r: u64)
    ensures
        r == next_sleep_millis(interval),
{
    if interval > BEAT_SAFETY_MARGIN_MILLIS {
        interval - BEAT_SAFETY_MARGIN_MILLIS
    } else {
        interval
    }
}

/// The beat mode of a registration.
#[derive(Debug)]
pub enum HeartbeatState {
    /// Beats carry no descriptor.
    LightBeat,
    /// Beats carry the instance's full descriptor, as last fetched.
    FullBeat { payload: String },
    /// The loop has ended; nothing more is sent.
    Terminated,
}

/// What the engine waits for.
#[derive(Debug)]
pub enum Awaiting {
    /// The reply to a beat.
    BeatReply,
    /// The instance's descriptor; the sleep that follows it is already known.
    DetailReply { sleep_millis: u64 },
    /// The end of the sleep before the next beat.
    SleepEnd,
}

/// The outcome of the action that the engine last asked for.
#[derive(Debug)]
pub enum HeartbeatEvent {
    /// The beat was answered with this directive.
    BeatReplied(NacosBeat),
    /// The instance's descriptor, as text.
    DetailReplied(String),
    /// The sleep is over.
    SleepEnded,
    /// The request failed: transport error, error status or malformed reply.
    CallFailed,
}

/// What the caller is to do next.
#[derive(Debug)]
pub enum HeartbeatAction {
    /// Send a beat, with the descriptor when there is one.
    SendBeat { payload: Option<String> },
    /// Fetch this instance's full descriptor.
    FetchDetail,
    /// Sleep this many milliseconds.
    Sleep { millis: u64 },
    /// End the loop.
    Stop,
}

/// The state of one registration's heartbeat loop.
#[derive(Debug)]
pub struct HeartbeatEngine {
    pub state: HeartbeatState,
    pub awaiting: Awaiting,
}

/// The descriptor that a beat sent in `state` carries.
pub open spec fn beat_payload(state: HeartbeatState) -> Option<String> {
    match state {
        HeartbeatState::FullBeat { payload } => Some(payload),
        _ => None,
    }
}

/// The engine before its first beat, and that first beat: a light one.
pub open spec fn initial() -> (HeartbeatEngine, HeartbeatAction) {
    (
        HeartbeatEngine { state: HeartbeatState::LightBeat, awaiting: Awaiting::BeatReply },
        HeartbeatAction::SendBeat { payload: None },
    )
}

/// One decision of the engine: its next state and action, given the outcome
/// of what it waited for. A failure, or an outcome of anything else than
/// what it waited for, ends the loop; once ended, it stays ended.
pub open spec fn transition(e: HeartbeatEngine, event: HeartbeatEvent) -> (
    HeartbeatEngine,
    HeartbeatAction,
) {
    let stopped = (HeartbeatEngine { state: HeartbeatState::Terminated, ..e }, HeartbeatAction::Stop);
    if e.state is Terminated {
        stopped
    } else {
        match (e.awaiting, event) {
            (Awaiting::BeatReply, HeartbeatEvent::BeatReplied(beat)) => {
                let millis = next_sleep_millis(beat.client_beat_interval);
                if beat.light_beat_enabled {
                    (
                        HeartbeatEngine { state: HeartbeatState::LightBeat, awaiting: Awaiting::SleepEnd },
                        HeartbeatAction::Sleep { millis },
                    )
                } else {
                    (
                        HeartbeatEngine { awaiting: Awaiting::DetailReply { sleep_millis: millis }, ..e },
                        HeartbeatAction::FetchDetail,
                    )
                }
            },
            (Awaiting::DetailReply { sleep_millis }, HeartbeatEvent::DetailReplied(payload)) => (
                HeartbeatEngine {
                    state: HeartbeatState::FullBeat { payload },
                    awaiting: Awaiting::SleepEnd,
                },
                HeartbeatAction::Sleep { millis: sleep_millis },
            ),
            (Awaiting::SleepEnd, HeartbeatEvent::SleepEnded) => (
                HeartbeatEngine { awaiting: Awaiting::BeatReply, ..e },
                HeartbeatAction::SendBeat { payload: beat_payload(e.state) },
            ),
            _ => stopped,
        }
    }
}

/// The engine after a run of outcomes, and the actions it asked for on the way.
pub open spec fn run(e: HeartbeatEngine, events: Seq<HeartbeatEvent>) -> (
    HeartbeatEngine,
    Seq<HeartbeatAction>,
)
    decreases events.len(),
{
    if events.len() == 0 {
        (e, Seq::empty())
    } else {
        let (next, action) = transition(e, events[0]);
        let (last, rest) = run(next, events.drop_first());
        (last, seq![action] + rest)
    }
}

fn payload_copy(state: &HeartbeatState) -> (r: Option<String>)
    ensures
        r == beat_payload(*state),
{
    match state {
        HeartbeatState::FullBeat { payload } => Some(payload.clone()),
        _ => None,
    }
}

impl HeartbeatEngine {
    /// A new engine, and its first action: a light beat.
    pub fn start() -> (r: (HeartbeatEngine, HeartbeatAction))
        ensures
            r == initial(),
    {
        (
            HeartbeatEngine { state: HeartbeatState::LightBeat, awaiting: Awaiting::BeatReply },
            HeartbeatAction::SendBeat { payload: None },
        )
    }

    /// Whether the loop has ended.
    pub fn is_terminated(&self) -> (r: bool)
        ensures
            r == self.state is Terminated,
    {
        matches!(self.state, HeartbeatState::Terminated)
    }

    fn stop(&mut self) -> (r: HeartbeatAction)
        ensures
            *final(self) == (HeartbeatEngine { state: HeartbeatState::Terminated, ..*old(self) }),
            r == HeartbeatAction::Stop,
    {
        self.state = HeartbeatState::Terminated;
        HeartbeatAction::Stop
    }

    /// Takes the outcome of the last action and decides the next one.
    pub fn step(&mut self, event: HeartbeatEvent) -> (r: HeartbeatAction)
        ensures
            (*final(self), r) == transition(*old(self), event),
    {
        if self.is_terminated() {
            return self.stop();
        }
        match event {
            HeartbeatEvent::BeatReplied(beat) => {
                if !matches!(self.awaiting, Awaiting::BeatReply) {
                    return self.stop();
                }
                let millis = beat_delay(beat.client_beat_interval);
                if beat.light_beat_enabled {
                    self.state = HeartbeatState::LightBeat;
                    self.awaiting = Awaiting::SleepEnd;
                    HeartbeatAction::Sleep { millis }
                } else {
                    self.awaiting = Awaiting::DetailReply { sleep_millis: millis };
                    HeartbeatAction::FetchDetail
                }
            },
            HeartbeatEvent::DetailReplied(payload) => {
                match self.awaiting {
                    Awaiting::DetailReply { sleep_millis } => {
                        self.state = HeartbeatState::FullBeat { payload };
                        self.awaiting = Awaiting::SleepEnd;
                        HeartbeatAction::Sleep { millis: sleep_millis }
                    },
                    _ => self.stop(),
                }
            },
            HeartbeatEvent::SleepEnded => {
                if !matches!(self.awaiting, Awaiting::SleepEnd) {
                    return self.stop();
                }
                self.awaiting = Awaiting::BeatReply;
                HeartbeatAction::SendBeat { payload: payload_copy(&self.state) }
            },
            HeartbeatEvent::CallFailed => self.stop(),
        }
    }
}


/// The outcomes of beat cycles that all succeed and ask for no descriptor,
/// but perhaps the last: each directive answers a beat, and each but the last
/// is followed by the end of the sleep it asked for.
pub open spec fn cycle_events(directives: Seq<NacosBeat>) -> Seq<HeartbeatEvent>
    decreases directives.len(),
{
    if directives.len() <= 1 {
        directives.map_values(|d: NacosBeat| HeartbeatEvent::BeatReplied(d))
    } else {
        seq![HeartbeatEvent::BeatReplied(directives[0]), HeartbeatEvent::SleepEnded]
            + cycle_events(directives.drop_first())
    }
}

proof fn lemma_light_cycles_then_detail(e: HeartbeatEngine, directives: Seq<NacosBeat>)
    requires
        e.state is LightBeat,
        e.awaiting is BeatReply,
        directives.len() >= 1,
        forall|i: int| 0 <= i < directives.len() - 1 ==> #[trigger] directives[i].light_beat_enabled,
        !directives.last().light_beat_enabled,
    ensures
        ({
            let (last, actions) = run(e, cycle_events(directives));
            &&& actions.len() >= 1
            &&& actions.last() is FetchDetail
            &&& forall|i: int| 0 <= i < actions.len() - 1 ==> !(#[trigger] actions[i] is FetchDetail)
            &&& forall|i: int|
                0 <= i < actions.len() ==> (#[trigger] actions[i] is SendBeat ==> actions[i]
                    == HeartbeatAction::SendBeat { payload: None })
            &&& last.awaiting is DetailReply
        }),
    decreases directives.len(),
{
    let d0 = directives[0];
    if directives.len() == 1 {
        let evs = cycle_events(directives);
        assert(evs =~= seq![HeartbeatEvent::BeatReplied(d0)]);
        assert(evs.drop_first() =~= Seq::<HeartbeatEvent>::empty());
        let (next, a) = transition(e, evs[0]);
        assert(run(next, evs.drop_first()).1 =~= Seq::<HeartbeatAction>::empty());
        assert(run(e, evs).1 =~= seq![a]);
        assert(a is FetchDetail);
        assert(run(e, evs).0 == next);
    } else {
        let rest = directives.drop_first();
        assert(d0.light_beat_enabled);
        assert forall|i: int| 0 <= i < rest.len() - 1 implies #[trigger] rest[i].light_beat_enabled by {
            assert(rest[i] == directives[i + 1]);
        }
        assert(rest.last() == directives.last());
        let evs = cycle_events(directives);
        let tail = cycle_events(rest);
        assert(evs =~= seq![HeartbeatEvent::BeatReplied(d0), HeartbeatEvent::SleepEnded] + tail);
        let (e1, a1) = transition(e, evs[0]);
        assert(evs.drop_first() =~= seq![HeartbeatEvent::SleepEnded] + tail);
        let (e2, a2) = transition(e1, evs.drop_first()[0]);
        assert(evs.drop_first().drop_first() =~= tail);
        lemma_light_cycles_then_detail(e2, rest);
        let (last, more) = run(e2, tail);
        assert(run(e1, evs.drop_first()).1 == seq![a2] + run(e2, tail).1);
        assert(run(e1, evs.drop_first()).0 == last);
        assert(run(e, evs).1 == seq![a1] + run(e1, evs.drop_first()).1);
        assert(run(e, evs).0 == last);
        assert(run(e, evs).1 =~= seq![a1, a2] + more);
        let actions = run(e, evs).1;
        assert forall|i: int| 0 <= i < actions.len() - 1 implies !(#[trigger] actions[i] is FetchDetail) by {
            if i >= 2 {
                assert(actions[i] == more[i - 2]);
            }
        }
        assert forall|i: int| 0 <= i < actions.len() && #[trigger] actions[i] is SendBeat implies actions[i]
            == HeartbeatAction::SendBeat { payload: None } by {
            if i >= 2 {
                assert(actions[i] == more[i - 2]);
            }
        }
    }
}

/// When the server allows light beats for the first cycles and withdraws
/// that at the last, the descriptor is fetched exactly once, as the action
/// that answers the last directive; every beat before it is light.
pub proof fn lemma_detail_fetched_once_after_first_full_request(directives: Seq<NacosBeat>)
    requires
        directives.len() >= 1,
        forall|i: int| 0 <= i < directives.len() - 1 ==> #[trigger] directives[i].light_beat_enabled,
        !directives.last().light_beat_enabled,
    ensures
        ({
            let (start, first) = initial();
            let (last, rest) = run(start, cycle_events(directives));
            let actions = seq![first] + rest;
            &&& actions.last() is FetchDetail
            &&& forall|i: int| 0 <= i < actions.len() - 1 ==> !(#[trigger] actions[i] is FetchDetail)
            &&& forall|i: int|
                0 <= i < actions.len() ==> (#[trigger] actions[i] is SendBeat ==> actions[i]
                    == HeartbeatAction::SendBeat { payload: None })
        }),
{
    let (start, first) = initial();
    lemma_light_cycles_then_detail(start, directives);
    let rest = run(start, cycle_events(directives)).1;
    let actions = seq![first] + rest;
    assert forall|i: int| 0 <= i < actions.len() - 1 implies !(#[trigger] actions[i] is FetchDetail) by {
        if i >= 1 {
            assert(actions[i] == rest[i - 1]);
        }
    }
    assert forall|i: int| 0 <= i < actions.len() && #[trigger] actions[i] is SendBeat implies actions[i]
        == HeartbeatAction::SendBeat { payload: None } by {
        if i >= 1 {
            assert(actions[i] == rest[i - 1]);
        }
    }
}

/// Once the loop has ended, whatever is reported, it stays ended and asks
/// for nothing but to stop.
pub proof fn lemma_terminated_is_absorbing(e: HeartbeatEngine, events: Seq<HeartbeatEvent>)
    requires
        e.state is Terminated,
    ensures
        run(e, events).0.state is Terminated,
        run(e, events).1.len() == events.len(),
        forall|i: int| 0 <= i < events.len() ==> #[trigger] run(e, events).1[i] == HeartbeatAction::Stop,
    decreases events.len(),
{
    if events.len() > 0 {
        let (next, action) = transition(e, events[0]);
        lemma_terminated_is_absorbing(next, events.drop_first());
        let rest = run(next, events.drop_first()).1;
        assert forall|i: int| 0 <= i < events.len() implies #[trigger] run(e, events).1[i]
            == HeartbeatAction::Stop by {
            if i >= 1 {
                assert(run(e, events).1[i] == rest[i - 1]);
            }
        }
    }
}

/// A failed beat or descriptor fetch ends the loop at once: the engine is
/// terminated, and every action from then on is to stop, so no request follows.
pub proof fn lemma_failure_terminates(e: HeartbeatEngine, later: Seq<HeartbeatEvent>)
    ensures
        ({
            let (last, actions) = run(e, seq![HeartbeatEvent::CallFailed] + later);
            &&& last.state is Terminated
            &&& actions.len() == later.len() + 1
            &&& forall|i: int| 0 <= i < actions.len() ==> #[trigger] actions[i] == HeartbeatAction::Stop
        }),
{
    let events = seq![HeartbeatEvent::CallFailed] + later;
    let (next, action) = transition(e, events[0]);
    assert(events.drop_first() =~= later);
    assert(next.state is Terminated);
    lemma_terminated_is_absorbing(next, later);
    let rest = run(next, later).1;
    let actions = run(e, events).1;
    assert forall|i: int| 0 <= i < actions.len() implies #[trigger] actions[i] == HeartbeatAction::Stop by {
        if i >= 1 {
            assert(actions[i] == rest[i - 1]);
        }
    }
}

} // verus!
