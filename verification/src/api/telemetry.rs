use vstd::prelude::*;
use rand::distributions::Distribution;
use rand::Rng;
use crate::models::{Frame, Request};
use crate::payload::{items_view, lemma_items_view, put, Json, Payload};
use crate::{MaxClient, Session};

verus! {

/// The sum of a list of weights.
pub open spec fn total_weight(weights: Seq<u32>) -> int
    decreases weights.len(),
{
    if weights.len() == 0 {
        0
    } else {
        total_weight(weights.drop_last()) + weights.last() as int
    }
}

/// One draw from `rand`'s `WeightedIndex` over the given weights, with the
/// thread's generator: an index into the weights. Which one is left open.
#[verifier::external_body]
fn weighted_index(weights: &[u32]) -> (out: usize)
    requires
        weights@.len() > 0,
        0 < total_weight(weights@) <= u32::MAX,
    ensures
        out < weights@.len(),
{
    rand::distributions::WeightedIndex::<u32>::new(weights).unwrap().sample(&mut rand::thread_rng())
}

/// One draw of `gen_range(low..=high)` from the thread's generator: a
/// number between the two bounds, both included. Which one is left open.
#[verifier::external_body]
fn random_between(low: u64, high: u64) -> (out: u64)
    requires
        low <= high,
    ensures
        low <= out <= high,
{
    rand::thread_rng().gen_range(low..=high)
}

/// The five ranges of sleep times in seconds, both ends included, in the
/// order of their weights 5, 10, 15, 20 and 50 in a hundred.
pub open spec fn sleep_range(category: int) -> (u64, u64) {
    if category == 0 {
        (1000, 3000)
    } else if category == 1 {
        (300, 1000)
    } else if category == 2 {
        (60, 300)
    } else if category == 3 {
        (5, 60)
    } else {
        (5, 20)
    }
}

/// Whether a sleep time lies in the range of a category.
pub open spec fn sleeps_in(category: int, secs: u64) -> bool {
    0 <= category < 5 && sleep_range(category).0 <= secs <= sleep_range(category).1
}

/// Whether a sleep time lies in one of the five declared ranges.
pub open spec fn declared_sleep(secs: u64) -> bool {
    sleeps_in(0, secs) || sleeps_in(1, secs) || sleeps_in(2, secs) || sleeps_in(3, secs)
        || sleeps_in(4, secs)
}

/// The range of sleep times of a category.
pub fn sleep_bounds(category: usize) -> (out: (u64, u64))
    requires
        category < 5,
    ensures
        out == sleep_range(category as int),
        out.0 <= out.1,
{
    if category == 0 {
        (1000, 3000)
    } else if category == 1 {
        (300, 1000)
    } else if category == 2 {
        (60, 300)
    } else if category == 3 {
        (5, 60)
    } else {
        (5, 20)
    }
}

/// The weights of the five categories of sleep times, in a hundred.
pub fn sleep_weights() -> (out: [u32; 5])
    ensures
        out@ == seq![5u32, 10u32, 15u32, 20u32, 50u32],
        total_weight(out@) == 100,
{
    let out: [u32; 5] = [5, 10, 15, 20, 50];
    proof {
        let w = out@;
        assert(w =~= seq![5u32, 10u32, 15u32, 20u32, 50u32]);
        let w4 = w.drop_last();
        let w3 = w4.drop_last();
        let w2 = w3.drop_last();
        let w1 = w2.drop_last();
        let w0 = w1.drop_last();
        assert(w0.len() == 0);
        assert(total_weight(w0) == 0);
        assert(w1.last() == 5u32);
        assert(total_weight(w1) == 5);
        assert(w2.last() == 10u32);
        assert(total_weight(w2) == 15);
        assert(w3.last() == 15u32);
        assert(total_weight(w3) == 30);
        assert(w4.last() == 20u32);
        assert(total_weight(w4) == 50);
        assert(w.last() == 50u32);
    }
    out
}

/// The mathematical model of one navigation event.
pub ghost struct NavEvent {
    pub event: Seq<char>,
    pub time: i64,
    pub user_id: u64,
    pub action_id: u64,
    pub screen_to: u32,
    pub screen_from: u32,
    pub session_id: i64,
}

impl NavEvent {
    /// The payload tree of the event.
    pub open spec fn json(self) -> Json {
        Json::Obj(
            Map::<Seq<char>, Json>::empty().insert("event"@, Json::Str(self.event)).insert(
                "time"@,
                Json::Int(self.time as int),
            ).insert("userId"@, Json::Int(self.user_id as int)).insert(
                "type"@,
                Json::Str("NAV"@),
            ).insert(
                "params"@,
                Json::Obj(
                    Map::<Seq<char>, Json>::empty().insert(
                        "actionId"@,
                        Json::Int(self.action_id as int),
                    ).insert("screenTo"@, Json::Int(self.screen_to as int)).insert(
                        "screenFrom"@,
                        Json::Int(self.screen_from as int),
                    ).insert("sourceId"@, Json::Int(1)).insert(
                        "sessionId"@,
                        Json::Int(self.session_id as int),
                    ),
                ),
            ),
        )
    }

    /// The payload that carries the event alone to the telemetry backend.
    pub open spec fn envelope(self) -> Json {
        events_json(seq![self.json()])
    }
}

/// The payload that carries a batch of events to the telemetry backend.
pub open spec fn events_json(events: Seq<Json>) -> Json {
    Json::Obj(Map::<Seq<char>, Json>::empty().insert("events"@, Json::Arr(events)))
}

fn event_payload(
    event: &str,
    time: i64,
    user_id: u64,
    action_id: u64,
    screen_to: u32,
    screen_from: u32,
    session_id: i64,
) -> (out: Payload)
    ensures
        out@ == (NavEvent {
            event: event@,
            time,
            user_id,
            action_id,
            screen_to,
            screen_from,
            session_id,
        }).json(),
{
    let mut params: Vec<(String, Payload)> = Vec::new();
    put(&mut params, "actionId", Payload::PosInt(action_id));
    put(&mut params, "screenTo", Payload::PosInt(screen_to as u64));
    put(&mut params, "screenFrom", Payload::PosInt(screen_from as u64));
    put(&mut params, "sourceId", Payload::PosInt(1));
    put(&mut params, "sessionId", Payload::NegInt(session_id));
    let mut entries: Vec<(String, Payload)> = Vec::new();
    put(&mut entries, "event", Payload::text(event));
    put(&mut entries, "time", Payload::NegInt(time));
    put(&mut entries, "userId", Payload::PosInt(user_id));
    put(&mut entries, "type", Payload::text("NAV"));
    put(&mut entries, "params", Payload::Object(params));
    Payload::Object(entries)
}

impl Session {
    /// The event that opens the telemetry of a session, sent at the time
    /// `now`, where `home` is the id of the screen `chats_list_tab`.
    pub open spec fn cold_start_event(self, now: i64, home: u32) -> NavEvent {
        NavEvent {
            event: "COLD_START"@,
            time: now,
            user_id: self.user_id->Some_0,
            action_id: self.action_id,
            screen_to: home,
            screen_from: 1,
            session_id: self.session_id,
        }
    }

    /// The event of a move from the current screen to the next, sent at the
    /// time `now`.
    pub open spec fn nav_event(self, now: i64, from_id: u32, to_id: u32) -> NavEvent {
        NavEvent {
            event: "NAV"@,
            time: now,
            user_id: self.user_id->Some_0,
            action_id: (self.action_id + 1) as u64,
            screen_to: to_id,
            screen_from: from_id,
            session_id: self.session_id,
        }
    }
}

impl MaxClient {
    /// Registers the request that carries a batch of events to the
    /// telemetry backend.
    pub fn send_navigation_event_internal(&mut self, events: Vec<Payload>) -> (out: Request)
        requires
            old(self).wf(),
            old(self)@.seq < u64::MAX,
        ensures
            final(self).wf(),
            final(self)@ == old(self)@.registered(),
            out@ == (Frame {
                ver: 11,
                cmd: 0,
                seq: final(self)@.seq,
                opcode: 5,
                payload: events_json(items_view(events@)),
            }),
    {
        let mut entries: Vec<(String, Payload)> = Vec::new();
        put(&mut entries, "events", Payload::Array(events));
        self.send_and_wait(5, Payload::Object(entries), 0)
    }

    /// Registers the event that opens the telemetry of a session and counts
    /// it. While the user id is unknown nothing is sent and nothing changes.
    pub fn send_cold_start_internal(&mut self, now: i64, home: u32) -> (out: Option<Request>)
        requires
            old(self).wf(),
            old(self)@.seq < u64::MAX,
            old(self)@.action_id < u64::MAX,
        ensures
            final(self).wf(),
            match old(self)@.user_id {
                Some(_) => {
                    &&& final(self)@ == (Session {
                        action_id: (old(self)@.action_id + 1) as u64,
                        ..old(self)@.registered()
                    })
                    &&& out is Some
                    &&& out->Some_0@ == (Frame {
                        ver: 11,
                        cmd: 0,
                        seq: final(self)@.seq,
                        opcode: 5,
                        payload: old(self)@.cold_start_event(now, home).envelope(),
                    })
                },
                None => out is None && final(self)@ == old(self)@,
            },
    {
        match self.user_id() {
            Some(user_id) => {
                let event = event_payload(
                    "COLD_START",
                    now,
                    user_id,
                    self.action_id(),
                    home,
                    1,
                    self.session_id(),
                );
                let _ = self.next_action_id();
                Some(self.send_one(event))
            },
            None => None,
        }
    }

    /// Registers the event of a move from the current screen to `next` and
    /// counts it; `next` becomes the current screen. While the user id is
    /// unknown nothing is sent and nothing changes.
    pub fn send_random_navigation_internal(
        &mut self,
        now: i64,
        next: String,
        from_id: u32,
        to_id: u32,
    ) -> (out: Option<Request>)
        requires
            old(self).wf(),
            old(self)@.seq < u64::MAX,
            old(self)@.action_id < u64::MAX,
        ensures
            final(self).wf(),
            match old(self)@.user_id {
                Some(_) => {
                    &&& final(self)@ == (Session {
                        action_id: (old(self)@.action_id + 1) as u64,
                        current_screen: next@,
                        ..old(self)@.registered()
                    })
                    &&& out is Some
                    &&& out->Some_0@ == (Frame {
                        ver: 11,
                        cmd: 0,
                        seq: final(self)@.seq,
                        opcode: 5,
                        payload: old(self)@.nav_event(now, from_id, to_id).envelope(),
                    })
                },
                None => out is None && final(self)@ == old(self)@,
            },
    {
        match self.user_id() {
            Some(user_id) => {
                let session_id = self.session_id();
                let action_id = self.next_action_id();
                self.set_current_screen(next);
                let event = event_payload("NAV", now, user_id, action_id, to_id, from_id, session_id);
                Some(self.send_one(event))
            },
            None => None,
        }
    }

    fn send_one(&mut self, event: Payload) -> (out: Request)
        requires
            old(self).wf(),
            old(self)@.seq < u64::MAX,
        ensures
            final(self).wf(),
            final(self)@ == old(self)@.registered(),
            out@ == (Frame {
                ver: 11,
                cmd: 0,
                seq: final(self)@.seq,
                opcode: 5,
                payload: events_json(seq![event@]),
            }),
    {
        let mut events: Vec<Payload> = Vec::new();
        events.push(event);
        proof {
            lemma_items_view(events@);
            assert(items_view(events@) =~= seq![event@]);
        }
        self.send_navigation_event_internal(events)
    }

    /// Draws the time to sleep before the next event, in seconds: first one
    /// of the five categories by its weight, then a time from its range.
    pub fn get_random_sleep_time(&self) -> (out: u64)
        ensures
            declared_sleep(out),
            5 <= out <= 3000,
    {
        let weights = sleep_weights();
        let category = weighted_index(weights.as_slice());
        let (low, high) = sleep_bounds(category);
        let out = random_between(low, high);
        assert(sleeps_in(category as int, out));
        out
    }
}

/// Where the telemetry task stands.
#[derive(Clone, Copy, Debug, PartialEq, Eq)]
pub enum TelemetryPhase {
    /// It waits for the session to be connected and the user to be known.
    Waiting,
    /// It has sent the opening event and sends moves from now on.
    Started,
    /// It has ended.
    Stopped,
}

/// What the telemetry task is told.
#[derive(Debug, PartialEq, Eq)]
pub enum TelemetryEvent {
    /// The task looks whether it can start: at its beginning and after each
    /// wait of a second. `home` is the id of the screen `chats_list_tab`.
    Poll { now: i64, home: u32 },
    /// The request that carried the last event has ended, in whatever way.
    Sent,
    /// The sleep has ended. `next` is the screen that the screen graph picked
    /// as a neighbour of the current one; the two ids are those of the
    /// current screen and of `next`.
    Woke { now: i64, next: String, from_id: u32, to_id: u32 },
    /// The shutdown signal fired.
    Shutdown,
}

/// What the telemetry task is to do.
#[derive(Debug, PartialEq, Eq)]
pub enum TelemetryAction {
    /// Wait a second, then poll again.
    Poll,
    /// Send this request and report when it has ended.
    Send(Request),
    /// Sleep for so many seconds, then report.
    Sleep(u64),
    /// End the task.
    Stop,
}

/// The kind of an event told to the telemetry task.
pub ghost enum Trigger {
    Poll,
    Sent,
    Woke,
    Shutdown,
}

/// The kind of an event that the telemetry task sends.
pub ghost enum Emitted {
    ColdStart,
    Nav,
}

/// One step in the life of a telemetry task: what it is told, and whether
/// at that moment the session is connected and the user known.
pub ghost struct Tick {
    pub trigger: Trigger,
    pub connected: bool,
    pub known: bool,
}

impl TelemetryEvent {
    pub open spec fn trigger(self) -> Trigger {
        match self {
            TelemetryEvent::Poll { .. } => Trigger::Poll,
            TelemetryEvent::Sent => Trigger::Sent,
            TelemetryEvent::Woke { .. } => Trigger::Woke,
            TelemetryEvent::Shutdown => Trigger::Shutdown,
        }
    }
}

impl TelemetryPhase {
    /// The phase after a step.
    pub open spec fn next(self, tick: Tick) -> TelemetryPhase {
        match (self, tick.trigger) {
            (_, Trigger::Shutdown) => TelemetryPhase::Stopped,
            (TelemetryPhase::Waiting, Trigger::Poll) => if tick.connected && tick.known {
                TelemetryPhase::Started
            } else {
                TelemetryPhase::Waiting
            },
            (TelemetryPhase::Started, Trigger::Woke) => if tick.connected {
                TelemetryPhase::Started
            } else {
                TelemetryPhase::Stopped
            },
            (phase, _) => phase,
        }
    }

    /// The event that a step sends, if any: the opening event when the task
    /// starts, a move when a started task wakes up in a connected session
    /// with a known user.
    pub open spec fn emits(self, tick: Tick) -> Option<Emitted> {
        match (self, tick.trigger) {
            (TelemetryPhase::Waiting, Trigger::Poll) => if tick.connected && tick.known {
                Some(Emitted::ColdStart)
            } else {
                None
            },
            (TelemetryPhase::Started, Trigger::Woke) => if tick.connected && tick.known {
                Some(Emitted::Nav)
            } else {
                None
            },
            _ => None,
        }
    }

    /// The events that a task sends over a run of steps, in order.
    pub open spec fn trace(self, ticks: Seq<Tick>) -> Seq<Emitted>
        decreases ticks.len(),
    {
        if ticks.len() == 0 {
            Seq::empty()
        } else {
            let rest = self.next(ticks.first()).trace(ticks.drop_first());
            match self.emits(ticks.first()) {
                Some(e) => seq![e] + rest,
                None => rest,
            }
        }
    }
}

/// A task that has ended sends nothing more.
pub proof fn lemma_stopped_is_silent(ticks: Seq<Tick>)
    ensures
        TelemetryPhase::Stopped.trace(ticks).len() == 0,
    decreases ticks.len(),
{
    if ticks.len() > 0 {
        lemma_stopped_is_silent(ticks.drop_first());
    }
}

/// A task that has started sends moves only.
pub proof fn lemma_started_sends_moves(ticks: Seq<Tick>)
    ensures
        forall|i: int|
            0 <= i < TelemetryPhase::Started.trace(ticks).len()
                ==> TelemetryPhase::Started.trace(ticks)[i] is Nav,
    decreases ticks.len(),
{
    if ticks.len() > 0 {
        lemma_stopped_is_silent(ticks.drop_first());
        lemma_started_sends_moves(ticks.drop_first());
    }
}

/// Whatever a telemetry task is told in its life, and whatever the session
/// does meanwhile: if it sends anything, the first event is the opening event
/// and every later one is a move. So the opening event is sent at most once,
/// and exactly once before any move.
pub proof fn lemma_one_cold_start_first(ticks: Seq<Tick>)
    ensures
        forall|i: int|
            0 <= i < TelemetryPhase::Waiting.trace(ticks).len() ==> (
            TelemetryPhase::Waiting.trace(ticks)[i] is ColdStart <==> i == 0),
    decreases ticks.len(),
{
    if ticks.len() > 0 {
        lemma_stopped_is_silent(ticks.drop_first());
        lemma_started_sends_moves(ticks.drop_first());
        lemma_one_cold_start_first(ticks.drop_first());
    }
}

/// The telemetry task of a session, as a machine that is told what happened
/// and says what to do next.
pub struct Telemetry {
    pub phase: TelemetryPhase,
}

impl MaxClient {
    /// Starts the telemetry task of the session: it begins by waiting. None
    /// is started while the session has no shutdown signal to listen to.
    pub fn spawn_telemetry_task(&self) -> (out: Option<Telemetry>)
        ensures
            match out {
                Some(task) => self@.armed && task.phase == TelemetryPhase::Waiting,
                None => !self@.armed,
            },
    {
        if self.is_armed() {
            Some(Telemetry { phase: TelemetryPhase::Waiting })
        } else {
            None
        }
    }
}

impl Telemetry {
    /// One step of the task.
    ///
    /// While waiting, a poll in a connected session with a known user sends
    /// the opening event and starts the task; any other poll waits on. Once
    /// started, the end of a request is followed by a sleep of a random time,
    /// and the end of a sleep by the next move, unless the session is no
    /// longer connected, which ends the task. The shutdown signal ends it at
    /// once.
    pub fn step(&mut self, client: &mut MaxClient, event: TelemetryEvent) -> (out:
        TelemetryAction)
        requires
            old(client).wf(),
            old(client)@.seq < u64::MAX,
            old(client)@.action_id < u64::MAX,
        ensures
            final(client).wf(),
            final(self).phase == old(self).phase.next(
                Tick {
                    trigger: event.trigger(),
                    connected: old(client)@.connected,
                    known: old(client)@.user_id is Some,
                },
            ),
            match old(self).phase.emits(
                Tick {
                    trigger: event.trigger(),
                    connected: old(client)@.connected,
                    known: old(client)@.user_id is Some,
                },
            ) {
                Some(Emitted::ColdStart) => {
                    &&& event is Poll
                    &&& out is Send
                    &&& out->Send_0@ == (Frame {
                        ver: 11,
                        cmd: 0,
                        seq: final(client)@.seq,
                        opcode: 5,
                        payload: old(client)@.cold_start_event(
                            event->Poll_now,
                            event->Poll_home,
                        ).envelope(),
                    })
                    &&& final(client)@ == (Session {
                        action_id: (old(client)@.action_id + 1) as u64,
                        ..old(client)@.registered()
                    })
                },
                Some(Emitted::Nav) => {
                    &&& event is Woke
                    &&& out is Send
                    &&& out->Send_0@ == (Frame {
                        ver: 11,
                        cmd: 0,
                        seq: final(client)@.seq,
                        opcode: 5,
                        payload: old(client)@.nav_event(
                            event->Woke_now,
                            event->Woke_from_id,
                            event->Woke_to_id,
                        ).envelope(),
                    })
                    &&& final(client)@ == (Session {
                        action_id: (old(client)@.action_id + 1) as u64,
                        current_screen: event->Woke_next@,
                        ..old(client)@.registered()
                    })
                },
                None => {
                    &&& final(client)@ == old(client)@
                    &&& match final(self).phase {
                        TelemetryPhase::Waiting => out is Poll,
                        TelemetryPhase::Started => out is Sleep && declared_sleep(
                            out->Sleep_0,
                        ),
                        TelemetryPhase::Stopped => out is Stop,
                    }
                },
            },
    {
        match event {
            TelemetryEvent::Shutdown => {
                self.phase = TelemetryPhase::Stopped;
                TelemetryAction::Stop
            },
            TelemetryEvent::Poll { now, home } => match self.phase {
                TelemetryPhase::Waiting => {
                    if client.is_connected() {
                        match client.send_cold_start_internal(now, home) {
                            Some(request) => {
                                self.phase = TelemetryPhase::Started;
                                TelemetryAction::Send(request)
                            },
                            None => TelemetryAction::Poll,
                        }
                    } else {
                        TelemetryAction::Poll
                    }
                },
                TelemetryPhase::Started => TelemetryAction::Sleep(client.get_random_sleep_time()),
                TelemetryPhase::Stopped => TelemetryAction::Stop,
            },
            TelemetryEvent::Sent => match self.phase {
                TelemetryPhase::Waiting => TelemetryAction::Poll,
                TelemetryPhase::Started => TelemetryAction::Sleep(client.get_random_sleep_time()),
                TelemetryPhase::Stopped => TelemetryAction::Stop,
            },
            TelemetryEvent::Woke { now, next, from_id, to_id } => match self.phase {
                TelemetryPhase::Waiting => TelemetryAction::Poll,
                TelemetryPhase::Started => {
                    if !client.is_connected() {
                        self.phase = TelemetryPhase::Stopped;
                        TelemetryAction::Stop
                    } else {
                        match client.send_random_navigation_internal(now, next, from_id, to_id) {
                            Some(request) => TelemetryAction::Send(request),
                            None => TelemetryAction::Sleep(client.get_random_sleep_time()),
                        }
                    }
                },
                TelemetryPhase::Stopped => TelemetryAction::Stop,
            },
        }
    }
}

} // verus!
