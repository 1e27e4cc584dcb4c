use vstd::prelude::*;

pub mod api;
pub mod constants;
pub mod errors;
pub mod json;
pub mod models;
pub mod msgpack;
pub mod payload;
pub mod text;
pub mod transport;

use crate::constants::Constants;
use crate::errors::{error_text, ClientResult, Error, Failure};
use crate::models::{response_view, Frame, Request, Response};
use crate::payload::{put, Json, Payload};

verus! {

/// The two wire transports a session can run over.
#[derive(Clone, Copy, Debug, PartialEq, Eq)]
pub enum ClientMode {
    Web,
    Mobile,
}

/// The mathematical model of a session's state.
pub ghost struct Session {
    /// A transport writer is installed.
    pub connected: bool,
    /// The sequence number given to the last request.
    pub seq: u64,
    pub temp_token: Option<Seq<char>>,
    pub token: Option<Seq<char>>,
    /// The sequence numbers of the requests that await a response.
    pub pending: Set<u64>,
    /// A shutdown signal exists that background tasks can subscribe to.
    pub armed: bool,
    pub user_id: Option<u64>,
    pub action_id: u64,
    pub session_id: i64,
    pub device_id: Option<Seq<char>>,
    pub mt_instance: Option<Seq<char>>,
    pub current_screen: Seq<char>,
}

impl Session {
    /// The state of a client that was just made at the time `now`.
    pub open spec fn fresh(now: i64) -> Session {
        Session {
            connected: false,
            seq: 0,
            temp_token: None,
            token: None,
            pending: Set::empty(),
            armed: true,
            user_id: None,
            action_id: 0,
            session_id: now,
            device_id: None,
            mt_instance: None,
            current_screen: "chats_list_tab"@,
        }
    }

    /// Every request that awaits a response was given a sequence number
    /// that is at least 1 and at most the last one given.
    pub open spec fn ok(self) -> bool {
        forall|s: u64| self.pending.contains(s) ==> 1 <= s <= self.seq
    }

    /// The state after a request was registered.
    pub open spec fn registered(self) -> Session {
        Session {
            seq: (self.seq + 1) as u64,
            pending: self.pending.insert((self.seq + 1) as u64),
            ..self
        }
    }

    /// The state after `n` requests were registered one after another.
    pub open spec fn registered_times(self, n: nat) -> Session
        decreases n,
    {
        if n == 0 {
            self
        } else {
            self.registered_times((n - 1) as nat).registered()
        }
    }

    /// The state after the transport was lost or given up.
    pub open spec fn dropped(self) -> Session {
        Session { connected: false, pending: Set::empty(), ..self }
    }

    /// The state after `disconnect` at the time `now`.
    pub open spec fn reset(self, now: i64) -> Session {
        Session {
            connected: false,
            seq: 0,
            temp_token: None,
            token: None,
            pending: Set::empty(),
            armed: false,
            user_id: None,
            session_id: now,
            ..self
        }
    }

    /// The state after a transport was installed for the given device at
    /// the time `now`.
    pub open spec fn installed(self, device_id: Seq<char>, mt_instance: Seq<char>, now: i64)
        -> Session {
        Session {
            connected: true,
            armed: true,
            session_id: now,
            device_id: Some(device_id),
            mt_instance: Some(mt_instance),
            ..self
        }
    }
}

/// The model of an optional string.
pub open spec fn text_view(s: Option<String>) -> Option<Seq<char>> {
    match s {
        Some(t) => Some(t@),
        None => None,
    }
}

/// Whether a list is strictly increasing.
pub open spec fn increasing(list: Seq<u64>) -> bool {
    forall|i: int, j: int| 0 <= i < j < list.len() ==> list[i] < list[j]
}

/// Whether a list of completions closes exactly the requests in `pending`,
/// each once, in the order of their sequence numbers and each with the
/// error `ConnectionClosed(detail)`.
pub open spec fn closes(list: Seq<(u64, Error)>, pending: Set<u64>, detail: Seq<char>) -> bool {
    &&& forall|i: int, j: int| 0 <= i < j < list.len() ==> list[i].0 < list[j].0
    &&& forall|i: int| 0 <= i < list.len() ==> pending.contains(#[trigger] list[i].0)
    &&& forall|s: u64|
        pending.contains(s) ==> exists|i: int| 0 <= i < list.len() && #[trigger] list[i].0 == s
    &&& forall|i: int|
        0 <= i < list.len() ==> (#[trigger] list[i]).1@ == Failure::ConnectionClosed(detail)
}

/// The text given to requests that are closed because the stream ended.
pub open spec fn closed_text() -> Seq<char> {
    "Соединение закрыто"@
}

/// `chrono::Utc::now().timestamp_millis()`: the time of the call. Nothing is
/// known of it.
#[verifier::external_body]
pub(crate) fn now_millis() -> (out: i64) {
    chrono::Utc::now().timestamp_millis()
}

/// How a request that was registered ended.
#[derive(Debug, PartialEq, Eq)]
pub enum WaitOutcome {
    /// The frame could not be handed to the transport.
    SendFailed(Error),
    /// The slot was completed, with a response or with an error.
    Completed(ClientResult<Response>),
    /// The slot was dropped without being completed.
    Dropped,
    /// No response came within the timeout.
    TimedOut,
}

/// What is to be done to hand a frame to the transport.
#[derive(Debug, PartialEq, Eq)]
pub enum SendPlan {
    /// A writer is installed: write the frame.
    Write,
    /// No writer is installed: connect in mobile mode for this device first,
    /// then ask again.
    Reconnect { device_id: String, mt_instance: String },
    /// The frame cannot be sent.
    Fail(Error),
}

/// The session core: sequence numbers, the table of pending requests, the
/// tokens and what else a session remembers. It decides; the caller
/// performs the I/O and reports back.
pub struct MaxClient {
    connected: bool,
    seq: u64,
    temp_token: Option<String>,
    token: Option<String>,
    pending: Vec<u64>,
    armed: bool,
    user_id: Option<u64>,
    action_id: u64,
    session_id: i64,
    device_id: Option<String>,
    mt_instance: Option<String>,
    current_screen: String,
}

impl View for MaxClient {
    type V = Session;

    closed spec fn view(&self) -> Session {
        Session {
            connected: self.connected,
            seq: self.seq,
            temp_token: text_view(self.temp_token),
            token: text_view(self.token),
            pending: self.pending@.to_set(),
            armed: self.armed,
            user_id: self.user_id,
            action_id: self.action_id,
            session_id: self.session_id,
            device_id: text_view(self.device_id),
            mt_instance: text_view(self.mt_instance),
            current_screen: self.current_screen@,
        }
    }
}

impl MaxClient {
    /// The state is valid: the pending requests are kept in the order of
    /// their sequence numbers, and the model is `ok`.
    pub closed spec fn wf(&self) -> bool {
        &&& increasing(self.pending@)
        &&& forall|i: int| 0 <= i < self.pending@.len() ==> 1 <= #[trigger] self.pending@[i] <= self.seq
    }

    /// A valid state has an `ok` model.
    pub proof fn lemma_wf_ok(&self)
        requires
            self.wf(),
        ensures
            self@.ok(),
    {
    }

    /// An idle client as it is at the time `now`: not connected, nothing
    /// pending, no tokens, on the screen `chats_list_tab`.
    pub fn new_at(now: i64) -> (out: Self)
        ensures
            out.wf(),
            out@ == Session::fresh(now),
    {
        let out = MaxClient {
            connected: false,
            seq: 0,
            temp_token: None,
            token: None,
            pending: Vec::new(),
            armed: true,
            user_id: None,
            action_id: 0,
            session_id: now,
            device_id: None,
            mt_instance: None,
            current_screen: "chats_list_tab".to_owned(),
        };
        assert(out.pending@.to_set() =~= Set::<u64>::empty());
        out
    }

    /// An idle client, with the time of the call as its session id.
    pub fn new() -> (out: Self)
        ensures
            out.wf(),
            exists|now: i64| out@ == Session::fresh(now),
    {
        Self::new_at(now_millis())
    }

    pub fn is_connected(&self) -> (out: bool)
        ensures
            out == self@.connected,
    {
        self.connected
    }

    pub fn set_user_id(&mut self, user_id: u64)
        ensures
            final(self)@ == (Session { user_id: Some(user_id), ..old(self)@ }),
            old(self).wf() ==> final(self).wf(),
    {
        self.user_id = Some(user_id);
    }

    pub fn get_token(&self) -> (out: Option<String>)
        ensures
            text_view(out) == self@.token,
    {
        match &self.token {
            Some(t) => Some(t.clone()),
            None => None,
        }
    }

    pub fn set_token(&mut self, token: String)
        ensures
            final(self)@ == (Session { token: Some(token@), ..old(self)@ }),
            old(self).wf() ==> final(self).wf(),
    {
        self.token = Some(token);
    }

    pub fn set_temp_token(&mut self, token: String)
        ensures
            final(self)@ == (Session { temp_token: Some(token@), ..old(self)@ }),
            old(self).wf() ==> final(self).wf(),
    {
        self.temp_token = Some(token);
    }

    /// The sequence number given to the last request.
    pub fn seq(&self) -> (out: u64)
        ensures
            out == self@.seq,
    {
        self.seq
    }

    pub fn get_temp_token(&self) -> (out: Option<String>)
        ensures
            text_view(out) == self@.temp_token,
    {
        match &self.temp_token {
            Some(t) => Some(t.clone()),
            None => None,
        }
    }

    pub fn user_id(&self) -> (out: Option<u64>)
        ensures
            out == self@.user_id,
    {
        self.user_id
    }

    pub fn action_id(&self) -> (out: u64)
        ensures
            out == self@.action_id,
    {
        self.action_id
    }

    pub fn session_id(&self) -> (out: i64)
        ensures
            out == self@.session_id,
    {
        self.session_id
    }

    pub fn current_screen(&self) -> (out: String)
        ensures
            out@ == self@.current_screen,
    {
        self.current_screen.clone()
    }

    /// Whether a shutdown signal exists that background tasks can subscribe
    /// to.
    pub fn is_armed(&self) -> (out: bool)
        ensures
            out == self@.armed,
    {
        self.armed
    }

    /// The sequence numbers of the requests that await a response, in
    /// increasing order.
    pub fn pending(&self) -> (out: Vec<u64>)
        requires
            self.wf(),
        ensures
            out@.to_set() == self@.pending,
            increasing(out@),
    {
        self.pending.clone()
    }

    /// Whether the request with this sequence number awaits a response.
    pub fn is_pending(&self, seq: u64) -> (out: bool)
        ensures
            out == self@.pending.contains(seq),
    {
        self.position(seq).is_some()
    }

    fn position(&self, seq: u64) -> (out: Option<usize>)
        ensures
            match out {
                Some(i) => i < self.pending@.len() && self.pending@[i as int] == seq,
                None => !self.pending@.contains(seq),
            },
            out is Some == self@.pending.contains(seq),
    {
        let mut i: usize = 0;
        while i < self.pending.len()
            invariant
                i <= self.pending@.len(),
                forall|j: int| 0 <= j < i ==> self.pending@[j] != seq,
            decreases self.pending@.len() - i,
        {
            if self.pending[i] == seq {
                assert(self.pending@.contains(seq));
                return Some(i);
            }
            i = i + 1;
        }
        None
    }

    fn forget(&mut self, seq: u64)
        requires
            old(self).wf(),
        ensures
            final(self).wf(),
            final(self)@ == (Session { pending: old(self)@.pending.remove(seq), ..old(self)@ }),
    {
        match self.position(seq) {
            Some(i) => {
                let ghost before = self.pending@;
                self.pending.remove(i);
                proof {
                    lemma_remove_set(before, i as int);
                }
            },
            None => {
                assert(self@.pending.remove(seq) =~= self@.pending);
            },
        }
    }

    fn drain(&mut self, detail: &str) -> (out: Vec<(u64, Error)>)
        requires
            old(self).wf(),
        ensures
            final(self).wf(),
            final(self)@ == (Session { pending: Set::empty(), ..old(self)@ }),
            final(self).pending@.len() == 0,
            closes(out@, old(self)@.pending, detail@),
    {
        let mut out: Vec<(u64, Error)> = Vec::new();
        let mut i: usize = 0;
        while i < self.pending.len()
            invariant
                i <= self.pending@.len(),
                out@.len() == i,
                *self == *old(self),
                forall|j: int| 0 <= j < i ==> (#[trigger] out@[j]).0 == self.pending@[j],
                forall|j: int|
                    0 <= j < i ==> (#[trigger] out@[j]).1@ == Failure::ConnectionClosed(detail@),
            decreases self.pending@.len() - i,
        {
            out.push((self.pending[i], Error::ConnectionClosed(detail.to_owned())));
            i = i + 1;
        }
        proof {
            let list = out@;
            let pending = self.pending@;
            assert forall|s: u64| pending.to_set().contains(s) implies exists|k: int|
                0 <= k < list.len() && #[trigger] list[k].0 == s by {
                let k = choose|k: int| 0 <= k < pending.len() && pending[k] == s;
                assert(list[k].0 == s);
            }
            assert forall|k: int| 0 <= k < list.len() implies pending.to_set().contains(
                #[trigger] list[k].0,
            ) by {
                assert(pending[k] == list[k].0);
            }
        }
        self.pending.clear();
        assert(self.pending@.to_set() =~= Set::<u64>::empty());
        out
    }

    /// Registers a request: it gets the next sequence number and a slot in
    /// the table of pending requests. The frame that comes back is what the
    /// transport writer is to send.
    pub fn send_and_wait(&mut self, opcode: u16, payload: Payload, cmd: u8) -> (out: Request)
        requires
            old(self).wf(),
            old(self)@.seq < u64::MAX,
        ensures
            final(self).wf(),
            final(self)@ == old(self)@.registered(),
            out@ == (Frame { ver: 11, cmd, seq: final(self)@.seq, opcode, payload: payload@ }),
    {
        self.seq = self.seq + 1;
        let current_seq = self.seq;
        let ghost before = self.pending@;
        self.pending.push(current_seq);
        proof {
            lemma_push_set(before, current_seq);
        }
        Request { ver: 11, cmd, seq: current_seq, opcode, payload }
    }

    /// What `send_frame` decides in a state. Without a writer the frame
    /// waits for one reconnect in mobile mode, if the device is known and
    /// none was tried for this frame yet.
    pub open spec fn send_plan(s: Session, after_reconnect: bool) -> SendPlanKind {
        if s.connected {
            SendPlanKind::Write
        } else if !after_reconnect && s.device_id is Some && s.mt_instance is Some {
            SendPlanKind::Reconnect(s.device_id->Some_0, s.mt_instance->Some_0)
        } else {
            SendPlanKind::Fail(Failure::NotConnected)
        }
    }

    /// Decides how a registered frame gets to the transport. The first
    /// question for a frame is asked with `after_reconnect` false; after the
    /// reconnect that the answer may ask for, the question is asked once more
    /// with `after_reconnect` true.
    pub fn send_frame(&self, after_reconnect: bool) -> (out: SendPlan)
        ensures
            out@ == Self::send_plan(self@, after_reconnect),
    {
        if self.connected {
            return SendPlan::Write;
        }
        if !after_reconnect {
            match (&self.device_id, &self.mt_instance) {
                (Some(id), Some(mt)) => {
                    return SendPlan::Reconnect { device_id: id.clone(), mt_instance: mt.clone() };
                },
                _ => {},
            }
        }
        SendPlan::Fail(Error::NotConnected)
    }

    /// What a response means to the caller: a payload with a member `error`
    /// is an API error that carries the whole payload.
    pub open spec fn checked(resp: Frame) -> Result<Frame, Failure> {
        if resp.payload.member("error"@) is Some {
            Err(Failure::ApiResponse(resp.payload))
        } else {
            Ok(resp)
        }
    }

    /// Tells a response from an API error.
    pub fn check_response(resp: Response) -> (out: ClientResult<Response>)
        ensures
            response_view(out) == Self::checked(resp@),
    {
        if resp.payload.get("error").is_some() {
            Err(Error::ApiResponse(resp.payload))
        } else {
            Ok(resp)
        }
    }

    /// What the caller of a request gets for an outcome.
    pub open spec fn answered(outcome: WaitOutcome) -> Result<Frame, Failure> {
        match outcome {
            WaitOutcome::SendFailed(e) => Err(e@),
            WaitOutcome::Completed(Ok(resp)) => Self::checked(resp@),
            WaitOutcome::Completed(Err(e)) => Err(e@),
            WaitOutcome::Dropped => Err(Failure::OneshotRecvError),
            WaitOutcome::TimedOut => Err(Failure::RequestTimeout(Constants::DEFAULT_TIMEOUT)),
        }
    }

    /// Ends the request with the sequence number `seq`, however it ended: its
    /// slot is no longer in the table of pending requests afterwards, and
    /// nothing else of the state changes.
    pub fn finish_request(&mut self, seq: u64, outcome: WaitOutcome) -> (out: ClientResult<
        Response,
    >)
        requires
            old(self).wf(),
        ensures
            final(self).wf(),
            response_view(out) == Self::answered(outcome),
            final(self)@ == (Session { pending: old(self)@.pending.remove(seq), ..old(self)@ }),
    {
        self.forget(seq);
        match outcome {
            WaitOutcome::SendFailed(e) => Err(e),
            WaitOutcome::Completed(Ok(resp)) => Self::check_response(resp),
            WaitOutcome::Completed(Err(e)) => Err(e),
            WaitOutcome::Dropped => Err(Error::OneshotRecvError),
            WaitOutcome::TimedOut => Err(Error::RequestTimeout(Constants::DEFAULT_TIMEOUT)),
        }
    }

    /// Counts one more telemetry event and gives the new count.
    pub(crate) fn next_action_id(&mut self) -> (out: u64)
        requires
            old(self)@.action_id < u64::MAX,
        ensures
            out == old(self)@.action_id + 1,
            final(self)@ == (Session { action_id: out, ..old(self)@ }),
            old(self).wf() ==> final(self).wf(),
    {
        self.action_id = self.action_id + 1;
        self.action_id
    }

    /// Remembers the screen that telemetry last went to.
    pub(crate) fn set_current_screen(&mut self, screen: String)
        ensures
            final(self)@ == (Session { current_screen: screen@, ..old(self)@ }),
            old(self).wf() ==> final(self).wf(),
    {
        self.current_screen = screen;
    }

    /// Whether an error of the reader concerns one frame only, so that the
    /// session goes on: a frame that could not be decoded.
    pub open spec fn frame_only(e: Failure) -> bool {
        e is ApiResponse || e is ParseError
    }

    /// Handles what the transport reader handed out, or the shutdown signal.
    ///
    /// A frame completes the pending request with its sequence number, whose
    /// slot is removed; a frame that no request awaits is published as an
    /// event. The end of the stream or an error of the connection removes the
    /// writer and closes every pending request. An error that concerns one
    /// frame only is passed over. The shutdown signal stops the task and
    /// leaves the table as it is.
    pub fn read_task(&mut self, event: ReadEvent) -> (out: ReadAction)
        requires
            old(self).wf(),
        ensures
            final(self).wf(),
            match event {
                ReadEvent::Message(Ok(Some(resp))) => if old(self)@.pending.contains(resp.seq) {
                    &&& out is Complete
                    &&& out->Complete_0@ == resp@
                    &&& final(self)@ == (Session {
                        pending: old(self)@.pending.remove(resp.seq),
                        ..old(self)@
                    })
                } else {
                    &&& out is Publish
                    &&& out->Publish_0@ == resp@
                    &&& final(self)@ == old(self)@
                },
                ReadEvent::Message(Ok(None)) => {
                    &&& out is Close
                    &&& closes(out->Close_0@, old(self)@.pending, closed_text())
                    &&& final(self)@ == old(self)@.dropped()
                },
                ReadEvent::Message(Err(e)) => if Self::frame_only(e@) {
                    &&& out is Skip
                    &&& out->Skip_0@ == e@
                    &&& final(self)@ == old(self)@
                } else {
                    &&& out is Close
                    &&& closes(out->Close_0@, old(self)@.pending, error_text(e@))
                    &&& final(self)@ == old(self)@.dropped()
                },
                ReadEvent::Shutdown => out is Stop && final(self)@ == old(self)@,
            },
    {
        match event {
            ReadEvent::Message(Ok(Some(resp))) => {
                if self.is_pending(resp.seq) {
                    self.forget(resp.seq);
                    ReadAction::Complete(resp)
                } else {
                    ReadAction::Publish(resp)
                }
            },
            ReadEvent::Message(Ok(None)) => {
                self.connected = false;
                let list = self.drain("Соединение закрыто");
                ReadAction::Close(list)
            },
            ReadEvent::Message(Err(e)) => {
                let passes = match &e {
                    Error::ApiResponse(_) => true,
                    Error::ParseError(_) => true,
                    _ => false,
                };
                if passes {
                    ReadAction::Skip(e)
                } else {
                    self.connected = false;
                    let detail = e.to_string();
                    let list = self.drain(detail.as_str());
                    ReadAction::Close(list)
                }
            },
            ReadEvent::Shutdown => ReadAction::Stop,
        }
    }

    /// Ends the session at the time `now`: the writer and the shutdown
    /// signal are given up, every pending request is closed, the tokens and
    /// the user id are cleared, the sequence numbers start again at 0 and the
    /// session id is `now`. The device identifiers stay.
    pub fn disconnect_at(&mut self, now: i64) -> (out: Vec<(u64, Error)>)
        requires
            old(self).wf(),
        ensures
            final(self).wf(),
            final(self)@ == old(self)@.reset(now),
            closes(out@, old(self)@.pending, closed_text()),
    {
        self.armed = false;
        self.connected = false;
        let list = self.drain("Соединение закрыто");
        self.temp_token = None;
        self.token = None;
        self.user_id = None;
        self.seq = 0;
        self.session_id = now;
        list
    }

    /// Ends the session, with the time of the call as the new session id.
    pub fn disconnect(&mut self) -> (out: Vec<(u64, Error)>)
        requires
            old(self).wf(),
        ensures
            final(self).wf(),
            exists|now: i64| final(self)@ == old(self)@.reset(now),
            closes(out@, old(self)@.pending, closed_text()),
    {
        self.disconnect_at(now_millis())
    }

    /// Installs a transport that was just opened, at the time `now`: the
    /// device identifiers are stored, the session id is `now`, a new shutdown
    /// signal exists, and the handshake is registered as the next request.
    pub fn connect_at(
        &mut self,
        device_id: String,
        mt_instance: String,
        is_mobile: bool,
        now: i64,
    ) -> (out: Request)
        requires
            old(self).wf(),
            old(self)@.seq < u64::MAX,
        ensures
            final(self).wf(),
            final(self)@ == old(self)@.installed(device_id@, mt_instance@, now).registered(),
            out@ == (Frame {
                ver: 11,
                cmd: 0,
                seq: final(self)@.seq,
                opcode: 6,
                payload: handshake_json(device_id@, mt_instance@, is_mobile),
            }),
    {
        let payload = handshake_payload(device_id.as_str(), mt_instance.as_str(), is_mobile);
        self.device_id = Some(device_id);
        self.mt_instance = Some(mt_instance);
        self.session_id = now;
        self.connected = true;
        self.armed = true;
        self.send_and_wait(6, payload, 0)
    }

    /// Installs a transport that was just opened, with the time of the call
    /// as the session id.
    pub fn connect(&mut self, device_id: String, mt_instance: String, is_mobile: bool) -> (out:
        Request)
        requires
            old(self).wf(),
            old(self)@.seq < u64::MAX,
        ensures
            final(self).wf(),
            exists|now: i64|
                final(self)@ == old(self)@.installed(device_id@, mt_instance@, now).registered(),
            out@ == (Frame {
                ver: 11,
                cmd: 0,
                seq: final(self)@.seq,
                opcode: 6,
                payload: handshake_json(device_id@, mt_instance@, is_mobile),
            }),
    {
        self.connect_at(device_id, mt_instance, is_mobile, now_millis())
    }

    /// One step of the keepalive task. A tick registers a ping, an answer
    /// lets the task wait for the next tick, and an error or the shutdown
    /// signal stops it.
    pub fn ping_task(&mut self, event: PingEvent) -> (out: PingAction)
        requires
            old(self).wf(),
            event is Tick ==> old(self)@.seq < u64::MAX,
        ensures
            final(self).wf(),
            match event {
                PingEvent::Tick => {
                    &&& final(self)@ == old(self)@.registered()
                    &&& out is Send
                    &&& out->Send_0@ == (Frame {
                        ver: 11,
                        cmd: 0,
                        seq: final(self)@.seq,
                        opcode: 1,
                        payload: ping_json(),
                    })
                },
                PingEvent::Answered(Ok(_)) => out is Wait && final(self)@ == old(self)@,
                PingEvent::Answered(Err(_)) => out is Stop && final(self)@ == old(self)@,
                PingEvent::Shutdown => out is Stop && final(self)@ == old(self)@,
            },
    {
        match event {
            PingEvent::Tick => {
                let mut entries: Vec<(String, Payload)> = Vec::new();
                put(&mut entries, "interactive", Payload::Bool(true));
                PingAction::Send(self.send_and_wait(1, Payload::Object(entries), 0))
            },
            PingEvent::Answered(Ok(_)) => PingAction::Wait,
            PingEvent::Answered(Err(_)) => PingAction::Stop,
            PingEvent::Shutdown => PingAction::Stop,
        }
    }
}

/// What the reader task is told.
#[derive(Debug, PartialEq, Eq)]
pub enum ReadEvent {
    /// What the transport reader handed out: a frame, the end of the stream
    /// (`None`), or an error.
    Message(ClientResult<Option<Response>>),
    /// The shutdown signal fired.
    Shutdown,
}

/// What the reader task is to do.
#[derive(Debug, PartialEq, Eq)]
pub enum ReadAction {
    /// Complete the slot of the request with the frame's sequence number.
    Complete(Response),
    /// Publish the frame on the channel of events.
    Publish(Response),
    /// Report the error and go on reading.
    Skip(Error),
    /// Complete each listed slot with its error and end the task.
    Close(Vec<(u64, Error)>),
    /// End the task.
    Stop,
}

/// What the keepalive task is told.
#[derive(Debug, PartialEq, Eq)]
pub enum PingEvent {
    /// The interval elapsed.
    Tick,
    /// The ping ended.
    Answered(ClientResult<Response>),
    /// The shutdown signal fired.
    Shutdown,
}

/// What the keepalive task is to do.
#[derive(Debug, PartialEq, Eq)]
pub enum PingAction {
    /// Send this ping and report how it ended.
    Send(Request),
    /// Wait for the next tick.
    Wait,
    /// End the task.
    Stop,
}

/// The payload of a ping.
pub open spec fn ping_json() -> Json {
    Json::Obj(Map::<Seq<char>, Json>::empty().insert("interactive"@, Json::Bool(true)))
}

/// The descriptor of the client that the handshake carries in mobile mode.
pub open spec fn mobile_agent_json() -> Json {
    Json::Obj(
        Map::<Seq<char>, Json>::empty().insert("deviceType"@, Json::Str("ANDROID"@)).insert(
            "appVersion"@,
            Json::Str("25.10.0"@),
        ).insert("osVersion"@, Json::Str("Android 13"@)).insert(
            "timezone"@,
            Json::Str("GMT"@),
        ).insert("screen"@, Json::Str("130dpi 130dpi 600x874"@)).insert(
            "pushDeviceType"@,
            Json::Str("GCM"@),
        ).insert("locale"@, Json::Str("ru"@)).insert("buildNumber"@, Json::Int(6401)).insert(
            "deviceName"@,
            Json::Str("unknown Generic Android-x86_64"@),
        ).insert("deviceLocale"@, Json::Str("ru"@)),
    )
}

/// The descriptor of the client that the handshake carries in web mode.
pub open spec fn web_agent_json() -> Json {
    Json::Obj(
        Map::<Seq<char>, Json>::empty().insert("deviceType"@, Json::Str("WEB"@)).insert(
            "locale"@,
            Json::Str("ru"@),
        ).insert("deviceLocale"@, Json::Str("ru"@)).insert(
            "osVersion"@,
            Json::Str("Linux"@),
        ).insert("deviceName"@, Json::Str("Chrome"@)).insert(
            "headerUserAgent"@,
            Json::Str(Constants::HANDSHAKE_USER_AGENT@),
        ).insert("appVersion"@, Json::Str("25.10.13"@)).insert(
            "screen"@,
            Json::Str("1080x1920 1.0x"@),
        ).insert("timezone"@, Json::Str("Europe/Moscow"@)),
    )
}

/// The payload of the handshake for a device, in either mode.
pub open spec fn handshake_json(device_id: Seq<char>, mt_instance: Seq<char>, is_mobile: bool)
    -> Json {
    if is_mobile {
        Json::Obj(
            Map::<Seq<char>, Json>::empty().insert("clientSessionId"@, Json::Int(1)).insert(
                "mt_instanceid"@,
                Json::Str(mt_instance),
            ).insert("userAgent"@, mobile_agent_json()).insert("deviceId"@, Json::Str(device_id)),
        )
    } else {
        Json::Obj(
            Map::<Seq<char>, Json>::empty().insert("deviceId"@, Json::Str(device_id)).insert(
                "userAgent"@,
                web_agent_json(),
            ),
        )
    }
}

/// Builds the payload of the handshake.
pub fn handshake_payload(device_id: &str, mt_instance: &str, is_mobile: bool) -> (out: Payload)
    ensures
        out@ == handshake_json(device_id@, mt_instance@, is_mobile),
{
    if is_mobile {
        let mut agent: Vec<(String, Payload)> = Vec::new();
        put(&mut agent, "deviceType", Payload::text("ANDROID"));
        put(&mut agent, "appVersion", Payload::text("25.10.0"));
        put(&mut agent, "osVersion", Payload::text("Android 13"));
        put(&mut agent, "timezone", Payload::text("GMT"));
        put(&mut agent, "screen", Payload::text("130dpi 130dpi 600x874"));
        put(&mut agent, "pushDeviceType", Payload::text("GCM"));
        put(&mut agent, "locale", Payload::text("ru"));
        put(&mut agent, "buildNumber", Payload::PosInt(6401));
        put(&mut agent, "deviceName", Payload::text("unknown Generic Android-x86_64"));
        put(&mut agent, "deviceLocale", Payload::text("ru"));
        let mut entries: Vec<(String, Payload)> = Vec::new();
        put(&mut entries, "clientSessionId", Payload::PosInt(1));
        put(&mut entries, "mt_instanceid", Payload::text(mt_instance));
        put(&mut entries, "userAgent", Payload::Object(agent));
        put(&mut entries, "deviceId", Payload::text(device_id));
        Payload::Object(entries)
    } else {
        let mut agent: Vec<(String, Payload)> = Vec::new();
        put(&mut agent, "deviceType", Payload::text("WEB"));
        put(&mut agent, "locale", Payload::text("ru"));
        put(&mut agent, "deviceLocale", Payload::text("ru"));
        put(&mut agent, "osVersion", Payload::text("Linux"));
        put(&mut agent, "deviceName", Payload::text("Chrome"));
        put(&mut agent, "headerUserAgent", Payload::text(Constants::HANDSHAKE_USER_AGENT));
        put(&mut agent, "appVersion", Payload::text("25.10.13"));
        put(&mut agent, "screen", Payload::text("1080x1920 1.0x"));
        put(&mut agent, "timezone", Payload::text("Europe/Moscow"));
        let mut entries: Vec<(String, Payload)> = Vec::new();
        put(&mut entries, "deviceId", Payload::text(device_id));
        put(&mut entries, "userAgent", Payload::Object(agent));
        Payload::Object(entries)
    }
}

/// The model of a `SendPlan`.
pub ghost enum SendPlanKind {
    Write,
    Reconnect(Seq<char>, Seq<char>),
    Fail(Failure),
}

impl View for SendPlan {
    type V = SendPlanKind;

    open spec fn view(&self) -> SendPlanKind {
        match self {
            SendPlan::Write => SendPlanKind::Write,
            SendPlan::Reconnect { device_id, mt_instance } => SendPlanKind::Reconnect(
                device_id@,
                mt_instance@,
            ),
            SendPlan::Fail(e) => SendPlanKind::Fail(e@),
        }
    }
}

/// Within a session the sequence numbers on the wire are distinct and
/// strictly increasing: the `m`-th request registered from a valid state gets
/// the number `seq + m`, which is larger than that of every request before
/// it, and the state stays valid.
pub proof fn lemma_sequence_numbers_increase(s: Session, n: nat, m: nat)
    requires
        s.ok(),
        n < m,
        s.seq + m <= u64::MAX,
    ensures
        s.registered_times(m).seq == s.seq + m,
        s.registered_times(n).seq < s.registered_times(m).seq,
        s.registered_times(m).ok(),
        s.registered_times(m).pending.contains(s.registered_times(m).seq),
    decreases m,
{
    if m == 1 {
        assert(s.registered_times(0) == s);
    } else {
        lemma_sequence_numbers_increase(s, 0, (m - 1) as nat);
        if n > 0 {
            lemma_sequence_numbers_increase(s, (n - 1) as nat, n);
        }
    }
}

/// In mobile mode the wire carries the low 8 bits of a sequence number only.
/// Two different requests still differ on the wire while their sequence
/// numbers are less than 256 apart.
pub proof fn lemma_mobile_seq_distinct_within_window(a: u64, b: u64)
    requires
        a < b,
        b - a < 256,
    ensures
        a % 256 != b % 256,
{
}

/// Adding a number at the end of a list adds it to the set of its items.
pub proof fn lemma_push_set(list: Seq<u64>, v: u64)
    ensures
        list.push(v).to_set() == list.to_set().insert(v),
{
    let after = list.push(v);
    assert forall|x: u64| after.to_set().contains(x) <==> list.to_set().insert(v).contains(
        x,
    ) by {
        if after.to_set().contains(x) {
            let i = choose|i: int| 0 <= i < after.len() && after[i] == x;
            if i < list.len() {
                assert(list[i] == x);
            }
        }
        if list.to_set().contains(x) {
            let i = choose|i: int| 0 <= i < list.len() && list[i] == x;
            assert(after[i] == x);
        }
        if x == v {
            assert(after[list.len() as int] == x);
        }
    }
    assert(after.to_set() =~= list.to_set().insert(v));
}

/// Taking one item out of a strictly increasing list leaves a strictly
/// increasing list and takes that item out of the set of its items.
pub proof fn lemma_remove_set(list: Seq<u64>, i: int)
    requires
        increasing(list),
        0 <= i < list.len(),
    ensures
        increasing(list.remove(i)),
        list.remove(i).to_set() == list.to_set().remove(list[i]),
        forall|k: int| 0 <= k < list.remove(i).len() ==> list.contains(#[trigger] list.remove(i)[k]),
{
    let after = list.remove(i);
    assert forall|k: int| 0 <= k < after.len() implies #[trigger] after[k] == (if k < i {
        list[k]
    } else {
        list[k + 1]
    }) by {}
    assert forall|k: int| 0 <= k < after.len() implies list.contains(#[trigger] after[k]) by {
        if k < i {
            assert(list[k] == after[k]);
        } else {
            assert(list[k + 1] == after[k]);
        }
    }
    assert forall|x: u64| after.to_set().contains(x) <==> list.to_set().remove(list[i]).contains(
        x,
    ) by {
        if after.to_set().contains(x) {
            let k = choose|k: int| 0 <= k < after.len() && after[k] == x;
            if k < i {
                assert(list[k] == x);
            } else {
                assert(list[k + 1] == x);
            }
        }
        if list.to_set().remove(list[i]).contains(x) {
            let k = choose|k: int| 0 <= k < list.len() && list[k] == x;
            if k < i {
                assert(after[k] == x);
            } else {
                assert(k > i);
                assert(after[k - 1] == x);
            }
        }
    }
    assert(after.to_set() =~= list.to_set().remove(list[i]));
}

} // verus!
