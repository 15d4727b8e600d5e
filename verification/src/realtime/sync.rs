//! The connection state machine. Every decision of the connection lifecycle is a
//! transition here; the caller performs the transport work a transition asks for and
//! reports the outcome back through the next transition.

use crate::error::AnyListError;
use crate::realtime::events::SyncEvent;
use crate::realtime::heartbeat::{dead_at, HeartbeatManager, MAX_MISSED};
use crate::realtime::reconnect::{next_delay_secs, ReconnectionStrategy, MAX_DELAY_SECS};
use crate::realtime::timing::duration_of_secs;
use std::time::Duration;
use vstd::prelude::*;
use vstd::string::StringExecFns;

verus! {

/// Close code of a normal, caller-initiated closure.
pub const NORMAL_CLOSURE: u16 = 1000;

/// Close code the server sends when the access credential has expired.
pub const TOKEN_EXPIRED: u16 = 4010;

/// Seconds between two looks of the reconnection monitor at the state.
pub const POLL_INTERVAL_SECS: u64 = 1;

/// Connection state for real-time sync.
#[derive(Debug, Clone, Copy, PartialEq, Eq, Structural)]
pub enum ConnectionState {
    /// Not connected.
    Disconnected,
    /// Connecting to server.
    Connecting,
    /// Connected and active.
    Connected,
    /// Connection lost, will retry.
    Reconnecting,
    /// Permanently closed.
    Closed,
}

/// What the transport handed to the inbound pump.
#[derive(Debug)]
pub enum Frame {
    /// A text frame with its content.
    Text(String),
    /// A close frame, with the close code if one was sent.
    Close(Option<u16>),
    /// Any other frame: binary, ping or pong.
    Other,
}

/// What `connect` asks of its caller.
#[derive(Debug, Clone, Copy, PartialEq, Eq, Structural)]
pub enum ConnectAction {
    /// A connection is already open or being opened; there is nothing to do.
    AlreadyActive,
    /// Open the transport now and report the outcome.
    OpenTransport,
}

/// What to do with a transport that was just opened.
#[derive(Debug, Clone, Copy, PartialEq, Eq, Structural)]
pub enum InstallAction {
    /// Make it the connection's transport and start both pumps on it.
    Install,
    /// The connection no longer wants it: close it and start nothing.
    Discard,
}

/// What the outbound heartbeat pump does after a timer tick.
#[derive(Debug, Clone, Copy, PartialEq, Eq)]
pub enum HeartbeatAction {
    /// End the pump.
    Stop,
    /// Send this text frame and report whether that worked.
    Send(&'static str),
}

/// What the reconnection monitor does after a look at the state.
#[derive(Debug, Clone, Copy, PartialEq, Eq)]
pub enum MonitorAction {
    /// Nothing to do until the next look.
    Idle,
    /// Wait this long, then try to open a fresh transport and report the outcome.
    Retry(Duration),
    /// End the monitor.
    Stop,
}

/// What the state machine can be told. This is the vocabulary of the traces the
/// laws below speak of.
pub ghost enum Input {
    /// The application asks to connect.
    Connect,
    /// The transport that `Connect` asked for was opened, or could not be.
    ConnectFinished(bool),
    /// A text frame arrived.
    Text(Seq<char>),
    /// A close frame arrived.
    Close(Option<u16>),
    /// Receiving failed.
    ReceiveFailed,
    /// A frame arrived that is neither text nor close.
    OtherFrame,
    /// The heartbeat timer fired.
    Tick,
    /// The heartbeat frame was sent, or sending failed.
    HeartbeatSent(bool),
    /// The reconnection monitor looks at the state.
    Poll,
    /// The transport of a retry was opened, or could not be.
    ReconnectFinished(bool),
    /// The application disconnects for good.
    Disconnect,
    /// The application asks for a reconnection.
    Reconnect,
}

/// The state machine as a mathematical value.
pub ghost struct SyncModel {
    /// Where the connection stands.
    pub state: ConnectionState,
    /// Heartbeat pulses missed since the last one that arrived.
    pub missed: nat,
    /// The backoff delay most recently handed out, in seconds; zero after a rest.
    pub delay: nat,
}

impl SyncModel {
    /// The model of a freshly constructed connection.
    pub open spec fn initial() -> SyncModel {
        SyncModel { state: ConnectionState::Disconnected, missed: 0, delay: 0 }
    }

    /// What holds of every reachable model: a connected link has missed fewer pulses
    /// than the threshold, and the numbers stay within their limits.
    pub open spec fn wf(self) -> bool {
        &&& self.missed <= MAX_MISSED
        &&& self.delay <= MAX_DELAY_SECS
        &&& (self.state == ConnectionState::Connected ==> self.missed < MAX_MISSED)
    }

    /// The connection over a transport that was just installed: connected, nothing
    /// missed, backoff at rest.
    pub open spec fn established(self) -> SyncModel {
        SyncModel { state: ConnectionState::Connected, missed: 0, delay: 0 }
    }

    /// The same model in another state.
    pub open spec fn with_state(self, state: ConnectionState) -> SyncModel {
        SyncModel { state, ..self }
    }

    /// A connected link drops to `Reconnecting`; any other state stays.
    pub open spec fn lost(self) -> SyncModel {
        if self.state == ConnectionState::Connected {
            self.with_state(ConnectionState::Reconnecting)
        } else {
            self
        }
    }

    /// `connect`: from `Disconnected` or `Reconnecting` to `Connecting`.
    pub open spec fn connect(self) -> SyncModel {
        match self.state {
            ConnectionState::Disconnected | ConnectionState::Reconnecting => self.with_state(
                ConnectionState::Connecting,
            ),
            _ => self,
        }
    }

    /// The outcome of the transport open that `connect` asked for.
    pub open spec fn connect_finished(self, opened: bool) -> SyncModel {
        if self.state != ConnectionState::Connecting {
            self
        } else if opened {
            self.established()
        } else {
            self.with_state(ConnectionState::Disconnected)
        }
    }

    /// A text frame: a heartbeat clears the missed count, anything else leaves the
    /// model alone.
    pub open spec fn text(self, msg: Seq<char>) -> SyncModel {
        if SyncEvent::decode(msg) == Some(SyncEvent::Heartbeat) {
            SyncModel { missed: 0, ..self }
        } else {
            self
        }
    }

    /// A close frame: a connected link goes to `Disconnected` on a normal closure and
    /// to `Reconnecting` on every other code or none.
    pub open spec fn close(self, code: Option<u16>) -> SyncModel {
        if self.state != ConnectionState::Connected {
            self
        } else if code == Some(NORMAL_CLOSURE) {
            self.with_state(ConnectionState::Disconnected)
        } else {
            self.with_state(ConnectionState::Reconnecting)
        }
    }

    /// A heartbeat timer tick: a connected link counts one more missed pulse and is
    /// given up for `Reconnecting` once the threshold is reached.
    pub open spec fn tick(self) -> SyncModel {
        if self.state != ConnectionState::Connected {
            self
        } else if dead_at(self.missed + 1) {
            SyncModel { state: ConnectionState::Reconnecting, missed: self.missed + 1, ..self }
        } else {
            SyncModel { missed: self.missed + 1, ..self }
        }
    }

    /// Whether a tick ends with a heartbeat frame to send.
    pub open spec fn tick_sends(self) -> bool {
        self.state == ConnectionState::Connected && !dead_at(self.missed + 1)
    }

    /// The outcome of sending a heartbeat frame.
    pub open spec fn heartbeat_sent(self, sent: bool) -> SyncModel {
        if sent {
            self
        } else {
            self.lost()
        }
    }

    /// A look of the reconnection monitor: while `Reconnecting` the backoff advances,
    /// while `Connected` it rests.
    pub open spec fn poll(self) -> SyncModel {
        match self.state {
            ConnectionState::Reconnecting => SyncModel {
                delay: next_delay_secs(self.delay),
                ..self
            },
            ConnectionState::Connected => SyncModel { delay: 0, ..self },
            _ => self,
        }
    }

    /// The outcome of the transport open of a retry.
    pub open spec fn reconnect_finished(self, opened: bool) -> SyncModel {
        if self.state == ConnectionState::Reconnecting && opened {
            self.established()
        } else {
            self
        }
    }

    /// `disconnect`: every state ends in `Closed`.
    pub open spec fn disconnect(self) -> SyncModel {
        self.with_state(ConnectionState::Closed)
    }

    /// `reconnect`: every state but `Connected` and `Closed` goes to `Reconnecting`.
    pub open spec fn reconnect(self) -> SyncModel {
        match self.state {
            ConnectionState::Connected | ConnectionState::Closed => self,
            _ => self.with_state(ConnectionState::Reconnecting),
        }
    }

    /// The model after one input.
    pub open spec fn step(self, input: Input) -> SyncModel {
        match input {
            Input::Connect => self.connect(),
            Input::ConnectFinished(opened) => self.connect_finished(opened),
            Input::Text(msg) => self.text(msg),
            Input::Close(code) => self.close(code),
            Input::ReceiveFailed => self.lost(),
            Input::OtherFrame => self,
            Input::Tick => self.tick(),
            Input::HeartbeatSent(sent) => self.heartbeat_sent(sent),
            Input::Poll => self.poll(),
            Input::ReconnectFinished(opened) => self.reconnect_finished(opened),
            Input::Disconnect => self.disconnect(),
            Input::Reconnect => self.reconnect(),
        }
    }

    /// The model after a whole trace of inputs, first input first.
    pub open spec fn run(self, trace: Seq<Input>) -> SyncModel
        decreases trace.len(),
    {
        if trace.len() == 0 {
            self
        } else {
            self.run(trace.drop_last()).step(trace.last())
        }
    }
}

/// The event a text frame hands to the application: what it decodes to, unless that
/// is nothing or a heartbeat.
pub open spec fn forwarded(msg: Seq<char>) -> Option<SyncEvent> {
    match SyncEvent::decode(msg) {
        Some(SyncEvent::Heartbeat) => None,
        other => other,
    }
}

/// The events a run of text frames hands to the application, in arrival order.
pub open spec fn forwarded_all(frames: Seq<Seq<char>>) -> Seq<SyncEvent>
    decreases frames.len(),
{
    if frames.len() == 0 {
        Seq::empty()
    } else {
        let earlier = forwarded_all(frames.drop_last());
        match forwarded(frames.last()) {
            Some(event) => earlier.push(event),
            None => earlier,
        }
    }
}

/// Real-time sync manager: the connection's state, its liveness monitor and its
/// retry pacing, advanced one decision at a time.
pub struct RealtimeSync {
    /// Current connection state.
    state: ConnectionState,
    /// Liveness monitor of the transport in use; replaced with every new transport.
    heartbeat: HeartbeatManager,
    /// Backoff of the reconnection monitor.
    strategy: ReconnectionStrategy,
}

impl View for RealtimeSync {
    type V = SyncModel;

    closed spec fn view(&self) -> SyncModel {
        SyncModel {
            state: self.state,
            missed: self.heartbeat.missed(),
            delay: self.strategy.current_secs(),
        }
    }
}

impl RealtimeSync {
    /// What holds of every connection: its model is well-formed.
    #[verifier::type_invariant]
    pub closed spec fn inv(self) -> bool {
        self@.wf()
    }

    /// The invariant of the connection is the well-formedness of its model.
    pub proof fn lemma_inv_is_wf(self)
        ensures
            self.inv() == self@.wf(),
    {
    }

    /// Create a new real-time sync instance, without connecting.
    pub fn new() -> (sync: Self)
        ensures
            sync@ == SyncModel::initial(),
    {
        Self {
            state: ConnectionState::Disconnected,
            heartbeat: HeartbeatManager::new(),
            strategy: ReconnectionStrategy::new(),
        }
    }

    /// The current connection state.
    pub fn state(&self) -> (state: ConnectionState)
        ensures
            state == self@.state,
    {
        self.state
    }

    /// Whether the connection is up.
    pub fn is_connected(&self) -> (connected: bool)
        ensures
            connected == (self@.state == ConnectionState::Connected),
    {
        self.state == ConnectionState::Connected
    }

    /// Heartbeat pulses missed since the last one that arrived.
    pub fn missed_heartbeats(&self) -> (missed: u8)
        ensures
            missed == self@.missed,
    {
        self.heartbeat.missed_count()
    }

    /// Ask for the connection to be opened. Idempotent while a connection is open or
    /// being opened; refused once the connection was closed for good.
    pub fn connect(&mut self) -> (outcome: Result<ConnectAction, AnyListError>)
        ensures
            final(self)@ == old(self)@.connect(),
            match old(self)@.state {
                ConnectionState::Closed => outcome matches Err(AnyListError::NetworkError(msg))
                    && msg@ == "Cannot connect after permanent closure"@,
                ConnectionState::Connected | ConnectionState::Connecting => outcome == Ok::<
                    ConnectAction,
                    AnyListError,
                >(ConnectAction::AlreadyActive),
                _ => outcome == Ok::<ConnectAction, AnyListError>(ConnectAction::OpenTransport),
            },
    {
        proof {
            use_type_invariant(&*self);
        }
        match self.state {
            ConnectionState::Connected => Ok(ConnectAction::AlreadyActive),
            ConnectionState::Connecting => Ok(ConnectAction::AlreadyActive),
            ConnectionState::Closed => Err(
                AnyListError::NetworkError("Cannot connect after permanent closure".to_owned()),
            ),
            _ => {
                self.state = ConnectionState::Connecting;
                Ok(ConnectAction::OpenTransport)
            },
        }
    }

    /// Report how the transport open that `connect` asked for ended: `Ok` when it was
    /// opened, `Err` with the transport's words when it was not.
    pub fn connect_finished(&mut self, opened: Result<(), String>) -> (outcome: Result<
        InstallAction,
        AnyListError,
    >)
        ensures
            final(self)@ == old(self)@.connect_finished(opened is Ok),
            match opened {
                Ok(_) => outcome == Ok::<InstallAction, AnyListError>(
                    if old(self)@.state == ConnectionState::Connecting {
                        InstallAction::Install
                    } else {
                        InstallAction::Discard
                    },
                ),
                Err(reason) => outcome matches Err(AnyListError::NetworkError(msg)) && msg@
                    == "WebSocket connection failed: "@ + reason@,
            },
    {
        proof {
            use_type_invariant(&*self);
        }
        let connecting = self.state == ConnectionState::Connecting;
        match opened {
            Ok(_) => {
                if connecting {
                    self.establish();
                    Ok(InstallAction::Install)
                } else {
                    Ok(InstallAction::Discard)
                }
            },
            Err(reason) => {
                if connecting {
                    self.state = ConnectionState::Disconnected;
                }
                Err(
                    AnyListError::NetworkError(
                        "WebSocket connection failed: ".to_owned().concat(reason.as_str()),
                    ),
                )
            },
        }
    }

    /// A transport was installed: connected, with a fresh liveness monitor and the
    /// backoff at rest.
    fn establish(&mut self)
        ensures
            final(self)@ == old(self)@.established(),
    {
        proof {
            use_type_invariant(&*self);
        }
        self.heartbeat = HeartbeatManager::new();
        let mut strategy = self.strategy;
        strategy.reset();
        self.strategy = strategy;
        self.state = ConnectionState::Connected;
    }

    /// A connected link is given up for `Reconnecting`; any other state stays.
    fn mark_lost(&mut self)
        ensures
            final(self)@ == old(self)@.lost(),
    {
        proof {
            use_type_invariant(&*self);
        }
        if self.state == ConnectionState::Connected {
            self.state = ConnectionState::Reconnecting;
        }
    }

    /// Handle a text frame: a heartbeat clears the missed count, every other known
    /// notification is returned for the application, an unknown text is ignored.
    pub fn handle_text_message(&mut self, text: &str) -> (event: Option<SyncEvent>)
        ensures
            final(self)@ == old(self)@.text(text@),
            event == forwarded(text@),
    {
        proof {
            use_type_invariant(&*self);
        }
        match SyncEvent::from_message(text) {
            Some(SyncEvent::Heartbeat) => {
                let mut heartbeat = self.heartbeat;
                heartbeat.reset();
                self.heartbeat = heartbeat;
                None
            },
            Some(event) => Some(event),
            None => None,
        }
    }

    /// Handle a close frame: a normal closure takes a connected link to
    /// `Disconnected`, every other code (or none) to `Reconnecting`. A link that is
    /// not connected stays as it is.
    pub fn handle_close(&mut self, code: Option<u16>)
        ensures
            final(self)@ == old(self)@.close(code),
    {
        proof {
            use_type_invariant(&*self);
        }
        if self.state == ConnectionState::Connected {
            match code {
                Some(1000) => {
                    self.state = ConnectionState::Disconnected;
                },
                Some(4010) => {
                    // Credential expired: the retry refreshes it first.
                    self.state = ConnectionState::Reconnecting;
                },
                _ => {
                    self.state = ConnectionState::Reconnecting;
                },
            }
        }
    }

    /// Handle what the inbound pump received. Returns whether the pump keeps
    /// reading, and the event to hand to the application, if any.
    pub fn handle_message(&mut self, received: Result<Frame, String>) -> (handled: (
        bool,
        Option<SyncEvent>,
    ))
        ensures
            match received {
                Ok(Frame::Text(text)) => {
                    &&& final(self)@ == old(self)@.text(text@)
                    &&& handled == (true, forwarded(text@))
                },
                Ok(Frame::Close(code)) => {
                    &&& final(self)@ == old(self)@.close(code)
                    &&& handled == (false, None::<SyncEvent>)
                },
                Ok(Frame::Other) => {
                    &&& final(self)@ == old(self)@
                    &&& handled == (true, None::<SyncEvent>)
                },
                Err(_) => {
                    &&& final(self)@ == old(self)@.lost()
                    &&& handled == (false, None::<SyncEvent>)
                },
            },
    {
        match received {
            Ok(Frame::Text(text)) => {
                let event = self.handle_text_message(text.as_str());
                (true, event)
            },
            Ok(Frame::Close(code)) => {
                self.handle_close(code);
                (false, None)
            },
            Err(_) => {
                self.mark_lost();
                (false, None)
            },
            Ok(Frame::Other) => (true, None),
        }
    }

    /// Count one more missed pulse on a connected link. Returns whether the link is
    /// still considered alive; a dead one is given up for `Reconnecting`.
    fn check_heartbeat_timeout(&mut self) -> (alive: bool)
        requires
            old(self)@.state == ConnectionState::Connected,
        ensures
            final(self)@ == old(self)@.tick(),
            alive == old(self)@.tick_sends(),
    {
        proof {
            use_type_invariant(&*self);
        }
        let mut heartbeat = self.heartbeat;
        let missed = heartbeat.increment_missed();
        if missed >= 3 {
            self.state = ConnectionState::Reconnecting;
            self.heartbeat = heartbeat;
            false
        } else {
            self.heartbeat = heartbeat;
            true
        }
    }

    /// One tick of the heartbeat timer: the pump ends unless the link is connected and
    /// alive, in which case the heartbeat frame is to be sent.
    pub fn heartbeat_tick(&mut self) -> (action: HeartbeatAction)
        ensures
            final(self)@ == old(self)@.tick(),
            old(self)@.tick_sends() ==> (action matches HeartbeatAction::Send(frame) && frame@
                == SyncEvent::Heartbeat.message()),
            !old(self)@.tick_sends() ==> action is Stop,
    {
        if self.state != ConnectionState::Connected {
            return HeartbeatAction::Stop;
        }
        if !self.check_heartbeat_timeout() {
            return HeartbeatAction::Stop;
        }
        HeartbeatAction::Send(SyncEvent::Heartbeat.as_message())
    }

    /// Report how sending the heartbeat frame ended. Returns whether the pump keeps
    /// running; a failed send gives a connected link up for `Reconnecting`.
    pub fn send_heartbeat(&mut self, sent: bool) -> (proceed: bool)
        ensures
            final(self)@ == old(self)@.heartbeat_sent(sent),
            proceed == sent,
    {
        if !sent {
            self.mark_lost();
        }
        sent
    }

    /// One look of the reconnection monitor at the state.
    pub fn poll_reconnection(&mut self) -> (action: MonitorAction)
        ensures
            final(self)@ == old(self)@.poll(),
            action == match old(self)@.state {
                ConnectionState::Reconnecting => MonitorAction::Retry(
                    duration_of_secs(next_delay_secs(old(self)@.delay) as u64),
                ),
                ConnectionState::Closed => MonitorAction::Stop,
                _ => MonitorAction::Idle,
            },
    {
        proof {
            use_type_invariant(&*self);
        }
        match self.state {
            ConnectionState::Reconnecting => {
                let mut strategy = self.strategy;
                let delay = strategy.next_delay();
                self.strategy = strategy;
                MonitorAction::Retry(delay)
            },
            ConnectionState::Connected => {
                let mut strategy = self.strategy;
                strategy.reset();
                self.strategy = strategy;
                MonitorAction::Idle
            },
            ConnectionState::Closed => MonitorAction::Stop,
            _ => MonitorAction::Idle,
        }
    }

    /// Report how the transport open of a retry ended: `Ok` when it was opened, `Err`
    /// with the transport's words when it was not. A failure leaves the state alone,
    /// so the monitor retries at its next look.
    pub fn attempt_reconnect(&mut self, opened: Result<(), String>) -> (outcome: Result<
        InstallAction,
        AnyListError,
    >)
        ensures
            final(self)@ == old(self)@.reconnect_finished(opened is Ok),
            match opened {
                Ok(_) => outcome == Ok::<InstallAction, AnyListError>(
                    if old(self)@.state == ConnectionState::Reconnecting {
                        InstallAction::Install
                    } else {
                        InstallAction::Discard
                    },
                ),
                Err(reason) => outcome matches Err(AnyListError::NetworkError(msg)) && msg@
                    == "Reconnection failed: "@ + reason@,
            },
    {
        match opened {
            Ok(_) => {
                if self.state == ConnectionState::Reconnecting {
                    self.establish();
                    Ok(InstallAction::Install)
                } else {
                    Ok(InstallAction::Discard)
                }
            },
            Err(reason) => Err(
                AnyListError::NetworkError(
                    "Reconnection failed: ".to_owned().concat(reason.as_str()),
                ),
            ),
        }
    }

    /// Close the connection for good. Idempotent, and never fails.
    pub fn disconnect(&mut self) -> (outcome: Result<(), AnyListError>)
        ensures
            final(self)@ == old(self)@.disconnect(),
            outcome is Ok,
    {
        proof {
            use_type_invariant(&*self);
        }
        self.state = ConnectionState::Closed;
        Ok(())
    }

    /// Manually trigger a reconnection. A connected link is left alone; a closed
    /// connection refuses.
    pub fn reconnect(&mut self) -> (outcome: Result<(), AnyListError>)
        ensures
            final(self)@ == old(self)@.reconnect(),
            old(self)@.state == ConnectionState::Closed ==> (outcome matches Err(
                AnyListError::NetworkError(msg),
            ) && msg@ == "Cannot reconnect after permanent closure"@),
            old(self)@.state != ConnectionState::Closed ==> outcome is Ok,
    {
        proof {
            use_type_invariant(&*self);
        }
        if self.state == ConnectionState::Connected {
            return Ok(());
        }
        if self.state == ConnectionState::Closed {
            return Err(
                AnyListError::NetworkError("Cannot reconnect after permanent closure".to_owned()),
            );
        }
        self.state = ConnectionState::Reconnecting;
        Ok(())
    }

    /// How long the reconnection monitor waits between two looks at the state.
    pub fn poll_interval() -> (span: Duration)
        ensures
            span == duration_of_secs(POLL_INTERVAL_SECS),
    {
        Duration::from_secs(POLL_INTERVAL_SECS)
    }
}

} // verus!
