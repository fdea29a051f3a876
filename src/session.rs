use vstd::prelude::*;
use crate::domain::{ContractEvent, Event};
use crate::hexcode::{decode_hex, hex_bytes, is_hex_text};

verus! {

/// Ticks (seconds) between two keep-alive pings to the indexer.
pub const PING_EVERY: u64 = 30;

/// What a text frame from the indexer turned out to hold.
pub enum TextPayload {
    /// The text is not JSON.
    NotJson,
    /// JSON without `payload.data.contractActions`.
    NoContractData,
    /// `contractActions` that does not have the shape of a contract event.
    Malformed,
    Action(ContractEvent),
}

/// A frame read from the indexer's socket, or what stood in its place.
pub enum Frame {
    Text(TextPayload),
    Pong,
    Close,
    /// Any other kind of frame.
    Other,
    /// Reading the socket failed this once.
    ReceiveError,
    /// The socket has no more frames.
    Ended,
}

/// Something that happened to a session.
pub enum Input {
    /// One second passed.
    Tick,
    /// The session's time budget was spent, as the cancellation timer saw it.
    Cancelled,
    Frame(Frame),
    /// Whether the event of the last `Emit` reached the consumer's channel.
    Sent(bool),
    /// Whether the last `Ping` went out.
    Pinged(bool),
    /// The rendering of the bytes of the last `Decode`, if they decoded.
    Decoded(Option<String>),
}

#[derive(Debug, Clone, Copy, PartialEq, Eq, Structural)]
pub enum SessionError {
    /// The state of a contract action was not hex text.
    InvalidHex,
    /// The consumer's channel was closed or full.
    ChannelUnavailable,
}

/// What the session waits for.
pub enum Phase {
    /// Ticks, the cancellation and frames.
    Streaming,
    /// The outcome of an `Emit`, and what to do once it went through.
    Sending { ping_after: bool, stop_after: bool },
    /// The outcome of a `Ping`.
    Pinging,
    /// The rendering of the state of this event.
    Decoding(ContractEvent),
    /// Nothing: the session is over, with this error if it failed.
    Stopped(Option<SessionError>),
}

/// What the driver of a session does next.
pub enum Action {
    /// Nothing; wait for the next input.
    Wait,
    /// Try to send this event to the consumer without blocking, and report `Sent`.
    Emit(Event),
    /// Send a keep-alive ping to the indexer, and report `Pinged`.
    Ping,
    /// Decode these ledger state bytes, and report `Decoded`.
    Decode(Vec<u8>),
    /// End the session with this result.
    Stop(Result<(), SessionError>),
}

/// The decisions of one subscription session: elapsed seconds, keep-alive
/// count and what the session waits for.
pub struct Session {
    pub timeout: u64,
    pub elapsed: u64,
    pub pings: u64,
    pub phase: Phase,
}

/// A session with a budget of `timeout` seconds, none of them spent.
pub open spec fn fresh(timeout: u64) -> Session {
    Session { timeout, elapsed: 0, pings: 0, phase: Phase::Streaming }
}

pub open spec fn outcome(e: Option<SessionError>) -> Result<(), SessionError> {
    match e {
        Some(e) => Err(e),
        None => Ok(()),
    }
}

impl Session {
    pub open spec fn wf(self) -> bool {
        self.elapsed <= self.timeout && self.pings < PING_EVERY
    }

    pub open spec fn with_phase(self, phase: Phase) -> Session {
        Session { phase, ..self }
    }

    /// The session after `i`.
    pub open spec fn next(self, i: Input) -> Session {
        match self.phase {
            Phase::Stopped(_) => self,
            Phase::Streaming => match i {
                Input::Tick => if self.elapsed < self.timeout {
                    Session {
                        elapsed: (self.elapsed + 1) as u64,
                        pings: if self.pings + 1 == PING_EVERY { 0 } else { (self.pings + 1) as u64 },
                        phase: Phase::Sending { ping_after: self.pings + 1 == PING_EVERY, stop_after: false },
                        ..self
                    }
                } else {
                    self.with_phase(Phase::Sending { ping_after: false, stop_after: true })
                },
                Input::Cancelled => self.with_phase(Phase::Sending { ping_after: false, stop_after: true }),
                Input::Frame(Frame::Text(TextPayload::Action(ev))) => if is_hex_text(ev.state@) {
                    self.with_phase(Phase::Decoding(ev))
                } else {
                    self.with_phase(Phase::Stopped(Some(SessionError::InvalidHex)))
                },
                Input::Frame(Frame::Text(_)) | Input::Frame(Frame::Close) | Input::Frame(Frame::Ended) =>
                    self.with_phase(Phase::Stopped(None)),
                _ => self,
            },
            Phase::Sending { ping_after, stop_after } => match i {
                Input::Sent(ok) => if !ok {
                    self.with_phase(Phase::Stopped(Some(SessionError::ChannelUnavailable)))
                } else if stop_after {
                    self.with_phase(Phase::Stopped(None))
                } else if ping_after {
                    self.with_phase(Phase::Pinging)
                } else {
                    self.with_phase(Phase::Streaming)
                },
                _ => self,
            },
            Phase::Pinging => match i {
                Input::Pinged(ok) => if ok {
                    self.with_phase(Phase::Streaming)
                } else {
                    self.with_phase(Phase::Stopped(None))
                },
                _ => self,
            },
            Phase::Decoding(_) => match i {
                Input::Decoded(_) => self.with_phase(Phase::Sending { ping_after: false, stop_after: false }),
                _ => self,
            },
        }
    }

    /// Whether `a` is what the session does on `i`.
    pub open spec fn answers(self, i: Input, a: Action) -> bool {
        match self.phase {
            Phase::Stopped(e) => a == Action::Stop(outcome(e)),
            Phase::Streaming => match i {
                Input::Tick => if self.elapsed < self.timeout {
                    a == Action::Emit(Event::TimeLeft((self.timeout - (self.elapsed + 1)) as u64))
                } else {
                    a == Action::Emit(Event::Disconnect)
                },
                Input::Cancelled => a == Action::Emit(Event::Disconnect),
                Input::Frame(Frame::Text(TextPayload::Action(ev))) => if is_hex_text(ev.state@) {
                    a matches Action::Decode(b) && b@ == hex_bytes(ev.state@)
                } else {
                    a == Action::Stop(Err(SessionError::InvalidHex))
                },
                Input::Frame(Frame::Text(_)) | Input::Frame(Frame::Close) | Input::Frame(Frame::Ended) =>
                    a == Action::Stop(Ok(())),
                _ => a == Action::Wait,
            },
            Phase::Sending { ping_after, stop_after } => match i {
                Input::Sent(ok) => if !ok {
                    a == Action::Stop(Err(SessionError::ChannelUnavailable))
                } else if stop_after {
                    a == Action::Stop(Ok(()))
                } else if ping_after {
                    a == Action::Ping
                } else {
                    a == Action::Wait
                },
                _ => a == Action::Wait,
            },
            Phase::Pinging => match i {
                Input::Pinged(ok) => if ok { a == Action::Wait } else { a == Action::Stop(Ok(())) },
                _ => a == Action::Wait,
            },
            Phase::Decoding(ev) => match i {
                Input::Decoded(Some(s)) => a == Action::Emit(Event::ContractEvent(ContractEvent { state: s, ..ev })),
                Input::Decoded(None) => a == Action::Emit(Event::ContractEvent(ev)),
                _ => a == Action::Wait,
            },
        }
    }

    /// A session with a budget of `timeout` seconds, none of them spent.
    pub fn new(timeout: u64) -> (r: Session)
        ensures
            r == fresh(timeout),
            r.wf(),
    {
        Session { timeout, elapsed: 0, pings: 0, phase: Phase::Streaming }
    }

    /// Takes one input and says what to do about it.
    pub fn step(self, i: Input) -> (r: (Session, Action))
        requires
            self.wf(),
        ensures
            r.0 == self.next(i),
            self.answers(i, r.1),
            r.0.wf(),
    {
        let Session { timeout, elapsed, pings, phase } = self;
        match phase {
            Phase::Stopped(e) => {
                let res = match e {
                    Some(e) => Err(e),
                    None => Ok(()),
                };
                (Session { timeout, elapsed, pings, phase: Phase::Stopped(e) }, Action::Stop(res))
            },
            Phase::Streaming => match i {
                Input::Tick => {
                    if elapsed < timeout {
                        let elapsed = elapsed + 1;
                        let ping_after = pings + 1 == PING_EVERY;
                        let pings = if ping_after { 0 } else { pings + 1 };
                        (
                            Session { timeout, elapsed, pings, phase: Phase::Sending { ping_after, stop_after: false } },
                            Action::Emit(Event::TimeLeft(timeout - elapsed)),
                        )
                    } else {
                        (
                            Session { timeout, elapsed, pings, phase: Phase::Sending { ping_after: false, stop_after: true } },
                            Action::Emit(Event::Disconnect),
                        )
                    }
                },
                Input::Cancelled => (
                    Session { timeout, elapsed, pings, phase: Phase::Sending { ping_after: false, stop_after: true } },
                    Action::Emit(Event::Disconnect),
                ),
                Input::Frame(Frame::Text(TextPayload::Action(ev))) => {
                    match decode_hex(ev.state.as_str()) {
                        Some(bytes) => (
                            Session { timeout, elapsed, pings, phase: Phase::Decoding(ev) },
                            Action::Decode(bytes),
                        ),
                        None => (
                            Session { timeout, elapsed, pings, phase: Phase::Stopped(Some(SessionError::InvalidHex)) },
                            Action::Stop(Err(SessionError::InvalidHex)),
                        ),
                    }
                },
                Input::Frame(Frame::Text(_)) | Input::Frame(Frame::Close) | Input::Frame(Frame::Ended) => (
                    Session { timeout, elapsed, pings, phase: Phase::Stopped(None) },
                    Action::Stop(Ok(())),
                ),
                _ => (Session { timeout, elapsed, pings, phase: Phase::Streaming }, Action::Wait),
            },
            Phase::Sending { ping_after, stop_after } => match i {
                Input::Sent(ok) => {
                    if !ok {
                        (
                            Session { timeout, elapsed, pings, phase: Phase::Stopped(Some(SessionError::ChannelUnavailable)) },
                            Action::Stop(Err(SessionError::ChannelUnavailable)),
                        )
                    } else if stop_after {
                        (Session { timeout, elapsed, pings, phase: Phase::Stopped(None) }, Action::Stop(Ok(())))
                    } else if ping_after {
                        (Session { timeout, elapsed, pings, phase: Phase::Pinging }, Action::Ping)
                    } else {
                        (Session { timeout, elapsed, pings, phase: Phase::Streaming }, Action::Wait)
                    }
                },
                _ => (Session { timeout, elapsed, pings, phase: Phase::Sending { ping_after, stop_after } }, Action::Wait),
            },
            Phase::Pinging => match i {
                Input::Pinged(ok) => {
                    if ok {
                        (Session { timeout, elapsed, pings, phase: Phase::Streaming }, Action::Wait)
                    } else {
                        (Session { timeout, elapsed, pings, phase: Phase::Stopped(None) }, Action::Stop(Ok(())))
                    }
                },
                _ => (Session { timeout, elapsed, pings, phase: Phase::Pinging }, Action::Wait),
            },
            Phase::Decoding(ev) => match i {
                Input::Decoded(Some(s)) => (
                    Session { timeout, elapsed, pings, phase: Phase::Sending { ping_after: false, stop_after: false } },
                    Action::Emit(Event::ContractEvent(ev.with_state(s))),
                ),
                Input::Decoded(None) => (
                    Session { timeout, elapsed, pings, phase: Phase::Sending { ping_after: false, stop_after: false } },
                    Action::Emit(Event::ContractEvent(ev)),
                ),
                _ => (Session { timeout, elapsed, pings, phase: Phase::Decoding(ev) }, Action::Wait),
            },
        }
    }
}

/// The session after each of `ins` in turn.
pub open spec fn run(s: Session, ins: Seq<Input>) -> Session
    decreases ins.len(),
{
    if ins.len() == 0 {
        s
    } else {
        run(s.next(ins[0]), ins.drop_first())
    }
}

/// One second with no traffic: the tick, its event delivered, and the keep-alive
/// ping sent when one is due.
pub open spec fn quiet_second(s: Session) -> Session {
    let s1 = s.next(Input::Tick).next(Input::Sent(true));
    if s1.phase is Pinging {
        s1.next(Input::Pinged(true))
    } else {
        s1
    }
}

/// The session after `n` seconds with no traffic.
pub open spec fn after_quiet(s: Session, n: nat) -> Session
    decreases n,
{
    if n == 0 {
        s
    } else {
        quiet_second(after_quiet(s, (n - 1) as nat))
    }
}

/// A stopped session stays stopped whatever comes after, and answers every input
/// with the same `Stop`: it sends nothing more.
pub proof fn lemma_stopped_stays(s: Session, ins: Seq<Input>)
    requires
        s.phase is Stopped,
    ensures
        run(s, ins) == s,
        forall|i: Input, a: Action| s.answers(i, a) ==> a == Action::Stop(outcome(s.phase->Stopped_0)),
    decreases ins.len(),
{
    if ins.len() > 0 {
        lemma_stopped_stays(s.next(ins[0]), ins.drop_first());
    }
}

/// When the consumer's channel is closed or full, the session ends with that error,
/// and nothing it does afterwards is a send.
pub proof fn lemma_channel_failure_ends(s: Session, later: Seq<Input>)
    requires
        s.phase is Sending,
    ensures
        s.next(Input::Sent(false)).phase == Phase::Stopped(Some(SessionError::ChannelUnavailable)),
        s.answers(Input::Sent(false), Action::Stop(Err(SessionError::ChannelUnavailable))),
        run(s.next(Input::Sent(false)), later) == s.next(Input::Sent(false)),
        forall|i: Input, a: Action| #[trigger] s.next(Input::Sent(false)).answers(i, a)
            ==> a == Action::Stop(Err(SessionError::ChannelUnavailable)),
{
    lemma_stopped_stays(s.next(Input::Sent(false)), later);
}

/// A close frame from the indexer ends a streaming session cleanly: no error and
/// no `Disconnect`.
pub proof fn lemma_close_frame_ends(s: Session, a: Action)
    requires
        s.phase is Streaming,
        s.answers(Input::Frame(Frame::Close), a),
    ensures
        a == Action::Stop(Ok(())),
        s.next(Input::Frame(Frame::Close)).phase == Phase::Stopped(None),
{
}

/// An action whose state is hex text and decodes is emitted once, carrying the
/// rendering in place of the hex text.
pub proof fn lemma_decoded_state_emitted(s: Session, ev: ContractEvent, rendered: String, a: Action)
    requires
        s.phase is Streaming,
        is_hex_text(ev.state@),
        s.answers(Input::Frame(Frame::Text(TextPayload::Action(ev))), a),
    ensures
        a matches Action::Decode(b) && b@ == hex_bytes(ev.state@),
        s.next(Input::Frame(Frame::Text(TextPayload::Action(ev)))).phase == Phase::Decoding(ev),
        forall|e: Action| #[trigger] s.next(Input::Frame(Frame::Text(TextPayload::Action(ev)))).answers(
            Input::Decoded(Some(rendered)),
            e,
        ) <==> e == Action::Emit(Event::ContractEvent(ContractEvent { state: rendered, ..ev })),
        s.next(Input::Frame(Frame::Text(TextPayload::Action(ev)))).next(Input::Decoded(Some(rendered))).phase
            == (Phase::Sending { ping_after: false, stop_after: false }),
{
}

/// An action whose state is hex text that does not decode is still emitted once,
/// with its state left as the hex text.
pub proof fn lemma_undecodable_state_kept(s: Session, ev: ContractEvent, a: Action)
    requires
        s.phase is Streaming,
        is_hex_text(ev.state@),
        s.answers(Input::Frame(Frame::Text(TextPayload::Action(ev))), a),
    ensures
        a matches Action::Decode(b) && b@ == hex_bytes(ev.state@),
        forall|e: Action| #[trigger] s.next(Input::Frame(Frame::Text(TextPayload::Action(ev)))).answers(
            Input::Decoded(None),
            e,
        ) <==> e == Action::Emit(Event::ContractEvent(ev)),
        s.next(Input::Frame(Frame::Text(TextPayload::Action(ev)))).next(Input::Decoded(None)).phase
            == (Phase::Sending { ping_after: false, stop_after: false }),
{
}

/// An action whose state is not hex text is not emitted: the session ends with
/// that error.
pub proof fn lemma_invalid_hex_ends(s: Session, ev: ContractEvent, a: Action)
    requires
        s.phase is Streaming,
        !is_hex_text(ev.state@),
        s.answers(Input::Frame(Frame::Text(TextPayload::Action(ev))), a),
    ensures
        a == Action::Stop(Err(SessionError::InvalidHex)),
        s.next(Input::Frame(Frame::Text(TextPayload::Action(ev)))).phase
            == Phase::Stopped(Some(SessionError::InvalidHex)),
{
}

/// When the time budget's cancellation arrives, a streaming session emits one
/// `Disconnect`, and once that is delivered the session is over.
pub proof fn lemma_cancellation_disconnects(s: Session)
    ensures
        s.phase is Streaming ==> forall|a: Action| #[trigger] s.answers(Input::Cancelled, a)
            <==> a == Action::Emit(Event::Disconnect),
        s.phase is Streaming ==> s.next(Input::Cancelled).next(Input::Sent(true)).phase == Phase::Stopped(None),
{
}

/// Decoding depends on the state alone: two streaming sessions that receive actions
/// with the same state hand the decoder the same bytes, and, given the same
/// rendering back (or none), emit events with the same state.
pub proof fn lemma_same_state_same_decode(
    s1: Session,
    s2: Session,
    ev1: ContractEvent,
    ev2: ContractEvent,
    rendered: Option<String>,
    a1: Action,
    a2: Action,
    e1: Action,
    e2: Action,
)
    requires
        s1.phase is Streaming,
        s2.phase is Streaming,
        ev1.state@ == ev2.state@,
        is_hex_text(ev1.state@),
        s1.answers(Input::Frame(Frame::Text(TextPayload::Action(ev1))), a1),
        s2.answers(Input::Frame(Frame::Text(TextPayload::Action(ev2))), a2),
        s1.next(Input::Frame(Frame::Text(TextPayload::Action(ev1)))).answers(Input::Decoded(rendered), e1),
        s2.next(Input::Frame(Frame::Text(TextPayload::Action(ev2)))).answers(Input::Decoded(rendered), e2),
    ensures
        a1 matches Action::Decode(b1) && a2 matches Action::Decode(b2) && b1@ == b2@,
        e1 matches Action::Emit(Event::ContractEvent(x1)) && e2 matches Action::Emit(Event::ContractEvent(x2))
            && x1.state@ == x2.state@,
{
}

/// With a budget of `t` seconds and no traffic, the tick of second `k + 1` emits
/// `TimeLeft(t - k - 1)`, so the values fall by one each second; the tick after
/// `t` seconds emits `Disconnect`, and once that is delivered the session is over.
pub proof fn lemma_quiet_countdown(t: u64, k: nat)
    requires
        k <= t,
    ensures
        after_quiet(fresh(t), k) == (Session { timeout: t, elapsed: k as u64, phase: Phase::Streaming, ..after_quiet(fresh(t), k) }),
        after_quiet(fresh(t), k).wf(),
        k < t ==> forall|a: Action| #[trigger] after_quiet(fresh(t), k).answers(Input::Tick, a)
            <==> a == Action::Emit(Event::TimeLeft((t - k - 1) as u64)),
        k == t ==> forall|a: Action| #[trigger] after_quiet(fresh(t), k).answers(Input::Tick, a)
            <==> a == Action::Emit(Event::Disconnect),
        k == t ==> after_quiet(fresh(t), k).next(Input::Tick).next(Input::Sent(true)).phase
            == Phase::Stopped(None),
    decreases k,
{
    if k > 0 {
        lemma_quiet_countdown(t, (k - 1) as nat);
    }
}

} // verus!
