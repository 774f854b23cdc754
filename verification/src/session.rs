//! The transport session: what to do with the radio link, step by step, to
//! send one message or to receive one.
//!
//! The session never touches the link. Its driver does: it carries out the
//! action that a step returns and reports what came of it as the event of
//! the next step, until the action is `Done` or `Fail`. One message is
//! under way at a time.

use vstd::prelude::*;
use vstd::utf8::*;
use crate::codec::{frame, frame_len, lemma_frame_len, spec_decode};
use crate::error::ProtocolError;
use crate::message::{payload_budget, MessageView, RoverMessage, RoverTimestamp};

verus! {

/// What the bring-up of the link settles, and the pace of the protocol.
#[derive(Debug, Clone, Copy, PartialEq, Eq, Structural)]
pub struct LinkConfig {
    /// Whether the link encrypts, which shrinks the payload budget.
    pub encryption_enabled: bool,
    /// How long a sent command waits for its acknowledgement, in
    /// milliseconds.
    pub ack_timeout_ms: u64,
    /// The settle delay: how long to wait between a frame that came in and
    /// the reply to it, so that the peer can turn from sending to
    /// listening, in milliseconds.
    pub message_delay_ms: u64,
    /// How long to pause between two polls of the link, in milliseconds.
    pub poll_interval_ms: u64,
}

impl Default for LinkConfig {
    /// Encryption on, two seconds for an acknowledgement, a settle delay
    /// of 250 ms and 100 ms between polls.
    fn default() -> (config: LinkConfig)
        ensures
            config == (LinkConfig {
                encryption_enabled: true,
                ack_timeout_ms: 2000,
                message_delay_ms: 250,
                poll_interval_ms: 100,
            }),
    {
        LinkConfig {
            encryption_enabled: true,
            ack_timeout_ms: 2000,
            message_delay_ms: 250,
            poll_interval_ms: 100,
        }
    }
}

/// The state of a session as its caller sees it.
#[derive(Debug, Clone, Copy, PartialEq, Eq, Structural)]
pub enum SessionState {
    /// Nothing has been waited for yet.
    Idle,
    /// The session waits for a frame, or is about to answer one.
    AwaitingAck,
    /// The send or receive has succeeded.
    Complete,
    /// The send or receive has failed.
    Failed,
}

/// Where a session stands: which report of its driver it waits for.
#[derive(Debug, Clone, Copy, PartialEq, Eq, Structural)]
pub enum Phase {
    /// Nothing has begun; the session waits for `Start`.
    Idle,
    /// The frame of the message is with the link; the session waits to
    /// hear whether it went out.
    Transmitting,
    /// A poll of the link is under way.
    Listening,
    /// The pause between two polls is under way.
    Pausing,
    /// The settle delay before an acknowledgement is under way.
    Settling,
    /// The frame of an acknowledgement is with the link.
    Acknowledging,
    /// The send or receive has succeeded.
    Complete,
    /// The send or receive has failed.
    Failed,
}

/// One send or one receive under way.
#[derive(Debug, Clone, Copy, PartialEq, Eq, Structural)]
pub struct Session {
    pub config: LinkConfig,
    pub phase: Phase,
}

/// What the driver reports to the session.
#[derive(Debug, Clone, PartialEq, Eq)]
pub enum LinkEvent {
    /// The send or receive begins.
    Start,
    /// The link has sent the frame it was given.
    Transmitted,
    /// A poll brought a frame: the receive buffer as the link left it.
    Data(Vec<u8>),
    /// A poll ended without a frame.
    Timeout,
    /// The pause asked for is over. `elapsed_ms` is the time since the
    /// first poll of the wait, in milliseconds.
    Slept { elapsed_ms: u64 },
    /// The link failed otherwise; the text is the driver's account of it.
    Fault(String),
}

/// What the session asks of its driver.
#[derive(Debug, Clone, PartialEq, Eq)]
pub enum LinkAction {
    /// Hand this frame to the link, then report `Transmitted` or `Fault`.
    Transmit(Vec<u8>),
    /// Poll the link once, then report `Data`, `Timeout` or `Fault`.
    Poll,
    /// Pause for so many milliseconds, then report `Slept`.
    Sleep { millis: u64 },
    /// The send or receive has succeeded; nothing is left to do.
    Done,
    /// The send or receive has failed; nothing is left to do.
    Fail(ProtocolError),
}

/// An action, with a frame as the sequence of its bytes.
pub enum LinkActionView {
    Transmit(Seq<u8>),
    Poll,
    Sleep { millis: u64 },
    Done,
    Fail(ProtocolError),
}

impl View for LinkAction {
    type V = LinkActionView;

    open spec fn view(&self) -> LinkActionView {
        match self {
            LinkAction::Transmit(bytes) => LinkActionView::Transmit(bytes@),
            LinkAction::Poll => LinkActionView::Poll,
            LinkAction::Sleep { millis } => LinkActionView::Sleep { millis: *millis },
            LinkAction::Done => LinkActionView::Done,
            LinkAction::Fail(e) => LinkActionView::Fail(*e),
        }
    }
}

impl Phase {
    /// The state that the caller sees while the session stands here. A
    /// session is idle until the link has sent the message, and it awaits
    /// from the first poll until the receive is over, the acknowledgement
    /// it may owe counted in.
    pub open spec fn spec_state(self) -> SessionState {
        match self {
            Phase::Idle | Phase::Transmitting => SessionState::Idle,
            Phase::Listening | Phase::Pausing | Phase::Settling | Phase::Acknowledging => {
                SessionState::AwaitingAck
            },
            Phase::Complete => SessionState::Complete,
            Phase::Failed => SessionState::Failed,
        }
    }
}

impl Session {
    /// A session in which nothing has begun.
    pub fn new(config: LinkConfig) -> (session: Session)
        ensures
            session == (Session { config, phase: Phase::Idle }),
    {
        Session { config, phase: Phase::Idle }
    }

    /// The state of the session as its caller sees it.
    pub open spec fn spec_state(self) -> SessionState {
        self.phase.spec_state()
    }

    /// The state of the session as its caller sees it.
    #[verifier::when_used_as_spec(spec_state)]
    pub fn state(self) -> (state: SessionState)
        ensures
            state == self.spec_state(),
    {
        match self.phase {
            Phase::Idle | Phase::Transmitting => SessionState::Idle,
            Phase::Listening | Phase::Pausing | Phase::Settling | Phase::Acknowledging => {
                SessionState::AwaitingAck
            },
            Phase::Complete => SessionState::Complete,
            Phase::Failed => SessionState::Failed,
        }
    }

    /// The same session at another phase.
    pub open spec fn at(self, phase: Phase) -> Session {
        Session { config: self.config, phase }
    }
}

/// The acknowledgement that the station owes for a telemetry message.
pub open spec fn telemetry_ack(now: RoverTimestamp) -> MessageView {
    MessageView::TelemetryAck { timestamp: now, ack: true, command_waiting: false }
}

/// The shell into which a sent command receives its acknowledgement.
pub open spec fn command_ack_shell() -> MessageView {
    MessageView::CommandAck {
        timestamp: RoverTimestamp { hour: 0, minute: 0, second: 0 },
        ack: false,
    }
}

/// Where a step of a receive leaves the message to fill and the session,
/// and what it asks of the driver.
pub struct ReceiveStep {
    pub target: MessageView,
    pub session: Session,
    pub action: LinkActionView,
}

/// Where a step of a send leaves the session, and what it asks of the
/// driver.
pub struct SendStep {
    pub session: Session,
    pub action: LinkActionView,
}

/// The step of a receive that ends it in failure.
pub open spec fn receive_failed(target: MessageView, session: Session, e: ProtocolError)
    -> ReceiveStep {
    ReceiveStep { target, session: session.at(Phase::Failed), action: LinkActionView::Fail(e) }
}

/// One step of a receive into `target`, whose kind is the kind expected.
///
/// - Idle, at the start: poll.
/// - Listening, a frame came: decode it as the kind of `target`. A frame
///   that does not decode ends the receive in failure and leaves `target`
///   as it was. One that decodes fills `target`; a telemetry message is
///   then owed an acknowledgement, so the settle delay begins; any other
///   kind completes the receive.
/// - Listening, the poll timed out: pause for the poll interval.
/// - Pausing, the pause is over: the one look at the deadline. Past
///   `timeout_ms` the receive has timed out; else poll again.
/// - Settling, the delay is over: transmit the acknowledgement, stamped
///   `now`.
/// - Acknowledging, the acknowledgement went out: complete.
/// - A fault of the link, while anything is under way: failure.
/// - Anything else was not waited for: failure.
pub open spec fn receive_step(
    target: MessageView,
    session: Session,
    timeout_ms: u64,
    event: LinkEvent,
    now: RoverTimestamp,
) -> ReceiveStep {
    match (session.phase, event) {
        (Phase::Idle, LinkEvent::Start) => ReceiveStep {
            target,
            session: session.at(Phase::Listening),
            action: LinkActionView::Poll,
        },
        (Phase::Listening, LinkEvent::Data(bytes)) => match spec_decode(bytes@, target.kind()) {
            Ok(message) => if message is TelemetryMessage {
                ReceiveStep {
                    target: message,
                    session: session.at(Phase::Settling),
                    action: LinkActionView::Sleep { millis: session.config.message_delay_ms },
                }
            } else {
                ReceiveStep {
                    target: message,
                    session: session.at(Phase::Complete),
                    action: LinkActionView::Done,
                }
            },
            Err(e) => receive_failed(target, session, e),
        },
        (Phase::Listening, LinkEvent::Timeout) => ReceiveStep {
            target,
            session: session.at(Phase::Pausing),
            action: LinkActionView::Sleep { millis: session.config.poll_interval_ms },
        },
        (Phase::Pausing, LinkEvent::Slept { elapsed_ms }) => if elapsed_ms > timeout_ms {
            receive_failed(target, session, ProtocolError::ReceiveTimedOut)
        } else {
            ReceiveStep {
                target,
                session: session.at(Phase::Listening),
                action: LinkActionView::Poll,
            }
        },
        (Phase::Settling, LinkEvent::Slept { .. }) => ReceiveStep {
            target,
            session: session.at(Phase::Acknowledging),
            action: LinkActionView::Transmit(frame(telemetry_ack(now))),
        },
        (Phase::Acknowledging, LinkEvent::Transmitted) => ReceiveStep {
            target,
            session: session.at(Phase::Complete),
            action: LinkActionView::Done,
        },
        (Phase::Listening, LinkEvent::Fault(detail))
        | (Phase::Pausing, LinkEvent::Fault(detail))
        | (Phase::Settling, LinkEvent::Fault(detail))
        | (Phase::Acknowledging, LinkEvent::Fault(detail)) => receive_failed(
            target,
            session,
            ProtocolError::LinkError(detail),
        ),
        _ => receive_failed(target, session, ProtocolError::UnexpectedEvent),
    }
}

/// The step of a send that ends it in failure.
pub open spec fn send_failed(session: Session, e: ProtocolError) -> SendStep {
    SendStep { session: session.at(Phase::Failed), action: LinkActionView::Fail(e) }
}

/// One step of the send of `message`.
///
/// - Idle, at the start: a frame over the payload budget fails the send as
///   too long, and text outside ASCII fails it too; else transmit the
///   frame.
/// - Transmitting, the frame went out: a command message is owed an
///   acknowledgement, so the wait for it begins with a poll; any other
///   kind completes the send.
/// - Transmitting, the link failed: failure.
/// - Listening or pausing: the step of a receive of a command
///   acknowledgement, with the acknowledgement timeout as its deadline.
/// - Anything else was not waited for: failure.
pub open spec fn send_step(message: MessageView, session: Session, event: LinkEvent) -> SendStep {
    match (session.phase, event) {
        (Phase::Idle, LinkEvent::Start) => if frame_len(message) > payload_budget(
            session.config.encryption_enabled,
        ) {
            send_failed(session, ProtocolError::MessageTooLong)
        } else if !is_ascii_chars(message.text()) {
            send_failed(session, ProtocolError::NonAsciiText)
        } else {
            SendStep {
                session: session.at(Phase::Transmitting),
                action: LinkActionView::Transmit(frame(message)),
            }
        },
        (Phase::Transmitting, LinkEvent::Transmitted) => if message is CommandMessage {
            SendStep { session: session.at(Phase::Listening), action: LinkActionView::Poll }
        } else {
            SendStep { session: session.at(Phase::Complete), action: LinkActionView::Done }
        },
        (Phase::Transmitting, LinkEvent::Fault(detail)) => send_failed(
            session,
            ProtocolError::LinkError(detail),
        ),
        (Phase::Listening, _) | (Phase::Pausing, _) => {
            let step = receive_step(
                command_ack_shell(),
                session,
                session.config.ack_timeout_ms,
                event,
                RoverTimestamp { hour: 0, minute: 0, second: 0 },
            );
            SendStep { session: step.session, action: step.action }
        },
        _ => send_failed(session, ProtocolError::UnexpectedEvent),
    }
}

impl Session {
    /// Ends the session in failure.
    fn fail(&mut self, e: ProtocolError) -> (action: LinkAction)
        ensures
            *final(self) == old(self).at(Phase::Failed),
            action == LinkAction::Fail(e),
    {
        self.phase = Phase::Failed;
        LinkAction::Fail(e)
    }
}

impl RoverMessage {
    /// The frame to hand to the link, if the message may be sent: first
    /// the payload budget is applied, then the message is encoded.
    pub fn outgoing_frame(&self, encryption_enabled: bool) -> (r: Result<Vec<u8>, ProtocolError>)
        ensures
            match r {
                Ok(bytes) => frame_len(self@) <= payload_budget(encryption_enabled)
                    && is_ascii_chars(self@.text()) && bytes@ == frame(self@),
                Err(e) => if frame_len(self@) > payload_budget(encryption_enabled) {
                    e == ProtocolError::MessageTooLong
                } else {
                    !is_ascii_chars(self@.text()) && e == ProtocolError::NonAsciiText
                },
            },
    {
        match self.validate_send(encryption_enabled) {
            Ok(_) => self.encode(),
            Err(e) => Err(e),
        }
    }

    /// One step of the send of this message: takes what the driver reports
    /// and answers with what it is to do next.
    ///
    /// A command message is acknowledged by the peer, so its send goes on
    /// to wait for a command acknowledgement; no other kind is waited for.
    pub fn send(&self, session: &mut Session, event: LinkEvent) -> (action: LinkAction)
        ensures
            (SendStep { session: *final(session), action: action@ }) == send_step(
                self@,
                *old(session),
                event,
            ),
    {
        match session.phase {
            Phase::Idle => match event {
                LinkEvent::Start => match self.outgoing_frame(session.config.encryption_enabled) {
                    Ok(bytes) => {
                        session.phase = Phase::Transmitting;
                        LinkAction::Transmit(bytes)
                    },
                    Err(e) => session.fail(e),
                },
                _ => session.fail(ProtocolError::UnexpectedEvent),
            },
            Phase::Transmitting => match event {
                LinkEvent::Transmitted => match self {
                    RoverMessage::CommandMessage { .. } => {
                        session.phase = Phase::Listening;
                        LinkAction::Poll
                    },
                    _ => {
                        session.phase = Phase::Complete;
                        LinkAction::Done
                    },
                },
                LinkEvent::Fault(detail) => session.fail(ProtocolError::LinkError(detail)),
                _ => session.fail(ProtocolError::UnexpectedEvent),
            },
            Phase::Listening | Phase::Pausing => {
                let zero = RoverTimestamp { hour: 0, minute: 0, second: 0 };
                let mut ack = RoverMessage::CommandAck { timestamp: zero, ack: false };
                let timeout_ms: u64 = session.config.ack_timeout_ms;
                ack.receive_at(session, timeout_ms, event, zero)
            },
            _ => session.fail(ProtocolError::UnexpectedEvent),
        }
    }

    /// One step of a receive into this message, whose kind is the kind
    /// expected, with the time that an acknowledgement is to be stamped
    /// with.
    ///
    /// The message changes only where a frame decodes; a failure leaves it
    /// as it was.
    pub fn receive_at(
        &mut self,
        session: &mut Session,
        timeout_ms: u64,
        event: LinkEvent,
        now: RoverTimestamp,
    ) -> (action: LinkAction)
        ensures
            (ReceiveStep { target: final(self)@, session: *final(session), action: action@ })
                == receive_step(old(self)@, *old(session), timeout_ms, event, now),
            action@ is Fail ==> *final(self) == *old(self),
            !(old(session).phase is Listening) ==> *final(self) == *old(self),
            final(self)@.kind() == old(self)@.kind(),
    {
        match session.phase {
            Phase::Idle => match event {
                LinkEvent::Start => {
                    session.phase = Phase::Listening;
                    LinkAction::Poll
                },
                _ => session.fail(ProtocolError::UnexpectedEvent),
            },
            Phase::Listening => match event {
                LinkEvent::Data(bytes) => match self.deserialize(bytes.as_slice()) {
                    Ok(_) => match self {
                        RoverMessage::TelemetryMessage { .. } => {
                            session.phase = Phase::Settling;
                            LinkAction::Sleep { millis: session.config.message_delay_ms }
                        },
                        _ => {
                            session.phase = Phase::Complete;
                            LinkAction::Done
                        },
                    },
                    Err(e) => session.fail(e),
                },
                LinkEvent::Timeout => {
                    session.phase = Phase::Pausing;
                    LinkAction::Sleep { millis: session.config.poll_interval_ms }
                },
                LinkEvent::Fault(detail) => session.fail(ProtocolError::LinkError(detail)),
                _ => session.fail(ProtocolError::UnexpectedEvent),
            },
            Phase::Pausing => match event {
                LinkEvent::Slept { elapsed_ms } => {
                    if elapsed_ms > timeout_ms {
                        session.fail(ProtocolError::ReceiveTimedOut)
                    } else {
                        session.phase = Phase::Listening;
                        LinkAction::Poll
                    }
                },
                LinkEvent::Fault(detail) => session.fail(ProtocolError::LinkError(detail)),
                _ => session.fail(ProtocolError::UnexpectedEvent),
            },
            Phase::Settling => match event {
                LinkEvent::Slept { .. } => {
                    let ack = RoverMessage::TelemetryAck {
                        timestamp: now,
                        ack: true,
                        command_waiting: false,
                    };
                    proof {
                        lemma_frame_len(ack@);
                    }
                    match ack.outgoing_frame(session.config.encryption_enabled) {
                        Ok(bytes) => {
                            session.phase = Phase::Acknowledging;
                            LinkAction::Transmit(bytes)
                        },
                        Err(e) => session.fail(e),
                    }
                },
                LinkEvent::Fault(detail) => session.fail(ProtocolError::LinkError(detail)),
                _ => session.fail(ProtocolError::UnexpectedEvent),
            },
            Phase::Acknowledging => match event {
                LinkEvent::Transmitted => {
                    session.phase = Phase::Complete;
                    LinkAction::Done
                },
                LinkEvent::Fault(detail) => session.fail(ProtocolError::LinkError(detail)),
                _ => session.fail(ProtocolError::UnexpectedEvent),
            },
            _ => session.fail(ProtocolError::UnexpectedEvent),
        }
    }

    /// One step of a receive into this message, whose kind is the kind
    /// expected: takes what the driver reports and answers with what it is
    /// to do next.
    ///
    /// A telemetry message is acknowledged by the station, so its receive
    /// goes on to transmit a telemetry acknowledgement, stamped with the
    /// local time of day, after the settle delay; no other kind is
    /// answered. The step is that of `receive_at` for the time read.
    pub fn receive(&mut self, session: &mut Session, timeout_ms: u64, event: LinkEvent) -> (action:
        LinkAction)
        ensures
            exists|now: RoverTimestamp|
                now.is_time_of_day() && #[trigger] receive_step(
                    old(self)@,
                    *old(session),
                    timeout_ms,
                    event,
                    now,
                ) == (ReceiveStep {
                    target: final(self)@,
                    session: *final(session),
                    action: action@,
                }),
            action@ is Fail ==> *final(self) == *old(self),
            !(old(session).phase is Listening) ==> *final(self) == *old(self),
            final(self)@.kind() == old(self)@.kind(),
    {
        let now = match session.phase {
            Phase::Settling => RoverTimestamp::default(),
            _ => RoverTimestamp { hour: 0, minute: 0, second: 0 },
        };
        self.receive_at(session, timeout_ms, event, now)
    }
}

} // verus!
