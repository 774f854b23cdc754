//! Whole sends and receives: what the steps of a session add up to, on
//! whatever the driver reports.

use vstd::prelude::*;
use vstd::utf8::*;
use crate::codec::{frame, frame_len, spec_decode, TAG_OFFSET};
use crate::error::ProtocolError;
use crate::message::{payload_budget, MessageKind, MessageView, RoverTimestamp};
use crate::session::{
    receive_failed, receive_step, send_failed, send_step, telemetry_ack, LinkActionView,
    LinkEvent, Phase, SendStep, Session, SessionState,
};

verus! {

/// The frames that a sequence of actions hands to the link, in order.
pub open spec fn transmissions(actions: Seq<LinkActionView>) -> Seq<Seq<u8>>
    decreases actions.len(),
{
    if actions.len() == 0 {
        Seq::empty()
    } else {
        let earlier = transmissions(actions.drop_last());
        match actions.last() {
            LinkActionView::Transmit(bytes) => earlier.push(bytes),
            _ => earlier,
        }
    }
}

/// True of a step that begins a wait: it takes the session from another
/// state into `AwaitingAck`.
pub open spec fn begins_wait(before: Session, after: Session) -> bool {
    before.spec_state() != SessionState::AwaitingAck && after.spec_state()
        == SessionState::AwaitingAck
}

/// Where a send stands once the driver has reported some events: the
/// session, what has been asked of the driver, in order, and how many
/// waits have begun.
pub struct SendRun {
    pub session: Session,
    pub actions: Seq<LinkActionView>,
    pub waits: nat,
}

/// The send of `message` once the driver has reported `events`, one after
/// the other.
pub open spec fn send_run(message: MessageView, session: Session, events: Seq<LinkEvent>)
    -> SendRun
    decreases events.len(),
{
    if events.len() == 0 {
        SendRun { session, actions: Seq::empty(), waits: 0 }
    } else {
        let before = send_run(message, session, events.drop_last());
        let step = send_step(message, before.session, events.last());
        SendRun {
            session: step.session,
            actions: before.actions.push(step.action),
            waits: if begins_wait(before.session, step.session) {
                before.waits + 1
            } else {
                before.waits
            },
        }
    }
}

/// True of a message that may go out under the given setting of link
/// encryption: its frame is within the payload budget and its text is
/// ASCII.
pub open spec fn may_be_sent(message: MessageView, encryption_enabled: bool) -> bool {
    frame_len(message) <= payload_budget(encryption_enabled) && is_ascii_chars(message.text())
}

/// What holds of a send at every step, by the phase it stands at.
spec fn send_invariant(message: MessageView, encryption_enabled: bool, run: SendRun) -> bool {
    let sent = transmissions(run.actions);
    let owed = message is CommandMessage;
    &&& run.session.config.encryption_enabled == encryption_enabled
    &&& sent.len() <= 1
    &&& sent.len() == 1 ==> sent[0] == frame(message) && may_be_sent(message, encryption_enabled)
    &&& run.waits <= 1
    &&& run.waits == 1 ==> owed && sent.len() == 1
    &&& match run.session.phase {
        Phase::Idle => sent.len() == 0,
        Phase::Transmitting => sent.len() == 1 && run.waits == 0,
        Phase::Listening | Phase::Pausing => run.waits == 1,
        Phase::Settling | Phase::Acknowledging => false,
        Phase::Complete => sent.len() == 1 && (owed ==> run.waits == 1),
        Phase::Failed => true,
    }
}

proof fn lemma_send_invariant(message: MessageView, session: Session, events: Seq<LinkEvent>)
    requires
        session.phase is Idle,
    ensures
        send_invariant(
            message,
            session.config.encryption_enabled,
            send_run(message, session, events),
        ),
    decreases events.len(),
{
    if events.len() > 0 {
        lemma_send_invariant(message, session, events.drop_last());
        let before = send_run(message, session, events.drop_last());
        let after = send_run(message, session, events);
        assert(after.actions.drop_last() =~= before.actions);
    }
}

/// Acknowledgement goes by kind. On whatever the driver reports, a send
/// waits at most once. The send of a command message that completes has
/// waited exactly once, and the send of any other kind never waits.
pub proof fn lemma_send_waits_by_kind(
    message: MessageView,
    session: Session,
    events: Seq<LinkEvent>,
)
    requires
        session.phase is Idle,
    ensures
        send_run(message, session, events).waits <= 1,
        !(message is CommandMessage) ==> send_run(message, session, events).waits == 0,
        message is CommandMessage && send_run(message, session, events).session.phase is Complete
            ==> send_run(message, session, events).waits == 1,
{
    lemma_send_invariant(message, session, events);
}

/// One message is under way at a time, and none that may not be sent. On
/// whatever the driver reports, a send hands the link at most one frame,
/// the frame of its message, and only if the message is within the payload
/// budget and its text is ASCII. A send that completes has handed the link
/// exactly that one frame.
pub proof fn lemma_send_transmits_once(
    message: MessageView,
    session: Session,
    events: Seq<LinkEvent>,
)
    requires
        session.phase is Idle,
    ensures
        ({
            let run = send_run(message, session, events);
            let sent = transmissions(run.actions);
            &&& sent.len() <= 1
            &&& sent.len() == 1 ==> sent[0] == frame(message) && may_be_sent(
                message,
                session.config.encryption_enabled,
            )
            &&& run.session.phase is Complete ==> sent.len() == 1
        }),
{
    lemma_send_invariant(message, session, events);
}

/// What the wait of a send is. It begins when the link has sent a command
/// message, and the link having sent any other kind completes the send. It
/// is for a command acknowledgement: a frame that comes in completes the
/// send if it decodes as one and fails it with the decode error if not. It
/// is bounded by the acknowledgement timeout: the pause that ends past it
/// fails the send as timed out.
pub proof fn lemma_send_waits_for_command_ack(
    message: MessageView,
    session: Session,
    bytes: Vec<u8>,
    elapsed_ms: u64,
)
    ensures
        session.phase is Transmitting ==> send_step(message, session, LinkEvent::Transmitted) == (
        if message is CommandMessage {
            SendStep { session: session.at(Phase::Listening), action: LinkActionView::Poll }
        } else {
            SendStep { session: session.at(Phase::Complete), action: LinkActionView::Done }
        }),
        session.phase is Listening ==> send_step(message, session, LinkEvent::Data(bytes)) == (
        match spec_decode(bytes@, MessageKind::CommandAck) {
            Ok(_) => SendStep {
                session: session.at(Phase::Complete),
                action: LinkActionView::Done,
            },
            Err(e) => send_failed(session, e),
        }),
        session.phase is Pausing ==> send_step(
            message,
            session,
            LinkEvent::Slept { elapsed_ms },
        ) == (if elapsed_ms > session.config.ack_timeout_ms {
            send_failed(session, ProtocolError::ReceiveTimedOut)
        } else {
            SendStep { session: session.at(Phase::Listening), action: LinkActionView::Poll }
        }),
{
}

/// Where a receive stands once the driver has reported some events, and
/// what it has asked of the driver, in order.
pub struct ReceiveRun {
    pub target: MessageView,
    pub session: Session,
    pub actions: Seq<LinkActionView>,
}

/// The receive into `target` once the driver has reported `events`, one
/// after the other; `clock[i]` is the time of day at the step that takes
/// `events[i]`.
pub open spec fn receive_run(
    target: MessageView,
    session: Session,
    timeout_ms: u64,
    events: Seq<LinkEvent>,
    clock: Seq<RoverTimestamp>,
) -> ReceiveRun
    decreases events.len(),
{
    if events.len() == 0 {
        ReceiveRun { target, session, actions: Seq::empty() }
    } else {
        let before = receive_run(target, session, timeout_ms, events.drop_last(), clock);
        let step = receive_step(
            before.target,
            before.session,
            timeout_ms,
            events.last(),
            clock[events.len() - 1],
        );
        ReceiveRun {
            target: step.target,
            session: step.session,
            actions: before.actions.push(step.action),
        }
    }
}

/// True of the frame of a telemetry acknowledgement that acknowledges and
/// announces no command, whatever its timestamp.
pub open spec fn is_telemetry_ack_frame(bytes: Seq<u8>) -> bool {
    exists|now: RoverTimestamp| bytes == #[trigger] frame(telemetry_ack(now))
}

/// What holds of a receive at every step, by the phase it stands at.
spec fn receive_invariant(expected: MessageKind, run: ReceiveRun) -> bool {
    let sent = transmissions(run.actions);
    &&& run.target.kind() == expected
    &&& match run.session.phase {
        Phase::Idle | Phase::Listening | Phase::Pausing => sent.len() == 0,
        Phase::Settling => sent.len() == 0 && expected == MessageKind::Telemetry,
        Phase::Acknowledging => sent.len() == 1 && is_telemetry_ack_frame(sent[0]) && expected
            == MessageKind::Telemetry,
        Phase::Complete => if expected == MessageKind::Telemetry {
            sent.len() == 1 && is_telemetry_ack_frame(sent[0])
        } else {
            sent.len() == 0
        },
        Phase::Transmitting => false,
        Phase::Failed => sent.len() <= 1 && (sent.len() == 1 ==> expected
            == MessageKind::Telemetry),
    }
}

proof fn lemma_receive_invariant(
    target: MessageView,
    session: Session,
    timeout_ms: u64,
    events: Seq<LinkEvent>,
    clock: Seq<RoverTimestamp>,
)
    requires
        session.phase is Idle,
    ensures
        receive_invariant(target.kind(), receive_run(target, session, timeout_ms, events, clock)),
    decreases events.len(),
{
    if events.len() > 0 {
        lemma_receive_invariant(target, session, timeout_ms, events.drop_last(), clock);
        let before = receive_run(target, session, timeout_ms, events.drop_last(), clock);
        let after = receive_run(target, session, timeout_ms, events, clock);
        assert(after.actions.drop_last() =~= before.actions);
    }
}

/// Telemetry is acknowledged, and nothing else. A receive that completes
/// with a telemetry message has handed the link exactly one frame, that of
/// a telemetry acknowledgement. A receive of any other kind never hands the
/// link a frame. The kind of the message to fill never changes.
pub proof fn lemma_receive_acknowledges_telemetry(
    target: MessageView,
    session: Session,
    timeout_ms: u64,
    events: Seq<LinkEvent>,
    clock: Seq<RoverTimestamp>,
)
    requires
        session.phase is Idle,
    ensures
        ({
            let run = receive_run(target, session, timeout_ms, events, clock);
            let sent = transmissions(run.actions);
            &&& run.target.kind() == target.kind()
            &&& sent.len() <= 1
            &&& run.session.phase is Complete && target is TelemetryMessage ==> sent.len() == 1
                && is_telemetry_ack_frame(sent[0])
            &&& !(target is TelemetryMessage) ==> sent.len() == 0
        }),
{
    lemma_receive_invariant(target, session, timeout_ms, events, clock);
}

/// What the driver reports while the link stays silent: the start, then
/// for each poll its timeout and the end of the pause that follows it.
/// `elapsed[i]` is the time since the first poll at the end of pause `i`.
pub open spec fn silence(elapsed: Seq<u64>) -> Seq<LinkEvent>
    decreases elapsed.len(),
{
    if elapsed.len() == 0 {
        seq![LinkEvent::Start]
    } else {
        silence(elapsed.drop_last()).push(LinkEvent::Timeout).push(
            LinkEvent::Slept { elapsed_ms: elapsed.last() },
        )
    }
}

/// On a silent link a poll is followed by a pause: if the receive is
/// listening after all pauses but the last, it is pausing when the last
/// one ends, and the message to fill is as it was.
proof fn lemma_receive_pauses(
    target: MessageView,
    session: Session,
    timeout_ms: u64,
    elapsed: Seq<u64>,
    clock: Seq<RoverTimestamp>,
)
    requires
        elapsed.len() > 0,
        receive_run(target, session, timeout_ms, silence(elapsed.drop_last()), clock).session
            == session.at(Phase::Listening),
    ensures
        ({
            let listening = receive_run(
                target,
                session,
                timeout_ms,
                silence(elapsed.drop_last()),
                clock,
            );
            let pausing = receive_run(
                target,
                session,
                timeout_ms,
                silence(elapsed).drop_last(),
                clock,
            );
            &&& silence(elapsed).last() == LinkEvent::Slept { elapsed_ms: elapsed.last() }
            &&& pausing.session == session.at(Phase::Pausing)
            &&& pausing.target == listening.target
        }),
{
    let events = silence(elapsed);
    assert(events.drop_last().drop_last() =~= silence(elapsed.drop_last()));
    assert(events.drop_last().last() == LinkEvent::Timeout);
}

/// While the link stays silent and no pause has ended past the deadline,
/// the receive goes on polling, and the message to fill is untouched.
pub proof fn lemma_receive_keeps_polling(
    target: MessageView,
    session: Session,
    timeout_ms: u64,
    elapsed: Seq<u64>,
    clock: Seq<RoverTimestamp>,
)
    requires
        session.phase is Idle,
        forall|i: int| 0 <= i < elapsed.len() ==> elapsed[i] <= timeout_ms,
    ensures
        ({
            let run = receive_run(target, session, timeout_ms, silence(elapsed), clock);
            &&& run.session == session.at(Phase::Listening)
            &&& run.target == target
            &&& run.actions.last() == LinkActionView::Poll
        }),
    decreases elapsed.len(),
{
    let events = silence(elapsed);
    let before = receive_run(target, session, timeout_ms, events.drop_last(), clock);
    if elapsed.len() == 0 {
        assert(events.drop_last() =~= Seq::<LinkEvent>::empty());
        assert(before.session == session && before.target == target);
    } else {
        lemma_receive_keeps_polling(target, session, timeout_ms, elapsed.drop_last(), clock);
        lemma_receive_pauses(target, session, timeout_ms, elapsed, clock);
        assert(before.session == session.at(Phase::Pausing) && before.target == target);
        assert(elapsed.last() <= timeout_ms);
    }
}

/// A receive on a silent link times out at the first look at the deadline
/// that finds it passed, and not before. If every pause but the last ended
/// within `timeout_ms` and the last ended past it, the receive polls until
/// then and ends with the last pause, failed as timed out, with the message
/// to fill untouched. So the time elapsed at the end is over `timeout_ms`
/// by less than the time from one look at the deadline to the next.
pub proof fn lemma_receive_times_out(
    target: MessageView,
    session: Session,
    timeout_ms: u64,
    elapsed: Seq<u64>,
    clock: Seq<RoverTimestamp>,
)
    requires
        session.phase is Idle,
        elapsed.len() > 0,
        forall|i: int| 0 <= i < elapsed.len() - 1 ==> elapsed[i] <= timeout_ms,
        elapsed.last() > timeout_ms,
    ensures
        ({
            let before = receive_run(
                target,
                session,
                timeout_ms,
                silence(elapsed.drop_last()),
                clock,
            );
            let run = receive_run(target, session, timeout_ms, silence(elapsed), clock);
            &&& before.session == session.at(Phase::Listening)
            &&& run.session == session.at(Phase::Failed)
            &&& run.target == target
            &&& run.actions.last() == LinkActionView::Fail(ProtocolError::ReceiveTimedOut)
        }),
{
    lemma_receive_keeps_polling(target, session, timeout_ms, elapsed.drop_last(), clock);
    lemma_receive_pauses(target, session, timeout_ms, elapsed, clock);
}

/// A frame of another kind than the one waited for is rejected: the
/// receive fails with an error that names the kind expected and the tag
/// found, and the message to fill is left as it was.
pub proof fn lemma_receive_rejects_other_kind(
    target: MessageView,
    session: Session,
    timeout_ms: u64,
    bytes: Vec<u8>,
    now: RoverTimestamp,
)
    requires
        session.phase is Listening,
        bytes@.len() > TAG_OFFSET,
        bytes@[TAG_OFFSET as int] != target.kind().spec_tag(),
    ensures
        receive_step(target, session, timeout_ms, LinkEvent::Data(bytes), now) == receive_failed(
            target,
            session,
            ProtocolError::WrongMessageKind {
                expected: target.kind(),
                actual: bytes@[TAG_OFFSET as int],
            },
        ),
{
}

} // verus!
