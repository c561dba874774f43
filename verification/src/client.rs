//! The initiator at work: it drives the session of an initiator over the
//! two handles of a connection, one for the messages and one for the bulk
//! data.

use crate::channel::receive_message;
use crate::channel::send_message;
use crate::channel::write_bulk;
use crate::clock::elapsed_ms;
use crate::clock::now_millis;
use crate::initiator::Initiator;
use crate::initiator::InitiatorModel;
use crate::initiator::InitiatorPhase;
use crate::message::NsptNegProtocol;
use crate::message::PROTOCOL_VER;
use crate::payload::random_block;
use crate::session::Action;
use crate::session::Event;
use crate::session::Fault;
use crate::session::MessageKind;
use crate::session::Sample;
use crate::session::SessionError;
use crate::transport::ReadWriteStream;
use crate::transport::TransportError;
use vstd::prelude::*;

verus! {

/// What a session told the initiator.
#[derive(Debug)]
pub struct InitiatorReport {
    /// The size of a transfer unit.
    pub unit_size: usize,
    /// One sample for each round.
    pub samples: Vec<Sample>,
}

/// Writes `transfer_size` bytes of random data to `server_stream`, in
/// pieces of at most `BUF_SIZE` bytes, and takes the time from before the
/// first piece to after the last. Fails where the stream does not take a
/// piece, and only there: a front of the data is written then. A transfer
/// of no bytes asks nothing of the stream and is timed all the same.
pub fn do_speed_test<T: ReadWriteStream>(server_stream: &mut T, transfer_size: usize) -> (r: Result<
    Sample,
    TransportError,
>)
    ensures
        transfer_size == 0 ==> r is Ok,
        r matches Ok(sample) ==> sample.bytes == transfer_size,
        old(server_stream).modeled() ==> {
            &&& final(server_stream).modeled()
            &&& final(server_stream).incoming() == old(server_stream).incoming()
            &&& old(server_stream).sent().is_prefix_of(final(server_stream).sent())
            &&& r is Ok ==> final(server_stream).sent().len() == old(server_stream).sent().len()
                + transfer_size
            &&& r is Err ==> final(server_stream).sent().len() <= old(server_stream).sent().len()
                + transfer_size
        },
{
    let block: Vec<u8> = random_block();
    let start: i64 = now_millis();
    let written: Result<(), TransportError> = write_bulk(
        server_stream,
        block.as_slice(),
        transfer_size,
    );
    let end: i64 = now_millis();
    match written {
        Ok(()) => Ok(Sample { bytes: transfer_size, elapsed_ms: elapsed_ms(start, end) }),
        Err(e) => Err(e),
    }
}

/// Whether the handle for the messages holds what a responder sends in a
/// whole session.
pub open spec fn holds_session(messages: Seq<u8>, transfer_bytes: Option<usize>) -> bool {
    crate::channel::frames(
        crate::initiator::initiator_receives(PROTOCOL_VER, transfer_bytes),
    ).is_prefix_of(messages)
}

/// What a session makes of the stream when `due` is the message that it
/// waits for: nothing where the stream yields that message, and else the
/// failure that ends the session. A frame that is no message fails as the
/// codec says, a hello of another version is a mismatch, and every other
/// message is a violation that names the kind that was due.
pub open spec fn judge(due: NsptNegProtocol, incoming: Seq<u8>) -> Option<SessionError> {
    match crate::channel::next_message(incoming) {
        Err(e) => Some(e),
        Ok(received) => if received == due {
            None
        } else {
            match (due, received) {
                (NsptNegProtocol::ServerHello(ours), NsptNegProtocol::ServerHello(theirs)) => Some(
                    SessionError::Fault(Fault::VersionMismatch { ours, theirs }),
                ),
                _ => Some(
                    SessionError::Fault(
                        Fault::ProtocolViolation {
                            expected: crate::session::kind_of(due),
                            received,
                        },
                    ),
                ),
            }
        },
    }
}

/// What a session makes of a stream from which it waits for the messages
/// `due`, one after the other: the failure that the first message brings
/// that is not the one due, or nothing where all are there.
pub open spec fn verdict_from(due: Seq<NsptNegProtocol>, incoming: Seq<u8>) -> Option<
    SessionError,
>
    decreases due.len(),
{
    if due.len() == 0 {
        None
    } else {
        match judge(due[0], incoming) {
            Some(e) => Some(e),
            None => verdict_from(due.skip(1), crate::channel::after_message(incoming)),
        }
    }
}

/// The failure with which a session over a handle that holds `incoming`
/// ends, unless a stream fails; nothing where the session runs to its end.
pub open spec fn verdict(transfer_bytes: Option<usize>, incoming: Seq<u8>) -> Option<SessionError> {
    verdict_from(crate::initiator::initiator_receives(PROTOCOL_VER, transfer_bytes), incoming)
}

/// The session as it waits for a message of the kind `expected`, with a
/// transfer unit of `unit_size` bytes where the unit is settled by then.
pub open spec fn waiting_for(
    expected: MessageKind,
    test_times: u16,
    transfer_bytes: Option<usize>,
    unit_size: usize,
) -> InitiatorModel {
    InitiatorModel {
        test_times,
        transfer_bytes,
        phase: match expected {
            MessageKind::StartSpeedNegotiation => InitiatorPhase::AwaitStartSpeedNegotiation,
            MessageKind::StartSpeedTest => InitiatorPhase::AwaitStartSpeedTest { unit_size },
            MessageKind::EndOfSpeedTest => InitiatorPhase::AwaitEndOfSpeedTest { unit_size },
            _ => InitiatorPhase::AwaitServerHello,
        },
        samples: if expected is EndOfSpeedTest {
            Seq::new(test_times as nat, |i: int| Sample { bytes: unit_size, elapsed_ms: 0 })
        } else {
            Seq::empty()
        },
    }
}

/// Whether a handle for the messages is left as a session leaves it that
/// stopped while it waited: it has sent what `session` has sent, and has
/// read what `session` has received and the message `received` behind it,
/// and nothing else.
pub open spec fn stopped_waiting(
    session: InitiatorModel,
    received: NsptNegProtocol,
    sent_before: Seq<u8>,
    sent_after: Seq<u8>,
    held_before: Seq<u8>,
    held_after: Seq<u8>,
) -> bool {
    &&& sent_after == sent_before + crate::channel::frames(session.sent())
    &&& held_before == crate::channel::frames(session.received().push(received)) + held_after
}

/// A session that meets a message of another kind than the one due stops
/// as it waited: it has sent, received and written what
/// the session that waits for that kind has.
proof fn lemma_stopped_waiting(session: InitiatorModel, event: Event, unit: usize)
    requires
        session.wf(),
        !(session.phase is Failed),
        crate::session::answers(session.action(), event),
        session.unit_size() matches Some(unit_size) ==> unit == unit_size,
        session.next(event).phase is Failed,
    ensures
        session.next(event).phase matches InitiatorPhase::Failed(
            Fault::ProtocolViolation { expected, received },
        ) ==> {
            let waiting = waiting_for(expected, session.test_times, session.transfer_bytes, unit);
            &&& event == Event::Received(received)
            &&& waiting.sent() == session.sent()
            &&& waiting.received() == session.received()
            &&& waiting.bulk_bytes() == session.bulk_bytes()
        },
{
}

/// Whether a handle for the messages is left as a session leaves it that
/// stopped at a frame that is no message: it has sent what `session` has
/// sent, and has read what `session` has received and, behind it, as much
/// as reading one message takes.
pub open spec fn stopped_reading(
    session: InitiatorModel,
    sent_before: Seq<u8>,
    sent_after: Seq<u8>,
    held_before: Seq<u8>,
    held_after: Seq<u8>,
) -> bool {
    let read = crate::channel::frames(session.received());
    &&& sent_after == sent_before + crate::channel::frames(session.sent())
    &&& read.is_prefix_of(held_before)
    &&& held_after == crate::channel::after_message(held_before.skip(read.len() as int))
}

/// Whether `e` is a failure of the codec: a frame that is cut short or too
/// large, or a payload that is no message.
pub open spec fn codec_failed(e: SessionError) -> bool {
    match e {
        SessionError::Malformed(_) => true,
        SessionError::Frame(f) => !(f is Transport),
        _ => false,
    }
}

/// A message of another kind than the one that is due is a violation, and
/// names the kind that was due and the message that came.
pub proof fn lemma_verdict_wrong_message(
    due: Seq<NsptNegProtocol>,
    incoming: Seq<u8>,
    count: int,
    received: NsptNegProtocol,
)
    requires
        crate::channel::holds_wrong_message(due, incoming, count, received),
    ensures
        verdict_from(due, incoming) == Some(
            SessionError::Fault(
                Fault::ProtocolViolation {
                    expected: crate::session::kind_of(due[count]),
                    received,
                },
            ),
        ),
    decreases count,
{
    let held = due.take(count).push(received);
    crate::channel::lemma_next_message_in_order(held, 0, incoming, incoming);
    if count > 0 {
        let rest = crate::channel::after_message(incoming);
        crate::channel::lemma_frames_split(held, 1);
        assert(held.skip(1) =~= due.skip(1).take(count - 1).push(received));
        assert(crate::channel::frames(held.skip(1)).is_prefix_of(rest)) by {
            let all = crate::channel::frames(held);
            let front = crate::channel::frames(held.take(1));
            let back = crate::channel::frames(held.skip(1));
            assert forall|i: int| 0 <= i < back.len() implies rest[i] == back[i] by {
                assert(incoming[front.len() + i] == all[front.len() + i]);
            }
        }
        lemma_verdict_wrong_message(due.skip(1), rest, count - 1, received);
    }
}

/// Whether a session is where its verdict says: a session that has failed
/// has failed as the verdict on the whole stream says, and one that has not
/// will end as the verdict on the rest of the stream says.
spec fn verdict_kept(session: InitiatorModel, whole: Option<SessionError>, left: Seq<u8>) -> bool {
    match session.phase {
        InitiatorPhase::Failed(fault) => whole == Some(SessionError::Fault(fault)),
        _ => if session.hello_version() != PROTOCOL_VER {
            whole == Some(
                SessionError::Fault(
                    Fault::VersionMismatch {
                        ours: PROTOCOL_VER,
                        theirs: session.hello_version(),
                    },
                ),
            )
        } else {
            whole == verdict_from(
                crate::initiator::initiator_receives(PROTOCOL_VER, session.transfer_bytes).skip(
                    session.received_count() as int,
                ),
                left,
            )
        },
    }
}

/// An event that answers the pending action keeps a session where its
/// verdict says.
proof fn lemma_verdict_step(
    session: InitiatorModel,
    event: Event,
    whole: Option<SessionError>,
    left: Seq<u8>,
    then_left: Seq<u8>,
)
    requires
        session.wf(),
        verdict_kept(session, whole, left),
        crate::session::answers(session.action(), event),
        event matches Event::Received(message) ==> crate::channel::next_message(left) == Ok::<
            NsptNegProtocol,
            SessionError,
        >(message) && then_left == crate::channel::after_message(left),
        !(event is Received) ==> then_left == left,
    ensures
        verdict_kept(session.next(event), whole, then_left),
{
    let due = crate::initiator::initiator_receives(PROTOCOL_VER, session.transfer_bytes);
    let count = session.received_count() as int;
    if event is Received && session.hello_version() == PROTOCOL_VER {
        assert(due.skip(count).skip(1) =~= due.skip(count + 1));
    }
}

/// A frame that is no message ends a session that waits for one with the
/// failure of the codec, as the verdict says.
proof fn lemma_verdict_no_message(
    session: InitiatorModel,
    whole: Option<SessionError>,
    left: Seq<u8>,
    e: SessionError,
)
    requires
        session.wf(),
        verdict_kept(session, whole, left),
        session.action() == Action::Receive,
        crate::channel::next_message(left) == Err::<NsptNegProtocol, SessionError>(e),
    ensures
        whole == Some(e),
{
}

/// A session that is over is over as the verdict says.
proof fn lemma_verdict_end(session: InitiatorModel, whole: Option<SessionError>, left: Seq<u8>)
    requires
        session.wf(),
        verdict_kept(session, whole, left),
        session.finished(),
    ensures
        session.phase matches InitiatorPhase::Failed(fault) ==> whole == Some(
            SessionError::Fault(fault),
        ),
        session.phase is Completed ==> whole is None,
{
}

/// Where the handle of a session holds the messages of a whole session,
/// the message that the session waits for is there, and the session goes
/// on with it.
proof fn lemma_owed_message(session: InitiatorModel, held: Seq<u8>, left: Seq<u8>)
    requires
        session.wf(),
        session.action() == Action::Receive,
        session.hello_version() == PROTOCOL_VER,
        holds_session(held, session.transfer_bytes),
        held == crate::channel::frames(session.received()) + left,
    ensures
        ({
            let due = crate::initiator::initiator_receives(
                PROTOCOL_VER,
                session.transfer_bytes,
            )[session.received_count() as int];
            let after = session.next(Event::Received(due));
            &&& crate::channel::next_message(left) == Ok::<NsptNegProtocol, SessionError>(due)
            &&& !(after.phase is Failed)
            &&& after.hello_version() == PROTOCOL_VER
        }),
{
    let whole = crate::initiator::initiator_receives(PROTOCOL_VER, session.transfer_bytes);
    let count = session.received_count() as int;
    crate::channel::lemma_next_message_owed(whole, count, held, left);
}

/// What a driver sees of the two handles of a session: whether they carry
/// a model, and what they had sent and held when the session began and
/// have now.
pub struct Handles {
    pub modeled: bool,
    pub sent_first: Seq<u8>,
    pub held_first: Seq<u8>,
    pub sent: Seq<u8>,
    pub held: Seq<u8>,
    pub bulk_modeled: bool,
    pub bulk_first: Seq<u8>,
    pub bulk: Seq<u8>,
    /// The size of a transfer unit as far as it is settled.
    pub unit: usize,
}

/// The handles as a driver sees them.
pub open spec fn handles<T: ReadWriteStream>(
    control_first: &T,
    control: &T,
    data_first: &T,
    data: &T,
    unit: usize,
) -> Handles {
    Handles {
        modeled: control_first.modeled(),
        sent_first: control_first.sent(),
        held_first: control_first.incoming(),
        sent: control.sent(),
        held: control.incoming(),
        bulk_modeled: data_first.modeled(),
        bulk_first: data_first.sent(),
        bulk: data.sent(),
        unit,
    }
}

/// What ties a session to the handles that it is driven over: the handles
/// have sent and taken what the session has sent and received, and the
/// session is where the verdict on the stream says.
#[verifier::opaque]
pub closed spec fn tied(session: InitiatorModel, h: Handles) -> bool {
    &&& session.wf()
    &&& session.phase != InitiatorPhase::Failed(Fault::OutOfTurn)
    &&& session.transfer_bytes matches Some(fixed) ==> h.unit == fixed
    &&& session.unit_size() matches Some(unit_size) ==> h.unit == unit_size
    &&& session.phase matches InitiatorPhase::Failed(
        Fault::ProtocolViolation { expected, received },
    ) ==> {
        &&& h.modeled ==> stopped_waiting(
            waiting_for(expected, session.test_times, session.transfer_bytes, h.unit),
            received,
            h.sent_first,
            h.sent,
            h.held_first,
            h.held,
        )
        &&& h.bulk_modeled ==> h.bulk.len() == h.bulk_first.len() + waiting_for(
            expected,
            session.test_times,
            session.transfer_bytes,
            h.unit,
        ).bulk_bytes()
    }
    &&& h.bulk_modeled ==> {
        &&& h.bulk_first.is_prefix_of(h.bulk)
        &&& !(session.phase is Failed) ==> h.bulk.len() == h.bulk_first.len()
            + session.bulk_bytes()
        &&& session.phase matches InitiatorPhase::Failed(Fault::VersionMismatch { ours, theirs })
            ==> h.bulk == h.bulk_first
    }
    &&& h.modeled ==> {
        &&& holds_session(h.held_first, session.transfer_bytes) ==> !(session.phase is Failed)
            && session.hello_version() == PROTOCOL_VER
        &&& verdict_kept(session, verdict(session.transfer_bytes, h.held_first), h.held)
        &&& (session.phase matches InitiatorPhase::Failed(fault) ==> fault is VersionMismatch)
            ==> {
            &&& h.sent == h.sent_first + crate::channel::frames(session.sent())
            &&& h.held_first == crate::channel::frames(session.received()) + h.held
        }
    }
}

/// A session that has not begun is tied to handles that were not used.
proof fn lemma_tied_at_start(test_times: u16, transfer_bytes: Option<usize>, h: Handles)
    requires
        h.sent == h.sent_first,
        h.held == h.held_first,
        h.bulk == h.bulk_first,
        transfer_bytes matches Some(fixed) ==> h.unit == fixed,
    ensures
        tied(InitiatorModel::init(test_times, transfer_bytes), h),
{
    reveal(tied);
    let due = crate::initiator::initiator_receives(PROTOCOL_VER, transfer_bytes);
    assert(due.skip(0) =~= due);
}

/// Whether `after` are the handles `before` but for what was sent, held and
/// written, and for the unit, which is the one of `session` where that is
/// settled.
spec fn moved_on(session: InitiatorModel, before: Handles, after: Handles) -> bool {
    &&& after.modeled == before.modeled
    &&& after.bulk_modeled == before.bulk_modeled
    &&& after.sent_first == before.sent_first
    &&& after.held_first == before.held_first
    &&& after.bulk_first == before.bulk_first
    &&& after.unit == match session.unit_size() {
        Some(unit_size) => unit_size,
        None => before.unit,
    }
}

/// A message that was received keeps the session tied to the handles.
proof fn lemma_tied_received(
    session: InitiatorModel,
    message: NsptNegProtocol,
    before: Handles,
    after: Handles,
)
    requires
        tied(session, before),
        session.action() == Action::Receive,
        moved_on(session.next(Event::Received(message)), before, after),
        after.bulk == before.bulk,
        before.modeled ==> {
            &&& crate::channel::next_message(before.held) == Ok::<NsptNegProtocol, SessionError>(
                message,
            )
            &&& before.held == crate::channel::message_frame(message) + after.held
            &&& after.held == crate::channel::after_message(before.held)
            &&& after.sent == before.sent
        },
    ensures
        tied(session.next(Event::Received(message)), after),
        session.next(Event::Received(message)).remaining() < session.remaining(),
{
    reveal(tied);
    let event = Event::Received(message);
    let next = session.next(event);
    crate::initiator::lemma_initiator_next_preserves_wf(session, event);
    if next.phase is Failed {
        lemma_stopped_waiting(session, event, before.unit);
    } else {
        crate::initiator::lemma_initiator_next_bulk(session, event);
    }
    if before.modeled {
        lemma_verdict_step(
            session,
            event,
            verdict(session.transfer_bytes, before.held_first),
            before.held,
            after.held,
        );
        if holds_session(before.held_first, session.transfer_bytes) {
            lemma_owed_message(session, before.held_first, before.held);
        }
        crate::channel::lemma_frames_push(session.received(), message);
        if next.phase is Failed {
            assert(before.held_first =~= crate::channel::frames(
                session.received().push(message),
            ) + after.held);
        } else {
            crate::initiator::lemma_initiator_next_transcript(session, event);
            assert(session.received() + seq![message] =~= session.received().push(message));
            assert(before.held_first =~= crate::channel::frames(next.received()) + after.held);
        }
    }
}

/// A message that was sent keeps the session tied to the handles.
proof fn lemma_tied_sent(session: InitiatorModel, before: Handles, after: Handles)
    requires
        tied(session, before),
        session.action() is Send,
        moved_on(session.next(Event::Sent), before, after),
        after.bulk == before.bulk,
        before.modeled ==> {
            &&& after.sent == before.sent + crate::channel::message_frame(session.action()->Send_0)
            &&& after.held == before.held
        },
    ensures
        tied(session.next(Event::Sent), after),
        session.next(Event::Sent).remaining() < session.remaining(),
{
    reveal(tied);
    let event = Event::Sent;
    let next = session.next(event);
    let message = session.action()->Send_0;
    crate::initiator::lemma_initiator_next_preserves_wf(session, event);
    crate::initiator::lemma_initiator_next_transcript(session, event);
    if !(next.phase is Failed) {
        crate::initiator::lemma_initiator_next_bulk(session, event);
    } else if before.bulk_modeled {
        assert(after.bulk =~= after.bulk_first);
    }
    if before.modeled {
        lemma_verdict_step(
            session,
            event,
            verdict(session.transfer_bytes, before.held_first),
            before.held,
            after.held,
        );
        crate::channel::lemma_frames_push(session.sent(), message);
        assert(session.sent() + seq![message] =~= session.sent().push(message));
        assert(after.sent =~= before.sent_first + crate::channel::frames(next.sent()));
    }
}

/// Bulk data that was written keeps the session tied to the handles.
proof fn lemma_tied_transferred(
    session: InitiatorModel,
    elapsed_ms: u64,
    before: Handles,
    after: Handles,
)
    requires
        tied(session, before),
        session.action() is Transfer,
        moved_on(session.next(Event::Transferred { elapsed_ms }), before, after),
        after.sent == before.sent,
        after.held == before.held,
        before.bulk_modeled ==> before.bulk.is_prefix_of(after.bulk) && after.bulk.len()
            == before.bulk.len() + session.action()->Transfer_0,
    ensures
        tied(session.next(Event::Transferred { elapsed_ms }), after),
        session.next(Event::Transferred { elapsed_ms }).remaining() < session.remaining(),
{
    reveal(tied);
    let event = Event::Transferred { elapsed_ms };
    crate::initiator::lemma_initiator_next_preserves_wf(session, event);
    crate::initiator::lemma_initiator_next_transcript(session, event);
    crate::initiator::lemma_initiator_next_bulk(session, event);
    if before.modeled {
        lemma_verdict_step(
            session,
            event,
            verdict(session.transfer_bytes, before.held_first),
            before.held,
            after.held,
        );
    }
}

/// What a frame that is no message means for a session that waits for one:
/// the verdict on the stream is the failure of the codec, and the stream
/// does not hold a whole session.
proof fn lemma_tied_no_message(session: InitiatorModel, h: Handles, e: SessionError)
    requires
        tied(session, h),
        h.modeled,
        session.action() == Action::Receive,
        crate::channel::next_message(h.held) == Err::<NsptNegProtocol, SessionError>(e),
    ensures
        verdict(session.transfer_bytes, h.held_first) == Some(e),
        !holds_session(h.held_first, session.transfer_bytes),
{
    reveal(tied);
    lemma_verdict_no_message(
        session,
        verdict(session.transfer_bytes, h.held_first),
        h.held,
        e,
    );
    if holds_session(h.held_first, session.transfer_bytes) {
        lemma_owed_message(session, h.held_first, h.held);
    }
}

/// What a session that waits for a message has left on the handles: what
/// the session that waits for that kind of message has sent, received and
/// written.
proof fn lemma_tied_while_waiting(session: InitiatorModel, h: Handles)
    requires
        tied(session, h),
        session.action() == Action::Receive,
    ensures
        ({
            let waiting = waiting_for(
                session.expected(),
                session.test_times,
                session.transfer_bytes,
                h.unit,
            );
            &&& session.transfer_bytes matches Some(fixed) ==> h.unit == fixed
            &&& h.modeled ==> {
                &&& h.sent == h.sent_first + crate::channel::frames(waiting.sent())
                &&& crate::channel::frames(waiting.received()).is_prefix_of(h.held_first)
                &&& h.held == h.held_first.skip(
                    crate::channel::frames(waiting.received()).len() as int,
                )
            }
            &&& h.bulk_modeled ==> h.bulk.len() == h.bulk_first.len() + waiting.bulk_bytes()
        }),
{
    reveal(tied);
}

/// What a session that ran to its end has left on the handles.
proof fn lemma_tied_at_finish(session: InitiatorModel, h: Handles)
    requires
        tied(session, h),
        session.phase is Completed,
    ensures
        session.unit_size() matches Some(unit_size) && {
            &&& session.samples.len() == session.test_times
            &&& forall|i: int|
                0 <= i < session.samples.len() ==> (#[trigger] session.samples[i]).bytes
                    == unit_size
            &&& session.transfer_bytes matches Some(fixed) ==> unit_size == fixed
            &&& session.transfer_bytes is None ==> crate::initiator::is_calibrated_size(unit_size)
            &&& h.bulk_modeled ==> h.bulk.len() == h.bulk_first.len()
                + crate::session::bulk_volume(
                session.transfer_bytes is None,
                unit_size,
                session.test_times,
            )
            &&& h.modeled ==> {
                &&& verdict(session.transfer_bytes, h.held_first) is None
                &&& h.sent == h.sent_first + crate::channel::frames(
                    crate::initiator::initiator_sends(
                        session.test_times,
                        session.transfer_bytes,
                        unit_size,
                    ),
                )
                &&& h.held_first == crate::channel::frames(
                    crate::initiator::initiator_receives(PROTOCOL_VER, session.transfer_bytes),
                ) + h.held
            }
        },
{
    reveal(tied);
    crate::initiator::lemma_initiator_completed_bulk(session);
    crate::initiator::lemma_initiator_completed_transcript(session);
    if h.modeled {
        lemma_verdict_end(session, verdict(session.transfer_bytes, h.held_first), h.held);
    }
}

/// What a session that failed has left on the handles.
proof fn lemma_tied_at_abort(session: InitiatorModel, h: Handles)
    requires
        tied(session, h),
        session.phase is Failed,
    ensures
        match session.phase->Failed_0 {
            Fault::VersionMismatch { ours, theirs } => {
                &&& ours == PROTOCOL_VER
                &&& theirs != PROTOCOL_VER
                &&& h.bulk_modeled ==> h.bulk == h.bulk_first
                &&& h.modeled ==> h.sent == h.sent_first + crate::channel::frames(
                    seq![NsptNegProtocol::ClientHello(PROTOCOL_VER)],
                ) && h.held_first == crate::channel::frames(
                    seq![NsptNegProtocol::ServerHello(theirs)],
                ) + h.held
            },
            Fault::ProtocolViolation { expected, received } => {
                &&& expected != crate::session::kind_of(received)
                &&& h.modeled ==> stopped_waiting(
                    waiting_for(expected, session.test_times, session.transfer_bytes, h.unit),
                    received,
                    h.sent_first,
                    h.sent,
                    h.held_first,
                    h.held,
                )
                &&& h.bulk_modeled ==> h.bulk.len() == h.bulk_first.len() + waiting_for(
                    expected,
                    session.test_times,
                    session.transfer_bytes,
                    h.unit,
                ).bulk_bytes()
            },
            Fault::OutOfTurn => false,
        },
        session.transfer_bytes matches Some(fixed) ==> h.unit == fixed,
        h.modeled ==> verdict(session.transfer_bytes, h.held_first) == Some(
            SessionError::Fault(session.phase->Failed_0),
        ),
        h.modeled ==> !holds_session(h.held_first, session.transfer_bytes),
{
    reveal(tied);
    if h.modeled {
        lemma_verdict_end(session, verdict(session.transfer_bytes, h.held_first), h.held);
    }
    if session.phase->Failed_0 is VersionMismatch {
        assert(session.sent() =~= seq![NsptNegProtocol::ClientHello(PROTOCOL_VER)]);
        assert(session.received() =~= seq![NsptNegProtocol::ServerHello(session.hello_version())]);
    }
}

/// Runs one session as the initiator: `test_times` rounds, of
/// `transfer_bytes` bytes each where the caller fixes the size, else of a
/// size that a calibration transfer settles. Messages go over
/// `server_stream`, bulk data over `data_stream`.
///
/// A session that runs to its end has one sample for each round. Where the
/// data handle carries a model, the contract counts the bulk data: the
/// rounds in full, and the calibration volume where there was a
/// calibration; and not one byte where the responder speaks another
/// version of the protocol. Where the handle for the messages carries a
/// model, the contract names the messages that went over it: those of a
/// whole session where the session ran to its end, and the two hellos where
/// it failed for the version. And it says when the session runs to its end:
/// whenever the handle holds the messages that a responder sends in a
/// whole session, unless a stream fails.
///
/// Unless a stream fails, the result is what `verdict` says of the bytes
/// that the handle for the messages holds. A hello of another version gives
/// the mismatch, a message of another kind than the one due gives the
/// violation that names both, and a frame that is no message gives the
/// failure of the codec. A session that ends so has sent and received what
/// it had when it began to wait for that message, and has written no byte
/// more: `stopped_waiting` and `stopped_reading` say what that is.
pub fn do_test<T: ReadWriteStream>(
    server_stream: &mut T,
    data_stream: &mut T,
    test_times: u16,
    transfer_bytes: Option<usize>,
) -> (r: Result<InitiatorReport, SessionError>)
    ensures
        r matches Err(e) ==> match e {
            SessionError::Fault(Fault::VersionMismatch { ours, theirs }) => ours == PROTOCOL_VER
                && theirs != PROTOCOL_VER,
            SessionError::Fault(Fault::ProtocolViolation { expected, received }) => expected
                != crate::session::kind_of(received),
            SessionError::Fault(Fault::OutOfTurn) => false,
            SessionError::PeerClosed => false,
            _ => true,
        },
        r matches Ok(report) ==> {
            &&& report.samples@.len() == test_times
            &&& forall|i: int|
                0 <= i < report.samples@.len() ==> (#[trigger] report.samples@[i]).bytes
                    == report.unit_size
            &&& transfer_bytes matches Some(fixed) ==> report.unit_size == fixed
            &&& transfer_bytes is None ==> crate::initiator::is_calibrated_size(report.unit_size)
        },
        old(data_stream).modeled() ==> {
            &&& final(data_stream).modeled()
            &&& final(data_stream).incoming() == old(data_stream).incoming()
            &&& old(data_stream).sent().is_prefix_of(final(data_stream).sent())
            &&& match r {
                Ok(report) => final(data_stream).sent().len() == old(data_stream).sent().len()
                    + crate::session::bulk_volume(
                    transfer_bytes is None,
                    report.unit_size,
                    test_times,
                ),
                Err(SessionError::Fault(Fault::VersionMismatch { ours, theirs })) => {
                    final(data_stream).sent() == old(data_stream).sent()
                },
                Err(_) => true,
            }
        },
        old(server_stream).modeled() && holds_session(
            old(server_stream).incoming(),
            transfer_bytes,
        ) ==> (r matches Err(e) ==> crate::session::transport_failed(e)),
        old(server_stream).modeled() && !crate::session::stream_failed(r) ==> match r {
            Ok(report) => verdict(transfer_bytes, old(server_stream).incoming()) is None,
            Err(e) => verdict(transfer_bytes, old(server_stream).incoming()) == Some(e),
        },
        r matches Err(SessionError::Fault(Fault::ProtocolViolation { expected, received })) ==> (
        old(server_stream).modeled() ==> exists|unit_size: usize|
            {
                &&& transfer_bytes matches Some(fixed) ==> unit_size == fixed
                &&& #[trigger] stopped_waiting(
                    waiting_for(expected, test_times, transfer_bytes, unit_size),
                    received,
                    old(server_stream).sent(),
                    final(server_stream).sent(),
                    old(server_stream).incoming(),
                    final(server_stream).incoming(),
                )
            }),
        r matches Err(SessionError::Fault(Fault::ProtocolViolation { expected, received })) ==> (
        old(data_stream).modeled() ==> exists|unit_size: usize|
            {
                &&& transfer_bytes matches Some(fixed) ==> unit_size == fixed
                &&& final(data_stream).sent().len() == old(data_stream).sent().len()
                    + (#[trigger] waiting_for(
                    expected,
                    test_times,
                    transfer_bytes,
                    unit_size,
                )).bulk_bytes()
            }),
        r matches Err(e) ==> (codec_failed(e) ==> {
            &&& old(server_stream).modeled() ==> exists|expected: MessageKind, unit_size: usize|
                {
                    &&& transfer_bytes matches Some(fixed) ==> unit_size == fixed
                    &&& #[trigger] stopped_reading(
                        waiting_for(expected, test_times, transfer_bytes, unit_size),
                        old(server_stream).sent(),
                        final(server_stream).sent(),
                        old(server_stream).incoming(),
                        final(server_stream).incoming(),
                    )
                }
            &&& old(data_stream).modeled() ==> exists|expected: MessageKind, unit_size: usize|
                {
                    &&& transfer_bytes matches Some(fixed) ==> unit_size == fixed
                    &&& final(data_stream).sent().len() == old(data_stream).sent().len()
                        + (#[trigger] waiting_for(
                        expected,
                        test_times,
                        transfer_bytes,
                        unit_size,
                    )).bulk_bytes()
                }
        }),
        crate::channel::next_message(old(server_stream).incoming()) matches Ok(
            NsptNegProtocol::ServerHello(theirs),
        ) ==> (old(server_stream).modeled() && theirs != PROTOCOL_VER
            ==> crate::session::stream_failed(r) || r == Err::<InitiatorReport, SessionError>(
            SessionError::Fault(Fault::VersionMismatch { ours: PROTOCOL_VER, theirs }),
        )),
        forall|count: int, received: NsptNegProtocol|
            old(server_stream).modeled() && #[trigger] crate::channel::holds_wrong_message(
                crate::initiator::initiator_receives(PROTOCOL_VER, transfer_bytes),
                old(server_stream).incoming(),
                count,
                received,
            ) ==> crate::session::stream_failed(r) || r == Err::<InitiatorReport, SessionError>(
                SessionError::Fault(
                    Fault::ProtocolViolation {
                        expected: crate::session::kind_of(
                            crate::initiator::initiator_receives(
                                PROTOCOL_VER,
                                transfer_bytes,
                            )[count],
                        ),
                        received,
                    },
                ),
            ),
        old(server_stream).modeled() ==> {
            &&& final(server_stream).modeled()
            &&& match r {
                Ok(report) => {
                    &&& final(server_stream).sent() == old(server_stream).sent()
                        + crate::channel::frames(
                        crate::initiator::initiator_sends(
                            test_times,
                            transfer_bytes,
                            report.unit_size,
                        ),
                    )
                    &&& old(server_stream).incoming() == crate::channel::frames(
                        crate::initiator::initiator_receives(PROTOCOL_VER, transfer_bytes),
                    ) + final(server_stream).incoming()
                },
                Err(SessionError::Fault(Fault::VersionMismatch { ours, theirs })) => {
                    &&& ours == PROTOCOL_VER
                    &&& theirs != PROTOCOL_VER
                    &&& final(server_stream).sent() == old(server_stream).sent()
                        + crate::channel::frames(seq![NsptNegProtocol::ClientHello(PROTOCOL_VER)])
                    &&& old(server_stream).incoming() == crate::channel::frames(
                        seq![NsptNegProtocol::ServerHello(theirs)],
                    ) + final(server_stream).incoming()
                },
                Err(_) => true,
            }
        },
{
    let mut session: Initiator = Initiator::new(test_times, transfer_bytes);
    let mut action: Action = session.action();
    let ghost mut unit: usize = match transfer_bytes {
        Some(fixed) => fixed,
        None => 0,
    };
    proof {
        let due = crate::initiator::initiator_receives(PROTOCOL_VER, transfer_bytes);
        assert forall|count: int, received: NsptNegProtocol| #[trigger]
            crate::channel::holds_wrong_message(due, server_stream.incoming(), count, received) implies verdict(
            transfer_bytes,
            server_stream.incoming(),
        ) == Some(
            SessionError::Fault(
                Fault::ProtocolViolation {
                    expected: crate::session::kind_of(due[count]),
                    received,
                },
            ),
        ) by {
            lemma_verdict_wrong_message(due, server_stream.incoming(), count, received);
        }
        lemma_tied_at_start(
            test_times,
            transfer_bytes,
            handles(server_stream, server_stream, data_stream, data_stream, unit),
        );
    }
    loop
        invariant
            action == session@.action(),
            tied(
                session@,
                handles(old(server_stream), server_stream, old(data_stream), data_stream, unit),
            ),
            session@.test_times == test_times,
            session@.transfer_bytes == transfer_bytes,
            old(server_stream).modeled() ==> server_stream.modeled(),
            old(data_stream).modeled() ==> {
                &&& data_stream.modeled()
                &&& data_stream.incoming() == old(data_stream).incoming()
                &&& old(data_stream).sent().is_prefix_of(data_stream.sent())
            },
            forall|count: int, received: NsptNegProtocol| #[trigger]
                crate::channel::holds_wrong_message(
                    crate::initiator::initiator_receives(PROTOCOL_VER, transfer_bytes),
                    old(server_stream).incoming(),
                    count,
                    received,
                ) ==> verdict(transfer_bytes, old(server_stream).incoming()) == Some(
                    SessionError::Fault(
                        Fault::ProtocolViolation {
                            expected: crate::session::kind_of(
                                crate::initiator::initiator_receives(
                                    PROTOCOL_VER,
                                    transfer_bytes,
                                )[count],
                            ),
                            received,
                        },
                    ),
                ),
        decreases session@.remaining(),
    {
        let ghost before = handles(
            old(server_stream),
            server_stream,
            old(data_stream),
            data_stream,
            unit,
        );
        let event: Event = match action {
            Action::Finish => {
                let unit_size: usize = match session.phase() {
                    InitiatorPhase::Completed { unit_size } => unit_size,
                    _ => 0,
                };
                proof {
                    lemma_tied_at_finish(session@, before);
                }
                return Ok(InitiatorReport { unit_size, samples: session.into_samples() });
            },
            Action::Abort(fault) => {
                proof {
                    lemma_tied_at_abort(session@, before);
                }
                return Err(SessionError::Fault(fault));
            },
            Action::Receive => match receive_message(server_stream) {
                Ok(message) => Event::Received(message),
                Err(e) => {
                    proof {
                        lemma_tied_while_waiting(session@, before);
                        if old(server_stream).modeled() && !crate::session::transport_failed(e) {
                            lemma_tied_no_message(session@, before, e);
                            assert(stopped_reading(
                                waiting_for(
                                    session@.expected(),
                                    test_times,
                                    transfer_bytes,
                                    unit,
                                ),
                                old(server_stream).sent(),
                                server_stream.sent(),
                                old(server_stream).incoming(),
                                server_stream.incoming(),
                            ));
                        }
                    }
                    return Err(e);
                },
            },
            Action::Send(message) => match send_message(server_stream, &message) {
                Ok(()) => Event::Sent,
                Err(e) => {
                    return Err(e);
                },
            },
            Action::Transfer(bytes) => match do_speed_test(data_stream, bytes) {
                Ok(sample) => Event::Transferred { elapsed_ms: sample.elapsed_ms },
                Err(e) => {
                    return Err(SessionError::Transport(e));
                },
            },
        };
        proof {
            if let Some(unit_size) = session@.next(event).unit_size() {
                unit = unit_size;
            }
            let after = handles(
                old(server_stream),
                server_stream,
                old(data_stream),
                data_stream,
                unit,
            );
            match event {
                Event::Received(message) => {
                    lemma_tied_received(session@, message, before, after);
                },
                Event::Sent => {
                    lemma_tied_sent(session@, before, after);
                },
                Event::Transferred { elapsed_ms } => {
                    lemma_tied_transferred(session@, elapsed_ms, before, after);
                },
            }
        }
        action = session.step(event);
    }
}

} // verus!
