//! The responder at work: it drives the session of a responder over the
//! two handles of a connection, one for the messages and one for the bulk
//! data, and serves the peers of a listener one after the other.

use crate::channel::drain;
use crate::channel::receive_message;
use crate::channel::send_message;
use crate::message::NsptNegProtocol;
use crate::message::ProtocolVer;
use crate::message::PROTOCOL_VER;
use crate::responder::Responder;
use crate::responder::ResponderModel;
use crate::responder::ResponderPhase;
use crate::session::Action;
use crate::session::Event;
use crate::session::Fault;
use crate::session::SessionError;
use crate::session::TOTAL_SEND_NEG_BYTES;
use crate::transport::Listener;
use crate::transport::ReadWriteStream;
use vstd::prelude::*;

verus! {

/// How a session ended for the responder.
#[derive(Debug, Clone, Copy, PartialEq, Eq, Structural)]
pub enum ResponderReport {
    /// The session ran to its end.
    Completed {
        /// The size of a transfer unit.
        unit_size: usize,
        /// The number of rounds.
        rounds: u16,
        /// Whether a calibration transfer came before the rounds.
        calibrated: bool,
    },
    /// The initiator speaks another version of the protocol; the connection
    /// is given up.
    VersionMismatch {
        /// The version that the initiator announced.
        theirs: ProtocolVer,
    },
}

/// How a session ends, and what it leaves behind on the two handles.
pub struct ResponderRun {
    /// What is reported.
    pub result: Result<ResponderReport, SessionError>,
    /// The messages sent, in order.
    pub sent: Seq<NsptNegProtocol>,
    /// What is left on the handle for the messages.
    pub messages: Seq<u8>,
    /// What is left on the handle for the bulk data.
    pub bulk: Seq<u8>,
}

/// What a session that is over reports.
pub open spec fn report_of(session: ResponderModel) -> Result<ResponderReport, SessionError> {
    match session.phase {
        ResponderPhase::Failed(Fault::VersionMismatch { ours, theirs }) => Ok(
            ResponderReport::VersionMismatch { theirs },
        ),
        ResponderPhase::Failed(fault) => Err(SessionError::Fault(fault)),
        ResponderPhase::Completed { unit_size, rounds } => Ok(
            ResponderReport::Completed { unit_size, rounds, calibrated: session.calibrated },
        ),
        _ => Ok(ResponderReport::Completed { unit_size: 0, rounds: 0, calibrated: false }),
    }
}

/// The course of a session from `session` on, over a handle that holds
/// `messages` and a handle that holds `bulk`, as long as no stream fails.
/// Every action is taken as the session asks for it: a message is sent, the
/// next message is read, bulk data is drained. A frame that is no message
/// ends the course with the failure of the codec, bulk data that ends early
/// with `PeerClosed`, and a session that is over with its report.
pub open spec fn responder_run(
    session: ResponderModel,
    messages: Seq<u8>,
    bulk: Seq<u8>,
) -> ResponderRun
    decreases session.remaining(),
{
    match session.action() {
        Action::Finish => ResponderRun {
            result: report_of(session),
            sent: Seq::empty(),
            messages,
            bulk,
        },
        Action::Abort(fault) => ResponderRun {
            result: report_of(session),
            sent: Seq::empty(),
            messages,
            bulk,
        },
        Action::Send(message) => {
            let rest = responder_run(session.next(Event::Sent), messages, bulk);
            ResponderRun { sent: seq![message] + rest.sent, ..rest }
        },
        Action::Receive => match crate::channel::next_message(messages) {
            Ok(message) => responder_run(
                session.next(Event::Received(message)),
                crate::channel::after_message(messages),
                bulk,
            ),
            Err(e) => ResponderRun {
                result: Err(e),
                sent: Seq::empty(),
                messages: crate::channel::after_message(messages),
                bulk,
            },
        },
        Action::Transfer(bytes) => if bulk.len() < bytes {
            ResponderRun {
                result: Err(SessionError::PeerClosed),
                sent: Seq::empty(),
                messages,
                bulk: Seq::empty(),
            }
        } else {
            responder_run(
                session.next(Event::Transferred { elapsed_ms: 0 }),
                messages,
                bulk.skip(bytes as int),
            )
        },
    }
}

/// An initiator of another version is turned away: the session sends its
/// hello, reads the hello of the initiator and ends with the report of the
/// mismatch. Nothing else is sent, and no bulk data is touched.
pub proof fn lemma_responder_run_version_mismatch(
    messages: Seq<u8>,
    bulk: Seq<u8>,
    theirs: ProtocolVer,
)
    requires
        crate::channel::next_message(messages) == Ok::<NsptNegProtocol, SessionError>(
            NsptNegProtocol::ClientHello(theirs),
        ),
        theirs != PROTOCOL_VER,
    ensures
        ({
            let run = responder_run(ResponderModel::init(), messages, bulk);
            &&& run.result == Ok::<ResponderReport, SessionError>(
                ResponderReport::VersionMismatch { theirs },
            )
            &&& run.sent == seq![NsptNegProtocol::ServerHello(PROTOCOL_VER)]
            &&& run.messages == crate::channel::after_message(messages)
            &&& run.bulk == bulk
        }),
{
    reveal_with_fuel(responder_run, 4);
}

/// A message of another kind than the one that is due ends the course at
/// once, with a violation that names the kind that was due and the message
/// that came. Nothing is sent any more, and no bulk data is touched.
pub proof fn lemma_responder_run_violation(
    session: ResponderModel,
    messages: Seq<u8>,
    bulk: Seq<u8>,
    received: NsptNegProtocol,
)
    requires
        session.action() == Action::Receive,
        crate::channel::next_message(messages) == Ok::<NsptNegProtocol, SessionError>(received),
        crate::session::kind_of(received) != session.expected(),
    ensures
        ({
            let run = responder_run(session, messages, bulk);
            &&& run.result == Err::<ResponderReport, SessionError>(
                SessionError::Fault(
                    Fault::ProtocolViolation { expected: session.expected(), received },
                ),
            )
            &&& run.sent == Seq::<NsptNegProtocol>::empty()
            &&& run.messages == crate::channel::after_message(messages)
            &&& run.bulk == bulk
        }),
{
    reveal_with_fuel(responder_run, 3);
}

/// The messages that a responder has sent when the bulk data ends early:
/// its hello and the echo of the announcement where the calibration
/// transfer is cut short, and all but the last message of a whole session
/// where a round is.
pub open spec fn sent_before_close(calibrated: bool, bulk: nat) -> Seq<NsptNegProtocol> {
    if calibrated && bulk < TOTAL_SEND_NEG_BYTES {
        crate::responder::responder_sends(calibrated).take(2)
    } else {
        crate::responder::responder_sends(calibrated).drop_last()
    }
}

/// Whether the handle for the messages holds a whole session, and the
/// handle for the bulk data less than the session asks for.
pub open spec fn holds_short_session(
    messages: Seq<u8>,
    bulk: Seq<u8>,
    calibrated: bool,
    unit_size: usize,
    rounds: u16,
) -> bool {
    &&& crate::channel::frames(
        crate::responder::responder_receives(PROTOCOL_VER, calibrated, unit_size, rounds),
    ).is_prefix_of(messages)
    &&& bulk.len() < crate::session::bulk_volume(calibrated, unit_size, rounds)
}

/// Rounds that are cut short end the course with `PeerClosed`: the bulk
/// data is used up, and nothing is sent or read any more.
proof fn lemma_run_rounds_cut_short(session: ResponderModel, messages: Seq<u8>, bulk: Seq<u8>)
    requires
        session.wf(),
        session.phase matches ResponderPhase::Drain { unit_size, rounds, done } && bulk.len() < (
        rounds - done) * unit_size,
    ensures
        ({
            let run = responder_run(session, messages, bulk);
            &&& run.result == Err::<ResponderReport, SessionError>(SessionError::PeerClosed)
            &&& run.sent == Seq::<NsptNegProtocol>::empty()
            &&& run.messages == messages
            &&& run.bulk == Seq::<u8>::empty()
        }),
    decreases session.remaining(),
{
    reveal_with_fuel(responder_run, 2);
    if let ResponderPhase::Drain { unit_size, rounds, done } = session.phase {
        let left = rounds - done;
        assert(left * unit_size == (left - 1) * unit_size + unit_size) by (nonlinear_arith);
        if bulk.len() >= unit_size {
            lemma_run_rounds_cut_short(
                session.next(Event::Transferred { elapsed_ms: 0 }),
                messages,
                bulk.skip(unit_size as int),
            );
        }
    }
}

/// Bulk data that ends early ends the session with `PeerClosed`: where the
/// handle for the messages holds a whole session and the handle for the
/// bulk data less than the session asks for, the bulk data is used up and
/// the end of the session is not acknowledged.
pub proof fn lemma_responder_run_closed_early(
    messages: Seq<u8>,
    bulk: Seq<u8>,
    calibrated: bool,
    unit_size: usize,
    rounds: u16,
)
    requires
        holds_short_session(messages, bulk, calibrated, unit_size, rounds),
    ensures
        ({
            let run = responder_run(ResponderModel::init(), messages, bulk);
            &&& run.result == Err::<ResponderReport, SessionError>(SessionError::PeerClosed)
            &&& run.sent == sent_before_close(calibrated, bulk.len())
            &&& run.bulk == Seq::<u8>::empty()
            &&& !run.sent.contains(NsptNegProtocol::EndOfSpeedTest)
        }),
{
    if calibrated {
        lemma_closed_early_calibrated(messages, bulk, unit_size, rounds);
    } else {
        lemma_closed_early_plain(messages, bulk, unit_size, rounds);
    }
}

/// Whether a course over bulk data `bulk` ends with the violation at the
/// message number `count`.
spec fn went_wrong(
    run: ResponderRun,
    bulk: Seq<u8>,
    calibrated: bool,
    unit_size: usize,
    rounds: u16,
    count: int,
    received: NsptNegProtocol,
) -> bool {
    &&& run.result == Err::<ResponderReport, SessionError>(
        SessionError::Fault(
            Fault::ProtocolViolation {
                expected: crate::session::kind_of(
                    crate::responder::responder_receives(
                        PROTOCOL_VER,
                        calibrated,
                        unit_size,
                        rounds,
                    )[count],
                ),
                received,
            },
        ),
    )
    &&& run.sent == crate::responder::responder_sends(calibrated).take(
        sent_before(calibrated, count),
    )
    &&& run.bulk == bulk.skip(drained_before(calibrated, unit_size, rounds, count) as int)
}

/// Whether a course ends with `result`, having sent `sent`.
spec fn foreseen(
    run: ResponderRun,
    result: Result<ResponderReport, SessionError>,
    sent: Seq<NsptNegProtocol>,
) -> bool {
    run.result == result && run.sent == sent && (result matches Err(SessionError::PeerClosed)
        ==> run.bulk == Seq::<u8>::empty())
}

/// Whether two courses end alike.
spec fn same_end(a: ResponderRun, b: ResponderRun) -> bool {
    a.result == b.result && a.messages == b.messages && a.bulk == b.bulk
}

/// The first steps of every session that meets an initiator of its own
/// version: the hello goes out, and the hello of the initiator and its word
/// on the calibration come in.
proof fn lemma_run_greeting(
    messages: Seq<u8>,
    bulk: Seq<u8>,
    calibrated: bool,
    unit_size: usize,
    rounds: u16,
)
    requires
        crate::channel::frames(
            crate::responder::responder_receives(PROTOCOL_VER, calibrated, unit_size, rounds),
        ).is_prefix_of(messages),
    ensures
        ({
            let whole = crate::responder::responder_receives(
                PROTOCOL_VER,
                calibrated,
                unit_size,
                rounds,
            );
            let left = crate::channel::after_message(crate::channel::after_message(messages));
            let greeted = ResponderModel {
                phase: if calibrated {
                    ResponderPhase::AwaitStartSpeedNegotiation
                } else {
                    ResponderPhase::AwaitBufferSize
                },
                calibrated: false,
            };
            let run = responder_run(ResponderModel::init(), messages, bulk);
            let rest = responder_run(greeted, left, bulk);
            &&& messages == crate::channel::frames(whole.take(2)) + left
            &&& same_end(run, rest)
            &&& run.sent == seq![NsptNegProtocol::ServerHello(PROTOCOL_VER)] + rest.sent
        }),
{
    let whole = crate::responder::responder_receives(PROTOCOL_VER, calibrated, unit_size, rounds);
    let m0 = messages;
    assert(crate::channel::frames(whole.take(0)) =~= Seq::<u8>::empty());
    assert(m0 =~= crate::channel::frames(whole.take(0)) + m0);
    crate::channel::lemma_next_message_in_order(whole, 0, messages, m0);
    let m1 = crate::channel::after_message(m0);
    crate::channel::lemma_next_message_in_order(whole, 1, messages, m1);
    let s0 = ResponderModel::init();
    let s1 = s0.next(Event::Sent);
    let s2 = s1.next(Event::Received(whole[0]));
    let s3 = s2.next(Event::Received(whole[1]));
    let r0 = responder_run(s0, m0, bulk);
    let r1 = responder_run(s1, m0, bulk);
    let r2 = responder_run(s2, m1, bulk);
    assert(same_end(r0, r1) && r0.sent == seq![NsptNegProtocol::ServerHello(PROTOCOL_VER)]
        + r1.sent);
    assert(r1 == r2);
    assert(r2 == responder_run(s3, crate::channel::after_message(m1), bulk));
}

/// A session without calibration whose rounds are cut short.
proof fn lemma_closed_early_plain(messages: Seq<u8>, bulk: Seq<u8>, unit_size: usize, rounds: u16)
    requires
        holds_short_session(messages, bulk, false, unit_size, rounds),
    ensures
        ({
            let run = responder_run(ResponderModel::init(), messages, bulk);
            &&& run.result == Err::<ResponderReport, SessionError>(SessionError::PeerClosed)
            &&& run.sent == sent_before_close(false, bulk.len())
            &&& run.bulk == Seq::<u8>::empty()
            &&& !run.sent.contains(NsptNegProtocol::EndOfSpeedTest)
        }),
{
    let whole = crate::responder::responder_receives(PROTOCOL_VER, false, unit_size, rounds);
    lemma_run_greeting(messages, bulk, false, unit_size, rounds);
    let m2 = crate::channel::after_message(crate::channel::after_message(messages));
    crate::channel::lemma_next_message_in_order(whole, 2, messages, m2);
    let m3 = crate::channel::after_message(m2);
    let s3 = ResponderModel { phase: ResponderPhase::AwaitBufferSize, calibrated: false };
    let s4 = s3.next(Event::Received(whole[2]));
    let s5 = s4.next(Event::Sent);
    assert(0 * unit_size == 0);
    assert(rounds > 0);
    let r3 = responder_run(s3, m2, bulk);
    let r4 = responder_run(s4, m3, bulk);
    let r5 = responder_run(s5, m3, bulk);
    assert(r3 == r4);
    assert(same_end(r4, r5) && r4.sent == seq![NsptNegProtocol::StartSpeedTest] + r5.sent);
    lemma_run_rounds_cut_short(s5, m3, bulk);
    let run = responder_run(ResponderModel::init(), messages, bulk);
    assert(run.sent =~= seq![
        NsptNegProtocol::ServerHello(PROTOCOL_VER),
        NsptNegProtocol::StartSpeedTest,
    ]);
    assert(run.sent =~= sent_before_close(false, bulk.len()));
}

/// A session with calibration whose calibration transfer or whose rounds
/// are cut short.
proof fn lemma_closed_early_calibrated(
    messages: Seq<u8>,
    bulk: Seq<u8>,
    unit_size: usize,
    rounds: u16,
)
    requires
        holds_short_session(messages, bulk, true, unit_size, rounds),
    ensures
        ({
            let run = responder_run(ResponderModel::init(), messages, bulk);
            &&& run.result == Err::<ResponderReport, SessionError>(SessionError::PeerClosed)
            &&& run.sent == sent_before_close(true, bulk.len())
            &&& run.bulk == Seq::<u8>::empty()
            &&& !run.sent.contains(NsptNegProtocol::EndOfSpeedTest)
        }),
{
    let whole = crate::responder::responder_receives(PROTOCOL_VER, true, unit_size, rounds);
    lemma_run_greeting(messages, bulk, true, unit_size, rounds);
    let m2 = crate::channel::after_message(crate::channel::after_message(messages));
    crate::channel::lemma_next_message_in_order(whole, 2, messages, m2);
    let m3 = crate::channel::after_message(m2);
    let s3 = ResponderModel {
        phase: ResponderPhase::AwaitStartSpeedNegotiation,
        calibrated: false,
    };
    let s4 = s3.next(Event::Received(whole[2]));
    let s5 = s4.next(Event::Sent);
    let r3 = responder_run(s3, m2, bulk);
    let r4 = responder_run(s4, m3, bulk);
    let r5 = responder_run(s5, m3, bulk);
    assert(r3 == r4);
    assert(same_end(r4, r5) && r4.sent == seq![NsptNegProtocol::StartSpeedNegotiation] + r5.sent);
    let run = responder_run(ResponderModel::init(), messages, bulk);
    assert(rounds * unit_size >= 0) by (nonlinear_arith);
    if bulk.len() < TOTAL_SEND_NEG_BYTES {
        assert(run.sent =~= seq![
            NsptNegProtocol::ServerHello(PROTOCOL_VER),
            NsptNegProtocol::StartSpeedNegotiation,
        ]);
        assert(run.sent =~= sent_before_close(true, bulk.len()));
    } else {
        let b1 = bulk.skip(TOTAL_SEND_NEG_BYTES as int);
        crate::channel::lemma_next_message_in_order(whole, 3, messages, m3);
        let m4 = crate::channel::after_message(m3);
        let s6 = s5.next(Event::Transferred { elapsed_ms: 0 });
        let s7 = s6.next(Event::Received(whole[3]));
        let s8 = s7.next(Event::Sent);
        let r6 = responder_run(s6, m3, b1);
        let r7 = responder_run(s7, m4, b1);
        let r8 = responder_run(s8, m4, b1);
        assert(r5 == r6);
        assert(r6 == r7);
        assert(same_end(r7, r8) && r7.sent == seq![NsptNegProtocol::StartSpeedTest] + r8.sent);
        assert(0 * unit_size == 0);
        assert(rounds > 0);
        lemma_run_rounds_cut_short(s8, m4, b1);
        assert(run.sent =~= seq![
            NsptNegProtocol::ServerHello(PROTOCOL_VER),
            NsptNegProtocol::StartSpeedNegotiation,
            NsptNegProtocol::StartSpeedTest,
        ]);
        assert(run.sent =~= sent_before_close(true, bulk.len()));
    }
}

/// Whether the two handles of a connection hold a whole session: the
/// messages of an initiator that announces `rounds` rounds of `unit_size`
/// bytes, with a calibration transfer or without, and the bulk data to
/// them.
pub open spec fn holds_session(
    messages: Seq<u8>,
    bulk: Seq<u8>,
    calibrated: bool,
    unit_size: usize,
    rounds: u16,
) -> bool {
    &&& crate::channel::frames(
        crate::responder::responder_receives(PROTOCOL_VER, calibrated, unit_size, rounds),
    ).is_prefix_of(messages)
    &&& bulk.len() >= crate::session::bulk_volume(calibrated, unit_size, rounds)
}

/// Whether a session is on its way through the session that the handles
/// hold: it has not failed, and what it has learned of the plan of the
/// initiator is that plan.
spec fn on_course(session: ResponderModel, calibrated: bool, unit_size: usize, rounds: u16) -> bool {
    &&& !(session.phase is Failed)
    &&& session.received_count() >= 2 ==> session.calibrating() == calibrated
    &&& session.plan() matches Some(plan) ==> plan == (unit_size, rounds)
}

/// A session on its course finds the message that it waits for, and stays
/// on its course with it.
proof fn lemma_on_course_receive(
    session: ResponderModel,
    calibrated: bool,
    unit_size: usize,
    rounds: u16,
    held: Seq<u8>,
    left: Seq<u8>,
)
    requires
        session.wf(),
        session.action() == Action::Receive,
        on_course(session, calibrated, unit_size, rounds),
        crate::channel::frames(
            crate::responder::responder_receives(PROTOCOL_VER, calibrated, unit_size, rounds),
        ).is_prefix_of(held),
        held == crate::channel::frames(session.received()) + left,
    ensures
        crate::channel::next_message(left) matches Ok(message) && on_course(
            session.next(Event::Received(message)),
            calibrated,
            unit_size,
            rounds,
        ),
{
    let whole = crate::responder::responder_receives(PROTOCOL_VER, calibrated, unit_size, rounds);
    let count = session.received_count() as int;
    assert(session.received() =~= whole.take(count));
    crate::channel::lemma_next_message_owed(whole, count, held, left);
}

/// A session on its course stays on it when a send or a transfer is done,
/// and asks for no more bulk data than the session holds.
proof fn lemma_on_course_act(
    session: ResponderModel,
    event: Event,
    calibrated: bool,
    unit_size: usize,
    rounds: u16,
)
    requires
        session.wf(),
        on_course(session, calibrated, unit_size, rounds),
        crate::session::answers(session.action(), event),
        !(session.action() is Receive),
    ensures
        on_course(session.next(event), calibrated, unit_size, rounds),
        session.next(event).bulk_bytes() <= crate::session::bulk_volume(
            calibrated,
            unit_size,
            rounds,
        ),
{
    let done = session.rounds_done();
    assert((done + 1) * unit_size == done * unit_size + unit_size) by (nonlinear_arith);
    assert(done + 1 <= rounds ==> (done + 1) * unit_size <= rounds * unit_size)
        by (nonlinear_arith);
    assert(rounds * unit_size >= 0) by (nonlinear_arith);
}

/// Number of messages that a responder has sent when it waits for the
/// message number `count` of a session.
pub open spec fn sent_before(calibrated: bool, count: int) -> int {
    if count <= 2 {
        1
    } else if calibrated && count == 3 {
        2
    } else if calibrated {
        3
    } else {
        2
    }
}

/// Number of bytes of bulk data that a responder has drained when it waits
/// for the message number `count` of a session.
pub open spec fn drained_before(calibrated: bool, unit_size: usize, rounds: u16, count: int) -> nat {
    if count <= 2 {
        0
    } else if calibrated && count == 3 {
        TOTAL_SEND_NEG_BYTES as nat
    } else {
        crate::session::bulk_volume(calibrated, unit_size, rounds)
    }
}

/// Whether the handles hold a session that goes wrong at the message
/// number `count`: the messages before it are those of a session with this
/// plan, the bulk data that is due before it is there, and in its place
/// stands the message `received`, which is of another kind.
pub open spec fn holds_wrong_session(
    messages: Seq<u8>,
    bulk: Seq<u8>,
    calibrated: bool,
    unit_size: usize,
    rounds: u16,
    count: int,
    received: NsptNegProtocol,
) -> bool {
    &&& crate::channel::holds_wrong_message(
        crate::responder::responder_receives(PROTOCOL_VER, calibrated, unit_size, rounds),
        messages,
        count,
        received,
    )
    &&& bulk.len() >= drained_before(calibrated, unit_size, rounds, count)
}

/// A session on its course that receives the message that is due stays on
/// its course.
proof fn lemma_on_course_due(
    session: ResponderModel,
    calibrated: bool,
    unit_size: usize,
    rounds: u16,
)
    requires
        session.wf(),
        session.action() == Action::Receive,
        on_course(session, calibrated, unit_size, rounds),
    ensures
        ({
            let due = crate::responder::responder_receives(
                PROTOCOL_VER,
                calibrated,
                unit_size,
                rounds,
            );
            let count = session.received_count() as int;
            let next = session.next(Event::Received(due[count]));
            &&& count < due.len()
            &&& session.expected() == crate::session::kind_of(due[count])
            &&& session.received() == due.take(count)
            &&& on_course(next, calibrated, unit_size, rounds)
            &&& next.wf()
            &&& !next.finished()
            &&& next.received_count() == count + 1
            &&& next.sent() == session.sent()
            &&& next.bulk_bytes() == session.bulk_bytes()
            &&& session.sent() == crate::responder::responder_sends(calibrated).take(
                sent_before(calibrated, count),
            )
            &&& session.bulk_bytes() == drained_before(calibrated, unit_size, rounds, count)
        }),
{
    let due = crate::responder::responder_receives(PROTOCOL_VER, calibrated, unit_size, rounds);
    let count = session.received_count() as int;
    let next = session.next(Event::Received(due[count]));
    assert(session.received() =~= due.take(count));
    assert(next.sent() =~= session.sent());
    assert(session.sent() =~= crate::responder::responder_sends(calibrated).take(
        sent_before(calibrated, count),
    ));
    assert(0 * unit_size == 0);
}

/// A session that goes wrong at the message number `count` goes its course
/// up to that message and ends there with the violation: it has sent what
/// is sent before that message, and has drained what is due before it.
#[verifier::rlimit(50)]
proof fn lemma_run_to_wrong_message(
    session: ResponderModel,
    calibrated: bool,
    unit_size: usize,
    rounds: u16,
    count: int,
    received: NsptNegProtocol,
    messages: Seq<u8>,
    left: Seq<u8>,
    bulk: Seq<u8>,
    bulk_left: Seq<u8>,
)
    requires
        session.wf(),
        !session.finished(),
        on_course(session, calibrated, unit_size, rounds),
        holds_wrong_session(messages, bulk, calibrated, unit_size, rounds, count, received),
        session.received_count() <= count,
        messages == crate::channel::frames(
            crate::responder::responder_receives(
                PROTOCOL_VER,
                calibrated,
                unit_size,
                rounds,
            ).take(session.received_count() as int),
        ) + left,
        session.bulk_bytes() <= bulk.len(),
        bulk_left == bulk.skip(session.bulk_bytes() as int),
    ensures
        ({
            let due = crate::responder::responder_receives(
                PROTOCOL_VER,
                calibrated,
                unit_size,
                rounds,
            );
            let run = responder_run(session, left, bulk_left);
            &&& run.result == Err::<ResponderReport, SessionError>(
                SessionError::Fault(
                    Fault::ProtocolViolation {
                        expected: crate::session::kind_of(due[count]),
                        received,
                    },
                ),
            )
            &&& session.sent() + run.sent == crate::responder::responder_sends(calibrated).take(
                sent_before(calibrated, count),
            )
            &&& messages == crate::channel::frames(due.take(count).push(received)) + run.messages
            &&& run.bulk == bulk.skip(
                drained_before(calibrated, unit_size, rounds, count) as int,
            )
        }),
    decreases session.remaining(),
{
    let due = crate::responder::responder_receives(PROTOCOL_VER, calibrated, unit_size, rounds);
    let held = due.take(count).push(received);
    let reached = session.received_count() as int;
    let run = responder_run(session, left, bulk_left);
    match session.action() {
        Action::Send(message) => {
            let next = session.next(Event::Sent);
            lemma_on_course_act(session, Event::Sent, calibrated, unit_size, rounds);
            crate::responder::lemma_responder_next_preserves_wf(session, Event::Sent);
            crate::responder::lemma_responder_next_transcript(session, Event::Sent);
            crate::responder::lemma_responder_next_bulk(session, Event::Sent);
            assert(next.received() =~= session.received());
            assert(next.received_count() == reached);
            lemma_run_to_wrong_message(
                next,
                calibrated,
                unit_size,
                rounds,
                count,
                received,
                messages,
                left,
                bulk,
                bulk_left,
            );
            let rest = responder_run(next, left, bulk_left);
            assert(session.sent() + run.sent =~= next.sent() + rest.sent);
        },
        Action::Receive => {
            lemma_on_course_due(session, calibrated, unit_size, rounds);
            assert(held.take(reached) =~= due.take(reached));
            crate::channel::lemma_next_message_in_order(held, reached, messages, left);
            if reached == count {
                assert(held.take(count + 1) =~= held);
                lemma_responder_run_violation(session, left, bulk_left, received);
                assert(session.sent() + run.sent =~= session.sent());
            } else {
                assert(held[reached] == due[reached]);
                assert(held.take(reached + 1) =~= due.take(reached + 1));
                let next = session.next(Event::Received(due[reached]));
                lemma_run_to_wrong_message(
                    next,
                    calibrated,
                    unit_size,
                    rounds,
                    count,
                    received,
                    messages,
                    crate::channel::after_message(left),
                    bulk,
                    bulk_left,
                );
            }
        },
        Action::Transfer(bytes) => {
            let moved = Event::Transferred { elapsed_ms: 0 };
            let next = session.next(moved);
            lemma_on_course_act(session, moved, calibrated, unit_size, rounds);
            crate::responder::lemma_responder_next_preserves_wf(session, moved);
            crate::responder::lemma_responder_next_transcript(session, moved);
            crate::responder::lemma_responder_next_bulk(session, moved);
            assert(next.sent() =~= session.sent());
            assert(next.received() =~= session.received());
            assert(next.received_count() == reached);
            assert(next.bulk_bytes() <= drained_before(calibrated, unit_size, rounds, count));
            assert(bulk_left.skip(bytes as int) =~= bulk.skip(next.bulk_bytes() as int));
            lemma_run_to_wrong_message(
                next,
                calibrated,
                unit_size,
                rounds,
                count,
                received,
                messages,
                left,
                bulk,
                bulk_left.skip(bytes as int),
            );
        },
        _ => {},
    }
}

/// A message of another kind than the one due ends the session with the
/// violation that names the kind that was due and the message that came:
/// by then the session has sent what is sent before that message and has
/// drained what is due before it, and it sends and reads nothing more.
pub proof fn lemma_responder_run_wrong_message(
    messages: Seq<u8>,
    bulk: Seq<u8>,
    calibrated: bool,
    unit_size: usize,
    rounds: u16,
    count: int,
    received: NsptNegProtocol,
)
    requires
        holds_wrong_session(messages, bulk, calibrated, unit_size, rounds, count, received),
    ensures
        ({
            let due = crate::responder::responder_receives(
                PROTOCOL_VER,
                calibrated,
                unit_size,
                rounds,
            );
            let run = responder_run(ResponderModel::init(), messages, bulk);
            &&& run.result == Err::<ResponderReport, SessionError>(
                SessionError::Fault(
                    Fault::ProtocolViolation {
                        expected: crate::session::kind_of(due[count]),
                        received,
                    },
                ),
            )
            &&& run.sent == crate::responder::responder_sends(calibrated).take(
                sent_before(calibrated, count),
            )
            &&& messages == crate::channel::frames(due.take(count).push(received)) + run.messages
            &&& run.bulk == bulk.skip(
                drained_before(calibrated, unit_size, rounds, count) as int,
            )
        }),
{
    let due = crate::responder::responder_receives(PROTOCOL_VER, calibrated, unit_size, rounds);
    let start = ResponderModel::init();
    assert(crate::channel::frames(due.take(0)) =~= Seq::<u8>::empty());
    assert(messages =~= crate::channel::frames(due.take(0)) + messages);
    assert(bulk.skip(0) =~= bulk);
    assert(start.sent() =~= Seq::<NsptNegProtocol>::empty());
    lemma_run_to_wrong_message(
        start,
        calibrated,
        unit_size,
        rounds,
        count,
        received,
        messages,
        messages,
        bulk,
        bulk,
    );
    let run = responder_run(start, messages, bulk);
    assert(start.sent() + run.sent =~= run.sent);
}

/// Runs one session as the responder. Messages go over `client_stream`,
/// bulk data comes over `test_stream`.
///
/// An initiator of another version is no error: the session ends with the
/// report `VersionMismatch`. Where the data handle carries a model, the
/// contract counts the bulk data: a session that ran to its end has drained
/// the rounds in full, and the calibration volume where there was a
/// calibration, and no byte behind them; a session that was given up for
/// the version has drained nothing. Where the handle for the messages
/// carries a model, the contract names the messages that went over it:
/// those of a whole session where the session ran to its end, and the two
/// hellos where it was given up for the version. And it says when the
/// session runs to its end: whenever the handles hold a whole session,
/// unless a stream fails.
///
/// Unless a stream fails, the session goes as `responder_run` says of the
/// bytes that the two handles hold: the result, the messages sent and what
/// is left on either handle are those of that course. So an initiator of
/// another version gets the report of the mismatch, a message of another
/// kind than the one due the violation that names both, a frame that is no
/// message the failure of the codec, and bulk data that ends early
/// `PeerClosed`; and in each case nothing is sent or read after it.
#[verifier::rlimit(30)]
pub fn do_test<T: ReadWriteStream>(client_stream: &mut T, test_stream: &mut T) -> (r: Result<
    ResponderReport,
    SessionError,
>)
    ensures
        r matches Err(e) ==> match e {
            SessionError::Fault(Fault::ProtocolViolation { expected, received }) => expected
                != crate::session::kind_of(received),
            SessionError::Fault(_) => false,
            _ => true,
        },
        r matches Ok(ResponderReport::VersionMismatch { theirs }) ==> theirs != PROTOCOL_VER,
        forall|calibrated: bool, unit_size: usize, rounds: u16|
            old(client_stream).modeled() && old(test_stream).modeled() && #[trigger] holds_session(
                old(client_stream).incoming(),
                old(test_stream).incoming(),
                calibrated,
                unit_size,
                rounds,
            ) ==> match r {
                Ok(report) => report == (ResponderReport::Completed {
                    unit_size,
                    rounds,
                    calibrated,
                }),
                Err(e) => crate::session::transport_failed(e),
            },
        crate::channel::next_message(old(client_stream).incoming()) matches Ok(
            NsptNegProtocol::ClientHello(theirs),
        ) ==> (old(client_stream).modeled() && old(test_stream).modeled() && theirs
            != PROTOCOL_VER ==> crate::session::stream_failed(r) || r == Ok::<
            ResponderReport,
            SessionError,
        >(ResponderReport::VersionMismatch { theirs })),
        forall|calibrated: bool, unit_size: usize, rounds: u16|
            old(client_stream).modeled() && old(test_stream).modeled()
                && #[trigger] holds_short_session(
                old(client_stream).incoming(),
                old(test_stream).incoming(),
                calibrated,
                unit_size,
                rounds,
            ) ==> crate::session::stream_failed(r) || ({
                &&& r == Err::<ResponderReport, SessionError>(SessionError::PeerClosed)
                &&& final(client_stream).sent() == old(client_stream).sent()
                    + crate::channel::frames(
                    sent_before_close(calibrated, old(test_stream).incoming().len()),
                )
                &&& final(test_stream).incoming().len() == 0
            }),
        forall|calibrated: bool, unit_size: usize, rounds: u16, count: int, received: NsptNegProtocol|
            old(client_stream).modeled() && old(test_stream).modeled()
                && #[trigger] holds_wrong_session(
                old(client_stream).incoming(),
                old(test_stream).incoming(),
                calibrated,
                unit_size,
                rounds,
                count,
                received,
            ) ==> crate::session::stream_failed(r) || ({
                &&& r == Err::<ResponderReport, SessionError>(
                    SessionError::Fault(
                        Fault::ProtocolViolation {
                            expected: crate::session::kind_of(
                                crate::responder::responder_receives(
                                    PROTOCOL_VER,
                                    calibrated,
                                    unit_size,
                                    rounds,
                                )[count],
                            ),
                            received,
                        },
                    ),
                )
                &&& final(client_stream).sent() == old(client_stream).sent()
                    + crate::channel::frames(
                    crate::responder::responder_sends(calibrated).take(
                        sent_before(calibrated, count),
                    ),
                )
                &&& final(test_stream).incoming() == old(test_stream).incoming().skip(
                    drained_before(calibrated, unit_size, rounds, count) as int,
                )
            }),
        old(client_stream).modeled() && old(test_stream).modeled()
            && !crate::session::stream_failed(r) ==> ({
            let run = responder_run(
                ResponderModel::init(),
                old(client_stream).incoming(),
                old(test_stream).incoming(),
            );
            &&& r == run.result
            &&& final(client_stream).sent() == old(client_stream).sent() + crate::channel::frames(
                run.sent,
            )
            &&& final(client_stream).incoming() == run.messages
            &&& final(test_stream).incoming() == run.bulk
        }),
        old(test_stream).modeled() ==> {
            &&& final(test_stream).modeled()
            &&& final(test_stream).sent() == old(test_stream).sent()
            &&& match r {
                Ok(ResponderReport::Completed { unit_size, rounds, calibrated }) => {
                    &&& crate::session::bulk_volume(calibrated, unit_size, rounds) <= old(
                        test_stream,
                    ).incoming().len()
                    &&& final(test_stream).incoming() == old(test_stream).incoming().skip(
                        crate::session::bulk_volume(calibrated, unit_size, rounds) as int,
                    )
                },
                Ok(ResponderReport::VersionMismatch { theirs }) => {
                    final(test_stream).incoming() == old(test_stream).incoming()
                },
                Err(_) => true,
            }
        },
        old(client_stream).modeled() ==> {
            &&& final(client_stream).modeled()
            &&& match r {
                Ok(ResponderReport::Completed { unit_size, rounds, calibrated }) => {
                    &&& final(client_stream).sent() == old(client_stream).sent()
                        + crate::channel::frames(crate::responder::responder_sends(calibrated))
                    &&& old(client_stream).incoming() == crate::channel::frames(
                        crate::responder::responder_receives(
                            PROTOCOL_VER,
                            calibrated,
                            unit_size,
                            rounds,
                        ),
                    ) + final(client_stream).incoming()
                },
                Ok(ResponderReport::VersionMismatch { theirs }) => {
                    &&& theirs != PROTOCOL_VER
                    &&& final(client_stream).sent() == old(client_stream).sent()
                        + crate::channel::frames(seq![NsptNegProtocol::ServerHello(PROTOCOL_VER)])
                    &&& old(client_stream).incoming() == crate::channel::frames(
                        seq![NsptNegProtocol::ClientHello(theirs)],
                    ) + final(client_stream).incoming()
                },
                Err(_) => true,
            }
        },
{
    let mut session: Responder = Responder::new();
    let mut action: Action = session.action();
    let ghost mut sent_log: Seq<NsptNegProtocol> = Seq::empty();
    proof {
        let messages = client_stream.incoming();
        let bulk = test_stream.incoming();
        if let Ok(NsptNegProtocol::ClientHello(theirs)) = crate::channel::next_message(messages) {
            if theirs != PROTOCOL_VER {
                lemma_responder_run_version_mismatch(messages, bulk, theirs);
            }
        }
        assert forall|
            calibrated: bool,
            unit_size: usize,
            rounds: u16,
            count: int,
            received: NsptNegProtocol,
        | #[trigger]
            holds_wrong_session(
                messages,
                bulk,
                calibrated,
                unit_size,
                rounds,
                count,
                received,
            ) implies went_wrong(
            responder_run(ResponderModel::init(), messages, bulk),
            bulk,
            calibrated,
            unit_size,
            rounds,
            count,
            received,
        ) by {
            lemma_responder_run_wrong_message(
                messages,
                bulk,
                calibrated,
                unit_size,
                rounds,
                count,
                received,
            );
        }
        assert forall|calibrated: bool, unit_size: usize, rounds: u16| #[trigger]
            holds_short_session(messages, bulk, calibrated, unit_size, rounds) implies foreseen(
            responder_run(ResponderModel::init(), messages, bulk),
            Err(SessionError::PeerClosed),
            sent_before_close(calibrated, bulk.len()),
        ) by {
            lemma_responder_run_closed_early(messages, bulk, calibrated, unit_size, rounds);
        }
    }
    loop
        invariant
            session@.wf(),
            action == session@.action(),
            session@.phase != ResponderPhase::Failed(Fault::OutOfTurn),
            crate::channel::next_message(old(client_stream).incoming()) matches Ok(
                NsptNegProtocol::ClientHello(theirs),
            ) ==> (theirs != PROTOCOL_VER ==> responder_run(
                ResponderModel::init(),
                old(client_stream).incoming(),
                old(test_stream).incoming(),
            ).result == Ok::<ResponderReport, SessionError>(
                ResponderReport::VersionMismatch { theirs },
            )),
            forall|
                calibrated: bool,
                unit_size: usize,
                rounds: u16,
                count: int,
                received: NsptNegProtocol,
            | #[trigger]
                holds_wrong_session(
                    old(client_stream).incoming(),
                    old(test_stream).incoming(),
                    calibrated,
                    unit_size,
                    rounds,
                    count,
                    received,
                ) ==> went_wrong(
                    responder_run(
                        ResponderModel::init(),
                        old(client_stream).incoming(),
                        old(test_stream).incoming(),
                    ),
                    old(test_stream).incoming(),
                    calibrated,
                    unit_size,
                    rounds,
                    count,
                    received,
                ),
            forall|calibrated: bool, unit_size: usize, rounds: u16| #[trigger]
                holds_short_session(
                    old(client_stream).incoming(),
                    old(test_stream).incoming(),
                    calibrated,
                    unit_size,
                    rounds,
                ) ==> foreseen(
                    responder_run(
                        ResponderModel::init(),
                        old(client_stream).incoming(),
                        old(test_stream).incoming(),
                    ),
                    Err(SessionError::PeerClosed),
                    sent_before_close(calibrated, old(test_stream).incoming().len()),
                ),
            old(client_stream).modeled() && old(test_stream).modeled() ==> ({
                let whole = responder_run(
                    ResponderModel::init(),
                    old(client_stream).incoming(),
                    old(test_stream).incoming(),
                );
                let rest = responder_run(
                    session@,
                    client_stream.incoming(),
                    test_stream.incoming(),
                );
                &&& client_stream.modeled()
                &&& test_stream.modeled()
                &&& client_stream.sent() == old(client_stream).sent() + crate::channel::frames(
                    sent_log,
                )
                &&& whole.result == rest.result
                &&& whole.sent == sent_log + rest.sent
                &&& whole.messages == rest.messages
                &&& whole.bulk == rest.bulk
            }),
            forall|calibrated: bool, unit_size: usize, rounds: u16|
                old(client_stream).modeled() && old(test_stream).modeled()
                    && #[trigger] holds_session(
                    old(client_stream).incoming(),
                    old(test_stream).incoming(),
                    calibrated,
                    unit_size,
                    rounds,
                ) ==> on_course(session@, calibrated, unit_size, rounds) && session@.bulk_bytes()
                    <= crate::session::bulk_volume(calibrated, unit_size, rounds),
            old(test_stream).modeled() ==> {
                &&& test_stream.modeled()
                &&& test_stream.sent() == old(test_stream).sent()
                &&& !(session@.phase is Failed) ==> test_stream.incoming() == old(
                    test_stream,
                ).incoming().skip(session@.bulk_bytes() as int)
                &&& !(session@.phase is Failed) ==> session@.bulk_bytes() <= old(
                    test_stream,
                ).incoming().len()
                &&& session@.phase matches ResponderPhase::Failed(
                    Fault::VersionMismatch { ours, theirs },
                ) ==> test_stream.incoming() == old(test_stream).incoming()
            },
            old(client_stream).modeled() ==> {
                &&& client_stream.modeled()
                &&& (session@.phase matches ResponderPhase::Failed(fault) ==> fault
                    is VersionMismatch) ==> {
                    &&& client_stream.sent() == old(client_stream).sent() + crate::channel::frames(
                        session@.sent(),
                    )
                    &&& old(client_stream).incoming() == crate::channel::frames(
                        session@.received(),
                    ) + client_stream.incoming()
                }
            },
        decreases session@.remaining(),
    {
        let ghost held = client_stream.incoming();
        let ghost bulk_left = test_stream.incoming();
        proof {
            assert forall|calibrated: bool, unit_size: usize, rounds: u16|
                old(client_stream).modeled() && old(test_stream).modeled()
                    && #[trigger] holds_session(
                    old(client_stream).incoming(),
                    old(test_stream).incoming(),
                    calibrated,
                    unit_size,
                    rounds,
                ) implies match action {
                Action::Receive => crate::channel::next_message(held) matches Ok(message)
                    && on_course(
                    session@.next(Event::Received(message)),
                    calibrated,
                    unit_size,
                    rounds,
                ),
                Action::Send(message) => on_course(
                    session@.next(Event::Sent),
                    calibrated,
                    unit_size,
                    rounds,
                ),
                Action::Transfer(bytes) => {
                    &&& on_course(
                        session@.next(Event::Transferred { elapsed_ms: 0 }),
                        calibrated,
                        unit_size,
                        rounds,
                    )
                    &&& session@.next(Event::Transferred { elapsed_ms: 0 }).bulk_bytes()
                        <= crate::session::bulk_volume(calibrated, unit_size, rounds)
                    &&& bytes <= bulk_left.len()
                },
                Action::Finish => ResponderReport::Completed {
                    unit_size: session@.plan()->Some_0.0,
                    rounds: session@.plan()->Some_0.1,
                    calibrated: session@.calibrated,
                } == (ResponderReport::Completed { unit_size, rounds, calibrated }),
                Action::Abort(fault) => false,
            } by {
                match action {
                    Action::Receive => {
                        lemma_on_course_receive(
                            session@,
                            calibrated,
                            unit_size,
                            rounds,
                            old(client_stream).incoming(),
                            held,
                        );
                    },
                    Action::Transfer(bytes) => {
                        let moved = Event::Transferred { elapsed_ms: 0 };
                        lemma_on_course_act(session@, moved, calibrated, unit_size, rounds);
                        crate::responder::lemma_responder_next_bulk(session@, moved);
                    },
                    _ => {},
                }
            }
        }
        let event: Event = match action {
            Action::Finish => {
                proof {
                    crate::responder::lemma_responder_completed_transcript(session@);
                }
                return Ok(
                    match session.phase() {
                        ResponderPhase::Completed { unit_size, rounds } => {
                            ResponderReport::Completed {
                                unit_size,
                                rounds,
                                calibrated: session.calibrated(),
                            }
                        },
                        _ => ResponderReport::Completed {
                            unit_size: 0,
                            rounds: 0,
                            calibrated: false,
                        },
                    },
                );
            },
            Action::Abort(fault) => {
                proof {
                    if fault is VersionMismatch {
                        assert(session@.sent() =~= seq![NsptNegProtocol::ServerHello(PROTOCOL_VER)]);
                        assert(session@.received() =~= seq![
                            NsptNegProtocol::ClientHello(session@.hello_version()),
                        ]);
                    }
                }
                return match fault {
                    Fault::VersionMismatch { ours: _, theirs } => Ok(
                        ResponderReport::VersionMismatch { theirs },
                    ),
                    _ => Err(SessionError::Fault(fault)),
                };
            },
            Action::Receive => match receive_message(client_stream) {
                Ok(message) => Event::Received(message),
                Err(e) => {
                    return Err(e);
                },
            },
            Action::Send(message) => match send_message(client_stream, &message) {
                Ok(()) => Event::Sent,
                Err(e) => {
                    return Err(e);
                },
            },
            Action::Transfer(bytes) => match drain(test_stream, bytes) {
                Ok(()) => Event::Transferred { elapsed_ms: 0 },
                Err(e) => {
                    return Err(e);
                },
            },
        };
        proof {
            let after = session@.next(event);
            if let Action::Send(message) = action {
                crate::channel::lemma_frames_push(sent_log, message);
                sent_log = sent_log.push(message);
            }
            if !(after.phase is Failed) {
                crate::responder::lemma_responder_next_bulk(session@, event);
            }
            if after.phase matches ResponderPhase::Failed(fault) ==> fault is VersionMismatch {
                crate::responder::lemma_responder_next_transcript(session@, event);
                if old(client_stream).modeled() {
                    match (action, event) {
                        (Action::Send(message), Event::Sent) => {
                            crate::channel::lemma_frames_push(session@.sent(), message);
                            assert(session@.sent() + seq![message] =~= session@.sent().push(
                                message,
                            ));
                        },
                        (Action::Receive, Event::Received(message)) => {
                            crate::channel::lemma_frames_push(session@.received(), message);
                            assert(session@.received() + seq![message]
                                =~= session@.received().push(message));
                        },
                        _ => {},
                    }
                }
            }
        }
        action = session.step(event);
    }
}

/// Waits for the next peer of `listener` and runs one session with it as
/// the responder. Returns the name of the peer and how the session ended.
pub fn serve_one<L: Listener>(listener: &L) -> (r: Result<
    (String, Result<ResponderReport, SessionError>),
    SessionError,
>)
    ensures
        r matches Err(e) ==> e is Transport,
        r matches Ok((peer, Err(e))) ==> match e {
            SessionError::Fault(Fault::ProtocolViolation { expected, received }) => expected
                != crate::session::kind_of(received),
            SessionError::Fault(_) => false,
            _ => true,
        },
        r matches Ok((peer, Ok(ResponderReport::VersionMismatch { theirs }))) ==> theirs
            != PROTOCOL_VER,
{
    let (mut client_stream, client_addr) = match listener.accept() {
        Ok(accepted) => accepted,
        Err(e) => {
            return Err(SessionError::Transport(e));
        },
    };
    let mut test_stream = match client_stream.try_clone() {
        Ok(test_stream) => test_stream,
        Err(e) => {
            return Err(SessionError::Transport(e));
        },
    };
    Ok((client_addr, do_test(&mut client_stream, &mut test_stream)))
}

} // verus!
