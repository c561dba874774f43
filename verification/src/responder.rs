//! The session of the responder: the role that accepts the connection and
//! drains the bulk data.
//!
//! The session sends its hello first and checks the answer, learns whether
//! a calibration transfer follows and drains it if so, takes unit size and
//! number of rounds from the initiator, drains the rounds, and acknowledges
//! the end of the transfer.

use crate::message::NsptNegProtocol;
use crate::message::ProtocolVer;
use crate::message::PROTOCOL_VER;
use crate::session::Action;
use crate::session::Event;
use crate::session::Fault;
use crate::session::MessageKind;
use crate::session::TOTAL_SEND_NEG_BYTES;
use vstd::prelude::*;

verus! {

/// Where the session of a responder stands. Every phase but the last two
/// has one action pending.
#[derive(Debug, Clone, Copy, PartialEq, Eq, Structural)]
pub enum ResponderPhase {
    /// Announcing the own protocol version.
    SendServerHello,
    /// Waiting for the hello of the initiator.
    AwaitClientHello,
    /// Waiting to learn whether a calibration transfer follows.
    AwaitSpeedNegotiation,
    /// Waiting for the announcement of the calibration transfer.
    AwaitStartSpeedNegotiation,
    /// Echoing the announcement.
    SendStartSpeedNegotiation,
    /// Draining the calibration transfer.
    Calibrate,
    /// Waiting for unit size and number of rounds.
    AwaitBufferSize,
    /// Telling the initiator to start the rounds.
    SendStartSpeedTest { unit_size: usize, rounds: u16 },
    /// Draining a round; `done` rounds are drained already.
    Drain { unit_size: usize, rounds: u16, done: u16 },
    /// Waiting for the initiator to end the transfer.
    AwaitEndOfTransfer { unit_size: usize, rounds: u16 },
    /// Acknowledging the end of the transfer.
    SendEndOfSpeedTest { unit_size: usize, rounds: u16 },
    /// The session ran to its end.
    Completed { unit_size: usize, rounds: u16 },
    /// The session failed.
    Failed(Fault),
}

/// The session of a responder as a value.
pub struct ResponderModel {
    pub phase: ResponderPhase,
    /// Whether a calibration transfer was drained.
    pub calibrated: bool,
}

impl ResponderModel {
    /// The session before anything has happened.
    pub open spec fn init() -> Self {
        ResponderModel { phase: ResponderPhase::SendServerHello, calibrated: false }
    }

    /// Whether the session is over.
    pub open spec fn finished(self) -> bool {
        self.phase is Completed || self.phase is Failed
    }

    /// Unit size and number of rounds, once the initiator has announced
    /// them.
    pub open spec fn plan(self) -> Option<(usize, u16)> {
        match self.phase {
            ResponderPhase::SendStartSpeedTest { unit_size, rounds } => Some((unit_size, rounds)),
            ResponderPhase::Drain { unit_size, rounds, done } => Some((unit_size, rounds)),
            ResponderPhase::AwaitEndOfTransfer { unit_size, rounds } => Some((unit_size, rounds)),
            ResponderPhase::SendEndOfSpeedTest { unit_size, rounds } => Some((unit_size, rounds)),
            ResponderPhase::Completed { unit_size, rounds } => Some((unit_size, rounds)),
            _ => None,
        }
    }

    /// Number of rounds that are drained.
    pub open spec fn rounds_done(self) -> nat {
        match self.phase {
            ResponderPhase::Drain { unit_size, rounds, done } => done as nat,
            ResponderPhase::AwaitEndOfTransfer { unit_size, rounds } => rounds as nat,
            ResponderPhase::SendEndOfSpeedTest { unit_size, rounds } => rounds as nat,
            ResponderPhase::Completed { unit_size, rounds } => rounds as nat,
            _ => 0,
        }
    }

    /// The action that is pending.
    pub open spec fn action(self) -> Action {
        match self.phase {
            ResponderPhase::SendServerHello => Action::Send(
                NsptNegProtocol::ServerHello(PROTOCOL_VER),
            ),
            ResponderPhase::AwaitClientHello => Action::Receive,
            ResponderPhase::AwaitSpeedNegotiation => Action::Receive,
            ResponderPhase::AwaitStartSpeedNegotiation => Action::Receive,
            ResponderPhase::SendStartSpeedNegotiation => Action::Send(
                NsptNegProtocol::StartSpeedNegotiation,
            ),
            ResponderPhase::Calibrate => Action::Transfer(TOTAL_SEND_NEG_BYTES),
            ResponderPhase::AwaitBufferSize => Action::Receive,
            ResponderPhase::SendStartSpeedTest { unit_size, rounds } => Action::Send(
                NsptNegProtocol::StartSpeedTest,
            ),
            ResponderPhase::Drain { unit_size, rounds, done } => Action::Transfer(unit_size),
            ResponderPhase::AwaitEndOfTransfer { unit_size, rounds } => Action::Receive,
            ResponderPhase::SendEndOfSpeedTest { unit_size, rounds } => Action::Send(
                NsptNegProtocol::EndOfSpeedTest,
            ),
            ResponderPhase::Completed { unit_size, rounds } => Action::Finish,
            ResponderPhase::Failed(fault) => Action::Abort(fault),
        }
    }

    /// The message that the pending `Receive` has to yield.
    pub open spec fn expected(self) -> MessageKind {
        match self.phase {
            ResponderPhase::AwaitSpeedNegotiation => MessageKind::SpeedNegotiation,
            ResponderPhase::AwaitStartSpeedNegotiation => MessageKind::StartSpeedNegotiation,
            ResponderPhase::AwaitBufferSize => MessageKind::NotifyBufferSize,
            ResponderPhase::AwaitEndOfTransfer { unit_size, rounds } => MessageKind::EndOfTransfer,
            _ => MessageKind::ClientHello,
        }
    }

    /// The session with another phase.
    pub open spec fn at(self, phase: ResponderPhase) -> Self {
        ResponderModel { phase, ..self }
    }

    /// The session after a message arrived that the protocol does not have
    /// at this point.
    pub open spec fn violated(self, received: NsptNegProtocol) -> Self {
        self.at(
            ResponderPhase::Failed(
                Fault::ProtocolViolation { expected: self.expected(), received },
            ),
        )
    }

    /// The session after the driver reported `event`.
    pub open spec fn next(self, event: Event) -> Self {
        match (self.phase, event) {
            (ResponderPhase::Completed { unit_size, rounds }, _) => self,
            (ResponderPhase::Failed(fault), _) => self,
            (ResponderPhase::SendServerHello, Event::Sent) => self.at(
                ResponderPhase::AwaitClientHello,
            ),
            (ResponderPhase::AwaitClientHello, Event::Received(message)) => match message {
                NsptNegProtocol::ClientHello(theirs) => if theirs == PROTOCOL_VER {
                    self.at(ResponderPhase::AwaitSpeedNegotiation)
                } else {
                    self.at(
                        ResponderPhase::Failed(
                            Fault::VersionMismatch { ours: PROTOCOL_VER, theirs },
                        ),
                    )
                },
                _ => self.violated(message),
            },
            (ResponderPhase::AwaitSpeedNegotiation, Event::Received(message)) => match message {
                NsptNegProtocol::SpeedNegotiation(required) => if required {
                    self.at(ResponderPhase::AwaitStartSpeedNegotiation)
                } else {
                    self.at(ResponderPhase::AwaitBufferSize)
                },
                _ => self.violated(message),
            },
            (ResponderPhase::AwaitStartSpeedNegotiation, Event::Received(message)) => match message {
                NsptNegProtocol::StartSpeedNegotiation => self.at(
                    ResponderPhase::SendStartSpeedNegotiation,
                ),
                _ => self.violated(message),
            },
            (ResponderPhase::SendStartSpeedNegotiation, Event::Sent) => self.at(
                ResponderPhase::Calibrate,
            ),
            (ResponderPhase::Calibrate, Event::Transferred { elapsed_ms }) => ResponderModel {
                phase: ResponderPhase::AwaitBufferSize,
                calibrated: true,
            },
            (ResponderPhase::AwaitBufferSize, Event::Received(message)) => match message {
                NsptNegProtocol::NotifyBufferSize(unit_size, rounds) => self.at(
                    ResponderPhase::SendStartSpeedTest { unit_size, rounds },
                ),
                _ => self.violated(message),
            },
            (ResponderPhase::SendStartSpeedTest { unit_size, rounds }, Event::Sent) => if rounds
                == 0 {
                self.at(ResponderPhase::AwaitEndOfTransfer { unit_size, rounds })
            } else {
                self.at(ResponderPhase::Drain { unit_size, rounds, done: 0 })
            },
            (
                ResponderPhase::Drain { unit_size, rounds, done },
                Event::Transferred { elapsed_ms },
            ) => if done + 1 < rounds {
                self.at(ResponderPhase::Drain { unit_size, rounds, done: (done + 1) as u16 })
            } else {
                self.at(ResponderPhase::AwaitEndOfTransfer { unit_size, rounds })
            },
            (ResponderPhase::AwaitEndOfTransfer { unit_size, rounds }, Event::Received(message)) => match message {
                NsptNegProtocol::EndOfTransfer => self.at(
                    ResponderPhase::SendEndOfSpeedTest { unit_size, rounds },
                ),
                _ => self.violated(message),
            },
            (ResponderPhase::SendEndOfSpeedTest { unit_size, rounds }, Event::Sent) => self.at(
                ResponderPhase::Completed { unit_size, rounds },
            ),
            _ => self.at(ResponderPhase::Failed(Fault::OutOfTurn)),
        }
    }

    /// What holds of every session that started with `init` and moved by
    /// `next`. A fault is a fault: the version of a mismatch is not ours,
    /// and the message of a violation is not the one that was due. A round
    /// that is being drained is one of the rounds announced, and no
    /// calibration is done before its transfer was drained.
    pub open spec fn wf(self) -> bool {
        match self.phase {
            ResponderPhase::SendServerHello => !self.calibrated,
            ResponderPhase::AwaitClientHello => !self.calibrated,
            ResponderPhase::AwaitSpeedNegotiation => !self.calibrated,
            ResponderPhase::AwaitStartSpeedNegotiation => !self.calibrated,
            ResponderPhase::SendStartSpeedNegotiation => !self.calibrated,
            ResponderPhase::Calibrate => !self.calibrated,
            ResponderPhase::Drain { unit_size, rounds, done } => done < rounds,
            ResponderPhase::Failed(Fault::VersionMismatch { ours, theirs }) => ours == PROTOCOL_VER
                && theirs != PROTOCOL_VER,
            ResponderPhase::Failed(Fault::ProtocolViolation { expected, received }) => expected
                != crate::session::kind_of(received),
            _ => true,
        }
    }

    /// An upper bound of the number of events that the session still
    /// takes: zero exactly when it is over.
    pub open spec fn remaining(self) -> nat {
        match self.phase {
            ResponderPhase::SendServerHello => (u16::MAX + 11) as nat,
            ResponderPhase::AwaitClientHello => (u16::MAX + 10) as nat,
            ResponderPhase::AwaitSpeedNegotiation => (u16::MAX + 9) as nat,
            ResponderPhase::AwaitStartSpeedNegotiation => (u16::MAX + 8) as nat,
            ResponderPhase::SendStartSpeedNegotiation => (u16::MAX + 7) as nat,
            ResponderPhase::Calibrate => (u16::MAX + 6) as nat,
            ResponderPhase::AwaitBufferSize => (u16::MAX + 5) as nat,
            ResponderPhase::SendStartSpeedTest { unit_size, rounds } => (rounds + 3) as nat,
            ResponderPhase::Drain { unit_size, rounds, done } => if done < rounds {
                (rounds - done + 2) as nat
            } else {
                3
            },
            ResponderPhase::AwaitEndOfTransfer { unit_size, rounds } => 2,
            ResponderPhase::SendEndOfSpeedTest { unit_size, rounds } => 1,
            ResponderPhase::Completed { unit_size, rounds } => 0,
            ResponderPhase::Failed(fault) => 0,
        }
    }

    /// The version that the initiator announced, as far as it is known.
    pub open spec fn hello_version(self) -> ProtocolVer {
        match self.phase {
            ResponderPhase::Failed(Fault::VersionMismatch { ours, theirs }) => theirs,
            _ => PROTOCOL_VER,
        }
    }

    /// Whether the session has a calibration transfer: one that is done, or
    /// one that is under way.
    pub open spec fn calibrating(self) -> bool {
        ||| self.calibrated
        ||| self.phase is AwaitStartSpeedNegotiation
        ||| self.phase is SendStartSpeedNegotiation
        ||| self.phase is Calibrate
    }

    /// Number of messages that the session has sent. (Of a session that
    /// failed for another reason than the version, nothing is recorded.)
    pub open spec fn sent_count(self) -> nat {
        let calibration: nat = if self.calibrating() {
            1
        } else {
            0
        };
        match self.phase {
            ResponderPhase::SendServerHello => 0,
            ResponderPhase::AwaitClientHello => 1,
            ResponderPhase::AwaitSpeedNegotiation => 1,
            ResponderPhase::AwaitStartSpeedNegotiation => 1,
            ResponderPhase::SendStartSpeedNegotiation => 1,
            ResponderPhase::Calibrate => 2,
            ResponderPhase::AwaitBufferSize => 1 + calibration,
            ResponderPhase::SendStartSpeedTest { unit_size, rounds } => 1 + calibration,
            ResponderPhase::Drain { unit_size, rounds, done } => 2 + calibration,
            ResponderPhase::AwaitEndOfTransfer { unit_size, rounds } => 2 + calibration,
            ResponderPhase::SendEndOfSpeedTest { unit_size, rounds } => 2 + calibration,
            ResponderPhase::Completed { unit_size, rounds } => 3 + calibration,
            ResponderPhase::Failed(Fault::VersionMismatch { ours, theirs }) => 1,
            ResponderPhase::Failed(fault) => 0,
        }
    }

    /// Number of messages that the session has received. (Of a session that
    /// failed for another reason than the version, nothing is recorded.)
    pub open spec fn received_count(self) -> nat {
        let calibration: nat = if self.calibrating() {
            1
        } else {
            0
        };
        match self.phase {
            ResponderPhase::SendServerHello => 0,
            ResponderPhase::AwaitClientHello => 0,
            ResponderPhase::AwaitSpeedNegotiation => 1,
            ResponderPhase::AwaitStartSpeedNegotiation => 2,
            ResponderPhase::SendStartSpeedNegotiation => 3,
            ResponderPhase::Calibrate => 3,
            ResponderPhase::AwaitBufferSize => 2 + calibration,
            ResponderPhase::SendStartSpeedTest { unit_size, rounds } => 3 + calibration,
            ResponderPhase::Drain { unit_size, rounds, done } => 3 + calibration,
            ResponderPhase::AwaitEndOfTransfer { unit_size, rounds } => 3 + calibration,
            ResponderPhase::SendEndOfSpeedTest { unit_size, rounds } => 4 + calibration,
            ResponderPhase::Completed { unit_size, rounds } => 4 + calibration,
            ResponderPhase::Failed(Fault::VersionMismatch { ours, theirs }) => 1,
            ResponderPhase::Failed(fault) => 0,
        }
    }

    /// The messages that the session has sent, in order: the first
    /// `sent_count` messages of a whole session.
    pub open spec fn sent(self) -> Seq<NsptNegProtocol> {
        responder_sends(self.calibrating()).take(self.sent_count() as int)
    }

    /// The messages that the session has received, in order: the first
    /// `received_count` messages of a whole session.
    pub open spec fn received(self) -> Seq<NsptNegProtocol> {
        let plan = match self.plan() {
            Some(plan) => plan,
            None => (0usize, 0u16),
        };
        responder_receives(self.hello_version(), self.calibrating(), plan.0, plan.1).take(
            self.received_count() as int,
        )
    }

    /// Number of bytes of bulk data that the session has drained; for a
    /// failed session, zero.
    pub open spec fn bulk_bytes(self) -> nat {
        let calibration = if self.calibrated {
            TOTAL_SEND_NEG_BYTES as nat
        } else {
            0
        };
        match self.phase {
            ResponderPhase::Failed(fault) => 0,
            _ => match self.plan() {
                Some((unit_size, rounds)) => (self.rounds_done() * unit_size + calibration) as nat,
                None => calibration,
            },
        }
    }
}

/// The messages that a responder sends in a whole session, in order.
pub open spec fn responder_sends(calibrated: bool) -> Seq<NsptNegProtocol> {
    if calibrated {
        seq![
            NsptNegProtocol::ServerHello(PROTOCOL_VER),
            NsptNegProtocol::StartSpeedNegotiation,
            NsptNegProtocol::StartSpeedTest,
            NsptNegProtocol::EndOfSpeedTest,
        ]
    } else {
        seq![
            NsptNegProtocol::ServerHello(PROTOCOL_VER),
            NsptNegProtocol::StartSpeedTest,
            NsptNegProtocol::EndOfSpeedTest,
        ]
    }
}

/// The messages that a responder receives in a whole session, in order,
/// from an initiator that announces the version `theirs`.
pub open spec fn responder_receives(
    theirs: ProtocolVer,
    calibrated: bool,
    unit_size: usize,
    rounds: u16,
) -> Seq<NsptNegProtocol> {
    if calibrated {
        seq![
            NsptNegProtocol::ClientHello(theirs),
            NsptNegProtocol::SpeedNegotiation(true),
            NsptNegProtocol::StartSpeedNegotiation,
            NsptNegProtocol::NotifyBufferSize(unit_size, rounds),
            NsptNegProtocol::EndOfTransfer,
        ]
    } else {
        seq![
            NsptNegProtocol::ClientHello(theirs),
            NsptNegProtocol::SpeedNegotiation(false),
            NsptNegProtocol::NotifyBufferSize(unit_size, rounds),
            NsptNegProtocol::EndOfTransfer,
        ]
    }
}

/// Every event keeps a session well formed.
pub proof fn lemma_responder_next_preserves_wf(session: ResponderModel, event: Event)
    requires
        session.wf(),
    ensures
        session.next(event).wf(),
{
}

/// A session always comes to an end: every event brings a session that is
/// not over closer to its end, by the measure `remaining`. A session that
/// is over stays as it is.
pub proof fn lemma_responder_next_makes_progress(session: ResponderModel, event: Event)
    requires
        session.wf(),
    ensures
        session.finished() <==> session.remaining() == 0,
        session.finished() ==> session.next(event) == session,
        !session.finished() ==> session.next(event).remaining() < session.remaining(),
{
}

/// A driver that answers every action with its outcome is never out of
/// turn: the session goes on, comes to its end, or fails for what the peer
/// sent.
pub proof fn lemma_responder_in_turn(session: ResponderModel, event: Event)
    requires
        crate::session::answers(session.action(), event),
    ensures
        session.next(event).phase != ResponderPhase::Failed(Fault::OutOfTurn),
{
}

/// Bulk data is drained by transfers only: an event adds to the bytes
/// drained exactly the bytes of the transfer that it completes, and nothing
/// where it completes none. (Of a session that fails nothing is claimed.)
pub proof fn lemma_responder_next_bulk(session: ResponderModel, event: Event)
    requires
        session.wf(),
        !(session.next(event).phase is Failed),
    ensures
        session.next(event).bulk_bytes() == session.bulk_bytes() + match (
            session.action(),
            event,
        ) {
            (Action::Transfer(bytes), Event::Transferred { elapsed_ms }) => bytes as nat,
            _ => 0,
        },
{
    let after = session.next(event);
    if after.plan() is Some {
        let unit_size = after.plan()->Some_0.0;
        let done = session.rounds_done();
        assert((done + 1) * unit_size == done * unit_size + unit_size) by (nonlinear_arith);
    }
}

/// A session that ran to its end has drained every round that the
/// initiator announced, in full, and the calibration transfer where one was
/// asked for.
pub proof fn lemma_responder_completed_bulk(session: ResponderModel)
    requires
        session.wf(),
        session.phase is Completed,
    ensures
        session.plan() matches Some((unit_size, rounds)) && session.bulk_bytes()
            == crate::session::bulk_volume(session.calibrated, unit_size, rounds),
{
}

/// An initiator of another version is turned away: the session of the
/// responder fails with `VersionMismatch` as soon as the hello arrives, and
/// has not asked for a single byte of bulk data.
pub proof fn lemma_responder_version_mismatch(theirs: ProtocolVer)
    requires
        theirs != PROTOCOL_VER,
    ensures
        ({
            let start = ResponderModel::init();
            let greeted = start.next(Event::Sent);
            let answered = greeted.next(Event::Received(NsptNegProtocol::ClientHello(theirs)));
            &&& start.action() == Action::Send(NsptNegProtocol::ServerHello(PROTOCOL_VER))
            &&& greeted.action() == Action::Receive
            &&& answered.action() == Action::Abort(
                Fault::VersionMismatch { ours: PROTOCOL_VER, theirs },
            )
            &&& answered.finished()
            &&& answered.bulk_bytes() == 0
        }),
{
}

/// A message that the protocol does not have at this point ends the
/// session at once, with a fault that names the message that was due and
/// the one that came.
pub proof fn lemma_responder_protocol_violation(session: ResponderModel, received: NsptNegProtocol)
    requires
        session.action() == Action::Receive,
        crate::session::kind_of(received) != session.expected(),
    ensures
        session.next(Event::Received(received)).phase == ResponderPhase::Failed(
            Fault::ProtocolViolation { expected: session.expected(), received },
        ),
{
}

/// The messages of a session are those of the protocol, in its order: a
/// send that is done adds its message to the messages sent, a receive that
/// is done adds its message to the messages received, and no other event
/// changes either. (Of a session that fails for another reason than the
/// version nothing is claimed.)
pub proof fn lemma_responder_next_transcript(session: ResponderModel, event: Event)
    requires
        session.wf(),
        session.next(event).phase matches ResponderPhase::Failed(fault) ==> fault
            is VersionMismatch,
    ensures
        session.next(event).sent() == session.sent() + match (session.action(), event) {
            (Action::Send(message), Event::Sent) => seq![message],
            _ => Seq::empty(),
        },
        session.next(event).received() == session.received() + match (session.action(), event) {
            (Action::Receive, Event::Received(message)) => seq![message],
            _ => Seq::empty(),
        },
{
}

/// A session that ran to its end has sent and received the messages of a
/// whole session, all of them and in order.
pub proof fn lemma_responder_completed_transcript(session: ResponderModel)
    requires
        session.wf(),
        session.phase is Completed,
    ensures
        session.sent() == responder_sends(session.calibrated),
        session.received() == responder_receives(
            PROTOCOL_VER,
            session.calibrated,
            session.plan()->Some_0.0,
            session.plan()->Some_0.1,
        ),
{
}

/// The session of a responder.
#[derive(Debug)]
pub struct Responder {
    phase: ResponderPhase,
    calibrated: bool,
}

impl View for Responder {
    type V = ResponderModel;

    closed spec fn view(&self) -> ResponderModel {
        ResponderModel { phase: self.phase, calibrated: self.calibrated }
    }
}

impl Responder {
    /// A session that has not begun.
    pub fn new() -> (session: Self)
        ensures
            session@ == ResponderModel::init(),
            session@.wf(),
    {
        Responder { phase: ResponderPhase::SendServerHello, calibrated: false }
    }

    /// Where the session stands.
    pub fn phase(&self) -> (phase: ResponderPhase)
        ensures
            phase == self@.phase,
    {
        self.phase
    }

    /// Whether a calibration transfer was drained.
    pub fn calibrated(&self) -> (calibrated: bool)
        ensures
            calibrated == self@.calibrated,
    {
        self.calibrated
    }

    /// The action that the driver has to perform now.
    pub fn action(&self) -> (action: Action)
        ensures
            action == self@.action(),
    {
        match self.phase {
            ResponderPhase::SendServerHello => Action::Send(
                NsptNegProtocol::ServerHello(PROTOCOL_VER),
            ),
            ResponderPhase::AwaitClientHello => Action::Receive,
            ResponderPhase::AwaitSpeedNegotiation => Action::Receive,
            ResponderPhase::AwaitStartSpeedNegotiation => Action::Receive,
            ResponderPhase::SendStartSpeedNegotiation => Action::Send(
                NsptNegProtocol::StartSpeedNegotiation,
            ),
            ResponderPhase::Calibrate => Action::Transfer(TOTAL_SEND_NEG_BYTES),
            ResponderPhase::AwaitBufferSize => Action::Receive,
            ResponderPhase::SendStartSpeedTest { unit_size: _, rounds: _ } => Action::Send(
                NsptNegProtocol::StartSpeedTest,
            ),
            ResponderPhase::Drain { unit_size, rounds: _, done: _ } => Action::Transfer(unit_size),
            ResponderPhase::AwaitEndOfTransfer { unit_size: _, rounds: _ } => Action::Receive,
            ResponderPhase::SendEndOfSpeedTest { unit_size: _, rounds: _ } => Action::Send(
                NsptNegProtocol::EndOfSpeedTest,
            ),
            ResponderPhase::Completed { unit_size: _, rounds: _ } => Action::Finish,
            ResponderPhase::Failed(fault) => Action::Abort(fault),
        }
    }

    /// Takes the outcome of the pending action and moves on. Returns the
    /// action that is pending then.
    pub fn step(&mut self, event: Event) -> (action: Action)
        ensures
            final(self)@ == old(self)@.next(event),
            action == final(self)@.action(),
            old(self)@.wf() ==> final(self)@.wf(),
    {
        let phase: ResponderPhase = match (self.phase, event) {
            (ResponderPhase::Completed { unit_size, rounds }, _) => self.phase,
            (ResponderPhase::Failed(fault), _) => self.phase,
            (ResponderPhase::SendServerHello, Event::Sent) => ResponderPhase::AwaitClientHello,
            (ResponderPhase::AwaitClientHello, Event::Received(message)) => match message {
                NsptNegProtocol::ClientHello(theirs) => if theirs == PROTOCOL_VER {
                    ResponderPhase::AwaitSpeedNegotiation
                } else {
                    ResponderPhase::Failed(Fault::VersionMismatch { ours: PROTOCOL_VER, theirs })
                },
                _ => ResponderPhase::Failed(
                    Fault::ProtocolViolation { expected: MessageKind::ClientHello, received: message },
                ),
            },
            (ResponderPhase::AwaitSpeedNegotiation, Event::Received(message)) => match message {
                NsptNegProtocol::SpeedNegotiation(required) => if required {
                    ResponderPhase::AwaitStartSpeedNegotiation
                } else {
                    ResponderPhase::AwaitBufferSize
                },
                _ => ResponderPhase::Failed(
                    Fault::ProtocolViolation {
                        expected: MessageKind::SpeedNegotiation,
                        received: message,
                    },
                ),
            },
            (ResponderPhase::AwaitStartSpeedNegotiation, Event::Received(message)) => match message {
                NsptNegProtocol::StartSpeedNegotiation => ResponderPhase::SendStartSpeedNegotiation,
                _ => ResponderPhase::Failed(
                    Fault::ProtocolViolation {
                        expected: MessageKind::StartSpeedNegotiation,
                        received: message,
                    },
                ),
            },
            (ResponderPhase::SendStartSpeedNegotiation, Event::Sent) => ResponderPhase::Calibrate,
            (ResponderPhase::Calibrate, Event::Transferred { elapsed_ms: _ }) => {
                self.calibrated = true;
                ResponderPhase::AwaitBufferSize
            },
            (ResponderPhase::AwaitBufferSize, Event::Received(message)) => match message {
                NsptNegProtocol::NotifyBufferSize(unit_size, rounds) => {
                    ResponderPhase::SendStartSpeedTest { unit_size, rounds }
                },
                _ => ResponderPhase::Failed(
                    Fault::ProtocolViolation {
                        expected: MessageKind::NotifyBufferSize,
                        received: message,
                    },
                ),
            },
            (ResponderPhase::SendStartSpeedTest { unit_size, rounds }, Event::Sent) => if rounds
                == 0 {
                ResponderPhase::AwaitEndOfTransfer { unit_size, rounds }
            } else {
                ResponderPhase::Drain { unit_size, rounds, done: 0 }
            },
            (
                ResponderPhase::Drain { unit_size, rounds, done },
                Event::Transferred { elapsed_ms: _ },
            ) => if done < u16::MAX && done + 1 < rounds {
                ResponderPhase::Drain { unit_size, rounds, done: done + 1 }
            } else {
                ResponderPhase::AwaitEndOfTransfer { unit_size, rounds }
            },
            (ResponderPhase::AwaitEndOfTransfer { unit_size, rounds }, Event::Received(message)) => match message {
                NsptNegProtocol::EndOfTransfer => ResponderPhase::SendEndOfSpeedTest {
                    unit_size,
                    rounds,
                },
                _ => ResponderPhase::Failed(
                    Fault::ProtocolViolation {
                        expected: MessageKind::EndOfTransfer,
                        received: message,
                    },
                ),
            },
            (ResponderPhase::SendEndOfSpeedTest { unit_size, rounds }, Event::Sent) => {
                ResponderPhase::Completed { unit_size, rounds }
            },
            _ => ResponderPhase::Failed(Fault::OutOfTurn),
        };
        self.phase = phase;
        self.action()
    }
}

} // verus!
