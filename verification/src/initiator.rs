//! The session of the initiator: the role that opens the connection, sets
//! the size of a transfer unit and writes the bulk data.
//!
//! The session waits for the hello of the responder and answers it, says
//! whether it needs a calibration transfer, runs that transfer if it does,
//! announces unit size and number of rounds, writes the rounds once the
//! responder is ready, and closes with an exchange of end messages.

use crate::message::NsptNegProtocol;
use crate::message::ProtocolVer;
use crate::message::PROTOCOL_VER;
use crate::session::bytes_per_second;
use crate::session::Action;
use crate::session::Event;
use crate::session::Fault;
use crate::session::MessageKind;
use crate::session::Sample;
use crate::session::TOTAL_SEND_NEG_BYTES;
use crate::sizing::get_transfer_size;
use vstd::prelude::*;

verus! {

/// Where the session of an initiator stands. Every phase but the last two
/// has one action pending.
#[derive(Debug, Clone, Copy, PartialEq, Eq, Structural)]
pub enum InitiatorPhase {
    /// Waiting for the hello of the responder.
    AwaitServerHello,
    /// Answering the hello of a responder that announced `theirs`.
    SendClientHello { theirs: ProtocolVer },
    /// Saying whether a calibration transfer follows.
    SendSpeedNegotiation,
    /// Announcing the calibration transfer.
    SendStartSpeedNegotiation,
    /// Waiting for the responder to echo the announcement.
    AwaitStartSpeedNegotiation,
    /// Writing the calibration transfer.
    Calibrate,
    /// Announcing unit size and number of rounds.
    SendBufferSize { unit_size: usize },
    /// Waiting for the responder to be ready for the rounds.
    AwaitStartSpeedTest { unit_size: usize },
    /// Writing a round.
    Measure { unit_size: usize },
    /// Telling the responder that all rounds are written.
    SendEndOfTransfer { unit_size: usize },
    /// Waiting for the responder to acknowledge.
    AwaitEndOfSpeedTest { unit_size: usize },
    /// The session ran to its end.
    Completed { unit_size: usize },
    /// The session failed.
    Failed(Fault),
}

/// The session of an initiator as a value: its configuration, its phase and
/// the rounds timed so far.
pub struct InitiatorModel {
    /// Number of rounds to run.
    pub test_times: u16,
    /// Size of a transfer unit, where the caller fixed it.
    pub transfer_bytes: Option<usize>,
    pub phase: InitiatorPhase,
    /// One sample for each round written.
    pub samples: Seq<Sample>,
}

impl InitiatorModel {
    /// The session before anything has happened.
    pub open spec fn init(test_times: u16, transfer_bytes: Option<usize>) -> Self {
        InitiatorModel {
            test_times,
            transfer_bytes,
            phase: InitiatorPhase::AwaitServerHello,
            samples: Seq::empty(),
        }
    }

    /// Whether the session is over.
    pub open spec fn finished(self) -> bool {
        self.phase is Completed || self.phase is Failed
    }

    /// The size of a transfer unit, once it is settled.
    pub open spec fn unit_size(self) -> Option<usize> {
        match self.phase {
            InitiatorPhase::SendBufferSize { unit_size } => Some(unit_size),
            InitiatorPhase::AwaitStartSpeedTest { unit_size } => Some(unit_size),
            InitiatorPhase::Measure { unit_size } => Some(unit_size),
            InitiatorPhase::SendEndOfTransfer { unit_size } => Some(unit_size),
            InitiatorPhase::AwaitEndOfSpeedTest { unit_size } => Some(unit_size),
            InitiatorPhase::Completed { unit_size } => Some(unit_size),
            _ => None,
        }
    }

    /// The action that is pending.
    pub open spec fn action(self) -> Action {
        match self.phase {
            InitiatorPhase::AwaitServerHello => Action::Receive,
            InitiatorPhase::SendClientHello { theirs } => Action::Send(
                NsptNegProtocol::ClientHello(PROTOCOL_VER),
            ),
            InitiatorPhase::SendSpeedNegotiation => Action::Send(
                NsptNegProtocol::SpeedNegotiation(self.transfer_bytes is None),
            ),
            InitiatorPhase::SendStartSpeedNegotiation => Action::Send(
                NsptNegProtocol::StartSpeedNegotiation,
            ),
            InitiatorPhase::AwaitStartSpeedNegotiation => Action::Receive,
            InitiatorPhase::Calibrate => Action::Transfer(TOTAL_SEND_NEG_BYTES),
            InitiatorPhase::SendBufferSize { unit_size } => Action::Send(
                NsptNegProtocol::NotifyBufferSize(unit_size, self.test_times),
            ),
            InitiatorPhase::AwaitStartSpeedTest { unit_size } => Action::Receive,
            InitiatorPhase::Measure { unit_size } => Action::Transfer(unit_size),
            InitiatorPhase::SendEndOfTransfer { unit_size } => Action::Send(
                NsptNegProtocol::EndOfTransfer,
            ),
            InitiatorPhase::AwaitEndOfSpeedTest { unit_size } => Action::Receive,
            InitiatorPhase::Completed { unit_size } => Action::Finish,
            InitiatorPhase::Failed(fault) => Action::Abort(fault),
        }
    }

    /// The message that the pending `Receive` has to yield.
    pub open spec fn expected(self) -> MessageKind {
        match self.phase {
            InitiatorPhase::AwaitStartSpeedNegotiation => MessageKind::StartSpeedNegotiation,
            InitiatorPhase::AwaitStartSpeedTest { unit_size } => MessageKind::StartSpeedTest,
            InitiatorPhase::AwaitEndOfSpeedTest { unit_size } => MessageKind::EndOfSpeedTest,
            _ => MessageKind::ServerHello,
        }
    }

    /// The session with another phase.
    pub open spec fn at(self, phase: InitiatorPhase) -> Self {
        InitiatorModel { phase, ..self }
    }

    /// The session after a message arrived that the protocol does not have
    /// at this point.
    pub open spec fn violated(self, received: NsptNegProtocol) -> Self {
        self.at(
            InitiatorPhase::Failed(
                Fault::ProtocolViolation { expected: self.expected(), received },
            ),
        )
    }

    /// The session after the driver reported `event`.
    pub open spec fn next(self, event: Event) -> Self {
        match (self.phase, event) {
            (InitiatorPhase::Completed { unit_size }, _) => self,
            (InitiatorPhase::Failed(fault), _) => self,
            (InitiatorPhase::AwaitServerHello, Event::Received(message)) => match message {
                NsptNegProtocol::ServerHello(theirs) => self.at(
                    InitiatorPhase::SendClientHello { theirs },
                ),
                _ => self.violated(message),
            },
            (InitiatorPhase::SendClientHello { theirs }, Event::Sent) => if theirs
                == PROTOCOL_VER {
                self.at(InitiatorPhase::SendSpeedNegotiation)
            } else {
                self.at(
                    InitiatorPhase::Failed(Fault::VersionMismatch { ours: PROTOCOL_VER, theirs }),
                )
            },
            (InitiatorPhase::SendSpeedNegotiation, Event::Sent) => match self.transfer_bytes {
                Some(unit_size) => self.at(InitiatorPhase::SendBufferSize { unit_size }),
                None => self.at(InitiatorPhase::SendStartSpeedNegotiation),
            },
            (InitiatorPhase::SendStartSpeedNegotiation, Event::Sent) => self.at(
                InitiatorPhase::AwaitStartSpeedNegotiation,
            ),
            (InitiatorPhase::AwaitStartSpeedNegotiation, Event::Received(message)) => match message {
                NsptNegProtocol::StartSpeedNegotiation => self.at(InitiatorPhase::Calibrate),
                _ => self.violated(message),
            },
            (InitiatorPhase::Calibrate, Event::Transferred { elapsed_ms }) => self.at(
                InitiatorPhase::SendBufferSize {
                    unit_size: spec_calibrated_unit_size(elapsed_ms) as usize,
                },
            ),
            (InitiatorPhase::SendBufferSize { unit_size }, Event::Sent) => self.at(
                InitiatorPhase::AwaitStartSpeedTest { unit_size },
            ),
            (InitiatorPhase::AwaitStartSpeedTest { unit_size }, Event::Received(message)) => match message {
                NsptNegProtocol::StartSpeedTest => if self.samples.len() < self.test_times {
                    self.at(InitiatorPhase::Measure { unit_size })
                } else {
                    self.at(InitiatorPhase::SendEndOfTransfer { unit_size })
                },
                _ => self.violated(message),
            },
            (InitiatorPhase::Measure { unit_size }, Event::Transferred { elapsed_ms }) => {
                let samples = self.samples.push(Sample { bytes: unit_size, elapsed_ms });
                InitiatorModel {
                    samples,
                    phase: if samples.len() < self.test_times {
                        InitiatorPhase::Measure { unit_size }
                    } else {
                        InitiatorPhase::SendEndOfTransfer { unit_size }
                    },
                    ..self
                }
            },
            (InitiatorPhase::SendEndOfTransfer { unit_size }, Event::Sent) => self.at(
                InitiatorPhase::AwaitEndOfSpeedTest { unit_size },
            ),
            (InitiatorPhase::AwaitEndOfSpeedTest { unit_size }, Event::Received(message)) => match message {
                NsptNegProtocol::EndOfSpeedTest => self.at(InitiatorPhase::Completed { unit_size }),
                _ => self.violated(message),
            },
            _ => self.at(InitiatorPhase::Failed(Fault::OutOfTurn)),
        }
    }

    /// What holds of every session that started with `init` and moved by
    /// `next`. A fault is a fault: the version of a mismatch is not ours,
    /// and the message of a violation is not the one that was due. Samples
    /// exist for the rounds written and for no others, and each is a sample
    /// of one transfer unit. The unit is the one that the caller fixed, or
    /// one that a calibration leads to.
    pub open spec fn wf(self) -> bool {
        match self.phase {
            InitiatorPhase::Failed(Fault::VersionMismatch { ours, theirs }) => ours == PROTOCOL_VER
                && theirs != PROTOCOL_VER,
            InitiatorPhase::Failed(Fault::ProtocolViolation { expected, received }) => expected
                != crate::session::kind_of(received),
            InitiatorPhase::Failed(fault) => true,
            _ => {
                &&& match self.phase {
                    InitiatorPhase::SendStartSpeedNegotiation => self.samples.len() == 0
                        && self.transfer_bytes is None,
                    InitiatorPhase::AwaitStartSpeedNegotiation => self.samples.len() == 0
                        && self.transfer_bytes is None,
                    InitiatorPhase::Calibrate => self.samples.len() == 0
                        && self.transfer_bytes is None,
                    InitiatorPhase::Measure { unit_size } => self.samples.len() < self.test_times,
                    InitiatorPhase::SendEndOfTransfer { unit_size } => self.samples.len()
                        == self.test_times,
                    InitiatorPhase::AwaitEndOfSpeedTest { unit_size } => self.samples.len()
                        == self.test_times,
                    InitiatorPhase::Completed { unit_size } => self.samples.len()
                        == self.test_times,
                    _ => self.samples.len() == 0,
                }
                &&& forall|i: int|
                    0 <= i < self.samples.len() ==> Some((#[trigger] self.samples[i]).bytes)
                        == self.unit_size()
                &&& self.transfer_bytes is Some && self.unit_size() is Some ==> self.unit_size()
                    == self.transfer_bytes
                &&& self.transfer_bytes is None ==> (self.unit_size() matches Some(unit_size)
                    ==> is_calibrated_size(unit_size))
            },
        }
    }

    /// An upper bound of the number of events that the session still
    /// takes: zero exactly when it is over.
    pub open spec fn remaining(self) -> nat {
        let rounds_left = if self.samples.len() <= self.test_times {
            (self.test_times - self.samples.len()) as nat
        } else {
            0
        };
        match self.phase {
            InitiatorPhase::AwaitServerHello => 10 + rounds_left,
            InitiatorPhase::SendClientHello { theirs } => 9 + rounds_left,
            InitiatorPhase::SendSpeedNegotiation => 8 + rounds_left,
            InitiatorPhase::SendStartSpeedNegotiation => 7 + rounds_left,
            InitiatorPhase::AwaitStartSpeedNegotiation => 6 + rounds_left,
            InitiatorPhase::Calibrate => 5 + rounds_left,
            InitiatorPhase::SendBufferSize { unit_size } => 4 + rounds_left,
            InitiatorPhase::AwaitStartSpeedTest { unit_size } => 3 + rounds_left,
            InitiatorPhase::Measure { unit_size } => 2 + rounds_left,
            InitiatorPhase::SendEndOfTransfer { unit_size } => 2,
            InitiatorPhase::AwaitEndOfSpeedTest { unit_size } => 1,
            InitiatorPhase::Completed { unit_size } => 0,
            InitiatorPhase::Failed(fault) => 0,
        }
    }

    /// The version that the responder announced, as far as it is known.
    pub open spec fn hello_version(self) -> ProtocolVer {
        match self.phase {
            InitiatorPhase::SendClientHello { theirs } => theirs,
            InitiatorPhase::Failed(Fault::VersionMismatch { ours, theirs }) => theirs,
            _ => PROTOCOL_VER,
        }
    }

    /// Number of messages that the session has sent. (Of a session that
    /// failed for another reason than the version, nothing is recorded.)
    pub open spec fn sent_count(self) -> nat {
        let calibration: nat = if self.transfer_bytes is None {
            1
        } else {
            0
        };
        match self.phase {
            InitiatorPhase::AwaitServerHello => 0,
            InitiatorPhase::SendClientHello { theirs } => 0,
            InitiatorPhase::SendSpeedNegotiation => 1,
            InitiatorPhase::SendStartSpeedNegotiation => 2,
            InitiatorPhase::AwaitStartSpeedNegotiation => 3,
            InitiatorPhase::Calibrate => 3,
            InitiatorPhase::SendBufferSize { unit_size } => 2 + calibration,
            InitiatorPhase::AwaitStartSpeedTest { unit_size } => 3 + calibration,
            InitiatorPhase::Measure { unit_size } => 3 + calibration,
            InitiatorPhase::SendEndOfTransfer { unit_size } => 3 + calibration,
            InitiatorPhase::AwaitEndOfSpeedTest { unit_size } => 4 + calibration,
            InitiatorPhase::Completed { unit_size } => 4 + calibration,
            InitiatorPhase::Failed(Fault::VersionMismatch { ours, theirs }) => 1,
            InitiatorPhase::Failed(fault) => 0,
        }
    }

    /// Number of messages that the session has received. (Of a session that
    /// failed for another reason than the version, nothing is recorded.)
    pub open spec fn received_count(self) -> nat {
        let calibration: nat = if self.transfer_bytes is None {
            1
        } else {
            0
        };
        match self.phase {
            InitiatorPhase::AwaitServerHello => 0,
            InitiatorPhase::SendClientHello { theirs } => 1,
            InitiatorPhase::SendSpeedNegotiation => 1,
            InitiatorPhase::SendStartSpeedNegotiation => 1,
            InitiatorPhase::AwaitStartSpeedNegotiation => 1,
            InitiatorPhase::Calibrate => 2,
            InitiatorPhase::SendBufferSize { unit_size } => 1 + calibration,
            InitiatorPhase::AwaitStartSpeedTest { unit_size } => 1 + calibration,
            InitiatorPhase::Measure { unit_size } => 2 + calibration,
            InitiatorPhase::SendEndOfTransfer { unit_size } => 2 + calibration,
            InitiatorPhase::AwaitEndOfSpeedTest { unit_size } => 2 + calibration,
            InitiatorPhase::Completed { unit_size } => 3 + calibration,
            InitiatorPhase::Failed(Fault::VersionMismatch { ours, theirs }) => 1,
            InitiatorPhase::Failed(fault) => 0,
        }
    }

    /// The messages that the session has sent, in order: the first
    /// `sent_count` messages of a whole session.
    pub open spec fn sent(self) -> Seq<NsptNegProtocol> {
        initiator_sends(
            self.test_times,
            self.transfer_bytes,
            match self.unit_size() {
                Some(unit_size) => unit_size,
                None => 0,
            },
        ).take(self.sent_count() as int)
    }

    /// The messages that the session has received, in order: the first
    /// `received_count` messages of a whole session.
    pub open spec fn received(self) -> Seq<NsptNegProtocol> {
        initiator_receives(self.hello_version(), self.transfer_bytes).take(
            self.received_count() as int,
        )
    }

    /// Number of bytes of bulk data that the session has written; for a
    /// failed session, zero.
    pub open spec fn bulk_bytes(self) -> nat {
        match self.unit_size() {
            Some(unit_size) => (self.samples.len() * unit_size + if self.transfer_bytes is None {
                TOTAL_SEND_NEG_BYTES as int
            } else {
                0
            }) as nat,
            None => 0,
        }
    }
}

/// The messages that an initiator sends in a whole session, in order.
pub open spec fn initiator_sends(
    test_times: u16,
    transfer_bytes: Option<usize>,
    unit_size: usize,
) -> Seq<NsptNegProtocol> {
    if transfer_bytes is None {
        seq![
            NsptNegProtocol::ClientHello(PROTOCOL_VER),
            NsptNegProtocol::SpeedNegotiation(true),
            NsptNegProtocol::StartSpeedNegotiation,
            NsptNegProtocol::NotifyBufferSize(unit_size, test_times),
            NsptNegProtocol::EndOfTransfer,
        ]
    } else {
        seq![
            NsptNegProtocol::ClientHello(PROTOCOL_VER),
            NsptNegProtocol::SpeedNegotiation(false),
            NsptNegProtocol::NotifyBufferSize(unit_size, test_times),
            NsptNegProtocol::EndOfTransfer,
        ]
    }
}

/// The messages that an initiator receives in a whole session, in order,
/// from a responder that announces the version `theirs`.
pub open spec fn initiator_receives(
    theirs: ProtocolVer,
    transfer_bytes: Option<usize>,
) -> Seq<NsptNegProtocol> {
    if transfer_bytes is None {
        seq![
            NsptNegProtocol::ServerHello(theirs),
            NsptNegProtocol::StartSpeedNegotiation,
            NsptNegProtocol::StartSpeedTest,
            NsptNegProtocol::EndOfSpeedTest,
        ]
    } else {
        seq![
            NsptNegProtocol::ServerHello(theirs),
            NsptNegProtocol::StartSpeedTest,
            NsptNegProtocol::EndOfSpeedTest,
        ]
    }
}

/// The size of a transfer unit after a calibration transfer that took
/// `elapsed_ms` milliseconds.
pub open spec fn spec_calibrated_unit_size(elapsed_ms: u64) -> nat {
    crate::sizing::transfer_size(
        crate::session::spec_bytes_per_second(TOTAL_SEND_NEG_BYTES as nat, elapsed_ms as nat),
    )
}

/// Whether `unit_size` is the size of a transfer unit that some calibration
/// transfer leads to.
pub open spec fn is_calibrated_size(unit_size: usize) -> bool {
    exists|elapsed_ms: u64| unit_size == #[trigger] spec_calibrated_unit_size(elapsed_ms)
}

/// The size of a transfer unit after a calibration transfer that took
/// `elapsed_ms` milliseconds: the calibration volume is divided by the time
/// and handed to the sizing heuristic.
pub fn calibrated_unit_size(elapsed_ms: u64) -> (unit_size: usize)
    ensures
        unit_size == spec_calibrated_unit_size(elapsed_ms),
        1 <= unit_size <= crate::sizing::MIN_SEND_BYTES,
{
    proof {
        assert(crate::session::spec_bytes_per_second(
            TOTAL_SEND_NEG_BYTES as nat,
            elapsed_ms as nat,
        ) <= TOTAL_SEND_NEG_BYTES * 1000) by (nonlinear_arith);
    }
    get_transfer_size(bytes_per_second(TOTAL_SEND_NEG_BYTES, elapsed_ms))
}

/// Every event keeps a session well formed.
pub proof fn lemma_initiator_next_preserves_wf(session: InitiatorModel, event: Event)
    requires
        session.wf(),
    ensures
        session.next(event).wf(),
        session.next(event).test_times == session.test_times,
        session.next(event).transfer_bytes == session.transfer_bytes,
{
}

/// A session always comes to an end: every event brings a session that is
/// not over closer to its end, by the measure `remaining`. A session that
/// is over stays as it is.
pub proof fn lemma_initiator_next_makes_progress(session: InitiatorModel, event: Event)
    requires
        session.wf(),
    ensures
        session.finished() <==> session.remaining() == 0,
        session.finished() ==> session.next(event) == session,
        !session.finished() ==> session.next(event).remaining() < session.remaining(),
{
}

/// A driver that answers every action with its outcome is never out of
/// turn: the session goes on, comes to its end, or fails for what the peer
/// sent.
pub proof fn lemma_initiator_in_turn(session: InitiatorModel, event: Event)
    requires
        crate::session::answers(session.action(), event),
    ensures
        session.next(event).phase != InitiatorPhase::Failed(Fault::OutOfTurn),
{
}

/// Bulk data is written by transfers only: an event adds to the bytes
/// written exactly the bytes of the transfer that it completes, and nothing
/// where it completes none. (Of a session that fails nothing is claimed.)
pub proof fn lemma_initiator_next_bulk(session: InitiatorModel, event: Event)
    requires
        session.wf(),
        !(session.next(event).phase is Failed),
    ensures
        session.next(event).bulk_bytes() == session.bulk_bytes() + match (
            session.action(),
            event,
        ) {
            (Action::Transfer(bytes), Event::Transferred { elapsed_ms }) => bytes as nat,
            _ => 0,
        },
{
    let after = session.next(event);
    if after.unit_size() is Some {
        let unit_size = after.unit_size()->Some_0;
        let rounds = session.samples.len();
        assert((rounds + 1) * unit_size == rounds * unit_size + unit_size) by (nonlinear_arith);
        assert(0 * unit_size == 0);
    }
}

/// A session that ran to its end has written every round in full, and the
/// calibration transfer where none fixed the unit size: in all
/// `test_times` times the unit size, and the calibration volume on top.
pub proof fn lemma_initiator_completed_bulk(session: InitiatorModel)
    requires
        session.wf(),
        session.phase is Completed,
    ensures
        session.samples.len() == session.test_times,
        session.unit_size() matches Some(unit_size) && session.bulk_bytes()
            == crate::session::bulk_volume(
            session.transfer_bytes is None,
            unit_size,
            session.test_times,
        ),
{
}

/// A responder of another version is answered and then left: the initiator
/// still sends its own hello, fails with `VersionMismatch` once that is
/// sent, and has not asked for a single byte of bulk data.
pub proof fn lemma_initiator_version_mismatch(
    test_times: u16,
    transfer_bytes: Option<usize>,
    theirs: ProtocolVer,
)
    requires
        theirs != PROTOCOL_VER,
    ensures
        ({
            let start = InitiatorModel::init(test_times, transfer_bytes);
            let greeted = start.next(Event::Received(NsptNegProtocol::ServerHello(theirs)));
            let answered = greeted.next(Event::Sent);
            &&& start.action() == Action::Receive
            &&& greeted.action() == Action::Send(NsptNegProtocol::ClientHello(PROTOCOL_VER))
            &&& answered.action() == Action::Abort(
                Fault::VersionMismatch { ours: PROTOCOL_VER, theirs },
            )
            &&& answered.finished()
            &&& answered.bulk_bytes() == 0
        }),
{
}

/// A message that the protocol does not have at this point ends the
/// session at once, with a fault that names the message that was due and
/// the one that came.
pub proof fn lemma_initiator_protocol_violation(session: InitiatorModel, received: NsptNegProtocol)
    requires
        session.action() == Action::Receive,
        crate::session::kind_of(received) != session.expected(),
    ensures
        session.next(Event::Received(received)).phase == InitiatorPhase::Failed(
            Fault::ProtocolViolation { expected: session.expected(), received },
        ),
{
}

/// The messages of a session are those of the protocol, in its order: a
/// send that is done adds its message to the messages sent, a receive that
/// is done adds its message to the messages received, and no other event
/// changes either. (Of a session that fails for another reason than the
/// version nothing is claimed.)
pub proof fn lemma_initiator_next_transcript(session: InitiatorModel, event: Event)
    requires
        session.wf(),
        session.next(event).phase matches InitiatorPhase::Failed(fault) ==> fault
            is VersionMismatch,
    ensures
        session.next(event).sent() == session.sent() + match (session.action(), event) {
            (Action::Send(message), Event::Sent) => seq![message],
            _ => Seq::empty(),
        },
        session.next(event).received() == session.received() + match (session.action(), event) {
            (Action::Receive, Event::Received(message)) => seq![message],
            _ => Seq::empty(),
        },
{
}

/// A session that ran to its end has sent and received the messages of a
/// whole session, all of them and in order.
pub proof fn lemma_initiator_completed_transcript(session: InitiatorModel)
    requires
        session.wf(),
        session.phase is Completed,
    ensures
        session.sent() == initiator_sends(
            session.test_times,
            session.transfer_bytes,
            session.unit_size()->Some_0,
        ),
        session.received() == initiator_receives(PROTOCOL_VER, session.transfer_bytes),
{
}

/// The session of an initiator.
#[derive(Debug)]
pub struct Initiator {
    test_times: u16,
    transfer_bytes: Option<usize>,
    phase: InitiatorPhase,
    samples: Vec<Sample>,
}

impl View for Initiator {
    type V = InitiatorModel;

    closed spec fn view(&self) -> InitiatorModel {
        InitiatorModel {
            test_times: self.test_times,
            transfer_bytes: self.transfer_bytes,
            phase: self.phase,
            samples: self.samples@,
        }
    }
}

impl Initiator {
    /// A session of `test_times` rounds. With `transfer_bytes` the caller
    /// fixes the size of a transfer unit; without, a calibration transfer
    /// settles it.
    pub fn new(test_times: u16, transfer_bytes: Option<usize>) -> (session: Self)
        ensures
            session@ == InitiatorModel::init(test_times, transfer_bytes),
            session@.wf(),
    {
        Initiator {
            test_times,
            transfer_bytes,
            phase: InitiatorPhase::AwaitServerHello,
            samples: Vec::new(),
        }
    }

    /// Where the session stands.
    pub fn phase(&self) -> (phase: InitiatorPhase)
        ensures
            phase == self@.phase,
    {
        self.phase
    }

    /// The samples of the rounds written so far.
    pub fn samples(&self) -> (samples: &Vec<Sample>)
        ensures
            samples@ == self@.samples,
    {
        &self.samples
    }

    /// Ends the session and hands out its samples.
    pub fn into_samples(self) -> (samples: Vec<Sample>)
        ensures
            samples@ == self@.samples,
    {
        self.samples
    }

    /// The action that the driver has to perform now.
    pub fn action(&self) -> (action: Action)
        ensures
            action == self@.action(),
    {
        match self.phase {
            InitiatorPhase::AwaitServerHello => Action::Receive,
            InitiatorPhase::SendClientHello { theirs: _ } => Action::Send(
                NsptNegProtocol::ClientHello(PROTOCOL_VER),
            ),
            InitiatorPhase::SendSpeedNegotiation => Action::Send(
                NsptNegProtocol::SpeedNegotiation(self.transfer_bytes.is_none()),
            ),
            InitiatorPhase::SendStartSpeedNegotiation => Action::Send(
                NsptNegProtocol::StartSpeedNegotiation,
            ),
            InitiatorPhase::AwaitStartSpeedNegotiation => Action::Receive,
            InitiatorPhase::Calibrate => Action::Transfer(TOTAL_SEND_NEG_BYTES),
            InitiatorPhase::SendBufferSize { unit_size } => Action::Send(
                NsptNegProtocol::NotifyBufferSize(unit_size, self.test_times),
            ),
            InitiatorPhase::AwaitStartSpeedTest { unit_size: _ } => Action::Receive,
            InitiatorPhase::Measure { unit_size } => Action::Transfer(unit_size),
            InitiatorPhase::SendEndOfTransfer { unit_size: _ } => Action::Send(
                NsptNegProtocol::EndOfTransfer,
            ),
            InitiatorPhase::AwaitEndOfSpeedTest { unit_size: _ } => Action::Receive,
            InitiatorPhase::Completed { unit_size: _ } => Action::Finish,
            InitiatorPhase::Failed(fault) => Action::Abort(fault),
        }
    }

    /// Takes the outcome of the pending action and moves on. Returns the
    /// action that is pending then.
    pub fn step(&mut self, event: Event) -> (action: Action)
        ensures
            final(self)@ == old(self)@.next(event),
            action == final(self)@.action(),
            old(self)@.wf() ==> final(self)@.wf(),
    {
        let phase: InitiatorPhase = match (self.phase, event) {
            (InitiatorPhase::Completed { unit_size }, _) => self.phase,
            (InitiatorPhase::Failed(fault), _) => self.phase,
            (InitiatorPhase::AwaitServerHello, Event::Received(message)) => match message {
                NsptNegProtocol::ServerHello(theirs) => InitiatorPhase::SendClientHello { theirs },
                _ => InitiatorPhase::Failed(
                    Fault::ProtocolViolation { expected: MessageKind::ServerHello, received: message },
                ),
            },
            (InitiatorPhase::SendClientHello { theirs }, Event::Sent) => if theirs == PROTOCOL_VER {
                InitiatorPhase::SendSpeedNegotiation
            } else {
                InitiatorPhase::Failed(Fault::VersionMismatch { ours: PROTOCOL_VER, theirs })
            },
            (InitiatorPhase::SendSpeedNegotiation, Event::Sent) => match self.transfer_bytes {
                Some(unit_size) => InitiatorPhase::SendBufferSize { unit_size },
                None => InitiatorPhase::SendStartSpeedNegotiation,
            },
            (InitiatorPhase::SendStartSpeedNegotiation, Event::Sent) => {
                InitiatorPhase::AwaitStartSpeedNegotiation
            },
            (InitiatorPhase::AwaitStartSpeedNegotiation, Event::Received(message)) => match message {
                NsptNegProtocol::StartSpeedNegotiation => InitiatorPhase::Calibrate,
                _ => InitiatorPhase::Failed(
                    Fault::ProtocolViolation {
                        expected: MessageKind::StartSpeedNegotiation,
                        received: message,
                    },
                ),
            },
            (InitiatorPhase::Calibrate, Event::Transferred { elapsed_ms }) => {
                InitiatorPhase::SendBufferSize { unit_size: calibrated_unit_size(elapsed_ms) }
            },
            (InitiatorPhase::SendBufferSize { unit_size }, Event::Sent) => {
                InitiatorPhase::AwaitStartSpeedTest { unit_size }
            },
            (InitiatorPhase::AwaitStartSpeedTest { unit_size }, Event::Received(message)) => match message {
                NsptNegProtocol::StartSpeedTest => if self.samples.len() < self.test_times as usize {
                    InitiatorPhase::Measure { unit_size }
                } else {
                    InitiatorPhase::SendEndOfTransfer { unit_size }
                },
                _ => InitiatorPhase::Failed(
                    Fault::ProtocolViolation {
                        expected: MessageKind::StartSpeedTest,
                        received: message,
                    },
                ),
            },
            (InitiatorPhase::Measure { unit_size }, Event::Transferred { elapsed_ms }) => {
                self.samples.push(Sample { bytes: unit_size, elapsed_ms });
                if self.samples.len() < self.test_times as usize {
                    InitiatorPhase::Measure { unit_size }
                } else {
                    InitiatorPhase::SendEndOfTransfer { unit_size }
                }
            },
            (InitiatorPhase::SendEndOfTransfer { unit_size }, Event::Sent) => {
                InitiatorPhase::AwaitEndOfSpeedTest { unit_size }
            },
            (InitiatorPhase::AwaitEndOfSpeedTest { unit_size }, Event::Received(message)) => match message {
                NsptNegProtocol::EndOfSpeedTest => InitiatorPhase::Completed { unit_size },
                _ => InitiatorPhase::Failed(
                    Fault::ProtocolViolation {
                        expected: MessageKind::EndOfSpeedTest,
                        received: message,
                    },
                ),
            },
            _ => InitiatorPhase::Failed(Fault::OutOfTurn),
        };
        self.phase = phase;
        self.action()
    }
}

} // verus!
