//! The two roles together: what one of them writes in a whole session is
//! what the other one waits for.

use crate::message::PROTOCOL_VER;
use vstd::prelude::*;

verus! {

/// The two roles speak one protocol: the messages that an initiator sends
/// in a whole session are those that a responder receives in one, and the
/// messages that a responder sends are those that an initiator receives.
pub proof fn lemma_roles_agree(test_times: u16, transfer_bytes: Option<usize>, unit_size: usize)
    ensures
        crate::initiator::initiator_sends(test_times, transfer_bytes, unit_size)
            == crate::responder::responder_receives(
            PROTOCOL_VER,
            transfer_bytes is None,
            unit_size,
            test_times,
        ),
        crate::initiator::initiator_receives(PROTOCOL_VER, transfer_bytes)
            == crate::responder::responder_sends(transfer_bytes is None),
{
}

/// What an initiator has written when its session has run to its end is a
/// whole session for a responder: handed the messages and the bulk data,
/// the responder runs to its end too, with the plan of the initiator.
pub proof fn lemma_initiator_serves_responder(
    test_times: u16,
    transfer_bytes: Option<usize>,
    unit_size: usize,
    messages: Seq<u8>,
    bulk: Seq<u8>,
)
    requires
        messages == crate::channel::frames(
            crate::initiator::initiator_sends(test_times, transfer_bytes, unit_size),
        ),
        bulk.len() == crate::session::bulk_volume(transfer_bytes is None, unit_size, test_times),
    ensures
        crate::server::holds_session(
            messages,
            bulk,
            transfer_bytes is None,
            unit_size,
            test_times,
        ),
{
    lemma_roles_agree(test_times, transfer_bytes, unit_size);
}

/// What a responder has written when its session has run to its end is a
/// whole session for the initiator that it served.
pub proof fn lemma_responder_serves_initiator(transfer_bytes: Option<usize>, messages: Seq<u8>)
    requires
        messages == crate::channel::frames(
            crate::responder::responder_sends(transfer_bytes is None),
        ),
    ensures
        crate::client::holds_session(messages, transfer_bytes),
{
    lemma_roles_agree(0, transfer_bytes, 0);
}

} // verus!
