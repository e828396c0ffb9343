//! The per-request pipeline: a token is decoded, a packet is built for the
//! decoded address, and the result of sending it becomes the outcome.
use vstd::prelude::*;
use crate::codec::{eui48, eui48_value, is_eui48_token};
use crate::packet::{lemma_magic_packet_determines_address, lemma_magic_packet_layout, magic_packet, magic_packet_bytes};

verus! {

/// How a request ended.
#[derive(Debug, Clone, Copy, PartialEq, Eq, Structural)]
pub enum Outcome {
    /// The address decoded and one packet was handed to the network.
    Accepted,
    /// The token was no well-formed address; nothing was sent.
    Rejected,
    /// The address decoded but the packet could not be sent.
    Failed,
}

impl Outcome {
    /// The HTTP status that stands for this outcome.
    pub open spec fn spec_status_code(self) -> u16 {
        match self {
            Outcome::Accepted => 200,
            Outcome::Rejected => 400,
            Outcome::Failed => 500,
        }
    }

    /// The HTTP status that stands for this outcome: success, client error
    /// or server error.
    pub fn status_code(&self) -> (r: u16)
        ensures
            r == self.spec_status_code(),
    {
        match self {
            Outcome::Accepted => 200,
            Outcome::Rejected => 400,
            Outcome::Failed => 500,
        }
    }
}

/// What a request calls for once its token has been examined.
#[derive(Debug, PartialEq, Eq)]
pub enum WolPlan {
    /// The token is malformed: answer with a rejection and send nothing.
    Reject,
    /// Send this magic packet to the broadcast destination.
    Send([u8; 102]),
}

/// Examines a request's token. A well-formed token gives the magic packet
/// for the address it stands for; any other token gives `Reject`.
pub fn plan_wol_request(target: &[u8]) -> (r: WolPlan)
    ensures
        r is Reject <==> !is_eui48_token(target@),
        r matches WolPlan::Send(p) ==> p@ == magic_packet_bytes(eui48_value(target@)),
{
    match eui48(target) {
        Some(mac) => WolPlan::Send(magic_packet(&mac)),
        None => WolPlan::Reject,
    }
}

/// The outcome of a request whose packet was handed to the transport:
/// `Accepted` when the send succeeded, `Failed` when it did not.
pub fn send_outcome(sent: bool) -> (r: Outcome)
    ensures
        r == (if sent { Outcome::Accepted } else { Outcome::Failed }),
{
    if sent {
        Outcome::Accepted
    } else {
        Outcome::Failed
    }
}

/// For a well-formed token, the packet begins with six `0xFF` bytes and
/// carries the decoded address in each of its sixteen blocks.
pub proof fn lemma_token_packet_layout(t: Seq<u8>)
    requires
        is_eui48_token(t),
    ensures
        magic_packet_bytes(eui48_value(t)).len() == 102,
        forall|k: int| 0 <= k < 6 ==> #[trigger] magic_packet_bytes(eui48_value(t))[k] == 0xffu8,
        forall|i: int|
            0 <= i < 16 ==> #[trigger] magic_packet_bytes(eui48_value(t)).subrange(6 + 6 * i, 12 + 6 * i)
                == eui48_value(t),
{
    lemma_magic_packet_layout(eui48_value(t));
}

/// Requests for distinct addresses get distinct packets, each carrying its
/// own address: no packet can stand for another request's target.
pub proof fn lemma_distinct_targets_distinct_packets(t1: Seq<u8>, t2: Seq<u8>)
    requires
        is_eui48_token(t1),
        is_eui48_token(t2),
        eui48_value(t1) != eui48_value(t2),
    ensures
        magic_packet_bytes(eui48_value(t1)) != magic_packet_bytes(eui48_value(t2)),
        magic_packet_bytes(eui48_value(t1)).subrange(6, 12) == eui48_value(t1),
        magic_packet_bytes(eui48_value(t2)).subrange(6, 12) == eui48_value(t2),
{
    lemma_magic_packet_determines_address(eui48_value(t1), eui48_value(t2));
    lemma_magic_packet_determines_address(eui48_value(t2), eui48_value(t1));
}

} // verus!
