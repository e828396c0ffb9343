//! The Wake-on-LAN magic packet: six `0xFF` bytes followed by the target
//! hardware address repeated sixteen times.
use vstd::prelude::*;

verus! {

/// Length of a magic packet: the header and sixteen copies of the address.
pub const PACKET_LEN: usize = 102;

/// Length of the all-ones header.
pub const HEADER_LEN: usize = 6;

/// The magic packet for address `mac`: byte `k` is `0xFF` in the header,
/// and past it the address byte at position `(k - 6) % 6`.
pub open spec fn magic_packet_bytes(mac: Seq<u8>) -> Seq<u8> {
    Seq::new(102, |k: int| if k < 6 { 0xffu8 } else { mac[(k - 6) % 6] })
}

/// Builds the magic packet for `mac`.
pub fn magic_packet(mac: &[u8; 6]) -> (r: [u8; 102])
    ensures
        r@ == magic_packet_bytes(mac@),
{
    let mut p: [u8; 102] = [0xffu8; 102];
    let mut k: usize = HEADER_LEN;
    while k < PACKET_LEN
        invariant
            HEADER_LEN <= k <= PACKET_LEN,
            p@.len() == 102,
            forall|j: int| 0 <= j < 6 ==> #[trigger] p@[j] == 0xffu8,
            forall|j: int| 6 <= j < k ==> #[trigger] p@[j] == mac@[(j - 6) % 6],
        decreases PACKET_LEN - k,
    {
        p[k] = mac[(k - HEADER_LEN) % 6];
        k = k + 1;
    }
    assert(p@ =~= magic_packet_bytes(mac@));
    p
}

/// The layout of a magic packet: 102 bytes, the first six `0xFF`, and for
/// each `i` below 16 the bytes `[6 + 6 * i, 12 + 6 * i)` equal to the address.
pub proof fn lemma_magic_packet_layout(mac: Seq<u8>)
    requires
        mac.len() == 6,
    ensures
        magic_packet_bytes(mac).len() == 102,
        forall|k: int| 0 <= k < 6 ==> #[trigger] magic_packet_bytes(mac)[k] == 0xffu8,
        forall|i: int|
            0 <= i < 16 ==> #[trigger] magic_packet_bytes(mac).subrange(6 + 6 * i, 12 + 6 * i) == mac,
{
    assert forall|i: int| 0 <= i < 16 implies #[trigger] magic_packet_bytes(mac).subrange(
        6 + 6 * i,
        12 + 6 * i,
    ) == mac by {
        assert forall|j: int| 0 <= j < 6 implies #[trigger] magic_packet_bytes(mac)[6 + 6 * i + j]
            == mac[j] by {
            assert((6 * i + j) % 6 == j) by (nonlinear_arith)
                requires
                    0 <= j < 6,
                    0 <= i,
            ;
        }
        assert(magic_packet_bytes(mac).subrange(6 + 6 * i, 12 + 6 * i) =~= mac);
    }
}

/// Distinct addresses give distinct packets: the packet determines the
/// address, which is its bytes `[6, 12)`.
pub proof fn lemma_magic_packet_determines_address(a: Seq<u8>, b: Seq<u8>)
    requires
        a.len() == 6,
        b.len() == 6,
    ensures
        magic_packet_bytes(a).subrange(6, 12) == a,
        magic_packet_bytes(a) == magic_packet_bytes(b) <==> a == b,
{
    lemma_magic_packet_layout(a);
    lemma_magic_packet_layout(b);
    let first: int = 0;
    assert(magic_packet_bytes(a).subrange(6 + 6 * first, 12 + 6 * first) == a);
    assert(magic_packet_bytes(b).subrange(6 + 6 * first, 12 + 6 * first) == b);
}

} // verus!
