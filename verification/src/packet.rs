//! Construction of the magic packet payload.

use vstd::prelude::*;

verus! {

use vstd::arithmetic::div_mod::lemma_mod_multiples_vanish;
use vstd::arithmetic::div_mod::lemma_small_mod;

/// Length in bytes of a magic packet: 6 synchronization bytes followed by
/// 16 repetitions of the 6-byte hardware address.
pub const MAGIC_PACKET_LENGTH: usize = 102;

/// The bytes of the magic packet for the hardware address `mac`: byte `i`
/// is `0xff` for `i < 6`, and from byte 6 on the packet cycles through the
/// 6 bytes of `mac`, 16 times over.
pub open spec fn magic_packet_spec(mac: Seq<u8>) -> Seq<u8> {
    Seq::new(102, |i: int| if i < 6 { 0xffu8 } else { mac[(i - 6) % 6] })
}

/// Build a magic Wake-on-LAN packet from a 48-bit MAC address.
pub fn build_magic_packet(mac: [u8; 6]) -> (packet: Vec<u8>)
    ensures
        packet@ == magic_packet_spec(mac@),
        packet@.len() == MAGIC_PACKET_LENGTH,
        forall|i: int| 0 <= i < 6 ==> packet@[i] == 0xffu8,
        forall|i: int| 6 <= i < 102 ==> packet@[i] == mac@[(i - 6) % 6],
{
    let mut packet: Vec<u8> = Vec::new();
    let mut i: usize = 0;
    while i < 6
        invariant
            i <= 6,
            packet@.len() == i,
            forall|t: int| 0 <= t < i ==> packet@[t] == 0xffu8,
        decreases 6 - i,
    {
        packet.push(0xff);
        i = i + 1;
    }
    let mut k: usize = 0;
    while k < 16
        invariant
            k <= 16,
            packet@.len() == 6 + k * 6,
            forall|t: int| 0 <= t < 6 ==> packet@[t] == 0xffu8,
            forall|t: int| 6 <= t < packet@.len() ==> packet@[t] == mac@[(t - 6) % 6],
        decreases 16 - k,
    {
        let mut j: usize = 0;
        while j < 6
            invariant
                j <= 6,
                k < 16,
                packet@.len() == 6 + k * 6 + j,
                forall|t: int| 0 <= t < 6 ==> packet@[t] == 0xffu8,
                forall|t: int| 6 <= t < packet@.len() ==> packet@[t] == mac@[(t - 6) % 6],
            decreases 6 - j,
        {
            packet.push(mac[j]);
            proof {
                lemma_mod_multiples_vanish(k as int, j as int, 6);
                lemma_small_mod(j as nat, 6);
            }
            j = j + 1;
        }
        k = k + 1;
    }
    proof {
        assert(packet@ =~= magic_packet_spec(mac@));
    }
    packet
}

/// The first 6 bytes of every magic packet are the synchronization bytes,
/// all `0xff`.
pub proof fn lemma_packet_sync_bytes(mac: Seq<u8>)
    ensures
        magic_packet_spec(mac).subrange(0, 6)
            == seq![0xffu8, 0xffu8, 0xffu8, 0xffu8, 0xffu8, 0xffu8],
{
    assert(magic_packet_spec(mac).subrange(0, 6)
        =~= seq![0xffu8, 0xffu8, 0xffu8, 0xffu8, 0xffu8, 0xffu8]);
}

/// Each of the 16 repetitions in a magic packet equals the hardware
/// address: for every `k` below 16, bytes `6 + 6*k` up to `6 + 6*k + 6`
/// are exactly `mac`.
pub proof fn lemma_packet_repetition(mac: Seq<u8>, k: int)
    requires
        mac.len() == 6,
        0 <= k < 16,
    ensures
        magic_packet_spec(mac).subrange(6 + 6 * k, 6 + 6 * k + 6) == mac,
{
    assert forall|j: int| 0 <= j < 6 implies
        magic_packet_spec(mac).subrange(6 + 6 * k, 6 + 6 * k + 6)[j] == mac[j] by {
        lemma_mod_multiples_vanish(k, j, 6);
        lemma_small_mod(j as nat, 6);
    }
    assert(magic_packet_spec(mac).subrange(6 + 6 * k, 6 + 6 * k + 6) =~= mac);
}

/// Building the packet is deterministic: any two payloads that meet the
/// builder's contract for the same hardware address are byte-identical.
pub proof fn lemma_packet_builder_deterministic(mac: Seq<u8>, r1: Seq<u8>, r2: Seq<u8>)
    requires
        r1 == magic_packet_spec(mac),
        r2 == magic_packet_spec(mac),
    ensures
        r1 == r2,
{
}

} // verus!
