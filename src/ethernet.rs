//! Ethernet II framing: a 14-byte header (destination MAC, source MAC,
//! big-endian EtherType) followed by the payload. The NIC adds padding and CRC.
use vstd::prelude::*;
use crate::rtl8139::{get_mac_address, Rtl8139Context};

verus! {

/// The length of the encoded header.
pub const HEADER_LEN: usize = 14;

/// EtherType of the frame sent to check a freshly brought-up NIC.
pub const TEST_ETHER_TYPE: u16 = 0x1234;

/// The destination, source and EtherType of a frame.
#[derive(Clone, Copy, Debug)]
pub struct EthernetHeader {
    pub dst_mac: [u8; 6],
    pub src_mac: [u8; 6],
    pub protocol: u16,
}

/// A header and its payload.
#[derive(Clone, Debug)]
pub struct EthernetFrame {
    pub header: EthernetHeader,
    pub payload: Vec<u8>,
}

/// The wire bytes of a frame: `dst` ‖ `src` ‖ EtherType, high byte first ‖ `payload`.
pub open spec fn encode(dst: Seq<u8>, src: Seq<u8>, ether_type: u16, payload: Seq<u8>) -> Seq<u8> {
    dst + src + seq![(ether_type / 256) as u8, (ether_type % 256) as u8] + payload
}

/// The wire bytes of `f`.
pub open spec fn frame_bytes(f: EthernetFrame) -> Seq<u8> {
    encode(f.header.dst_mac@, f.header.src_mac@, f.header.protocol, f.payload@)
}

/// The fields of a frame read from `bytes` (at least 14 of them): destination,
/// source, EtherType and payload.
pub open spec fn decode(bytes: Seq<u8>) -> (Seq<u8>, Seq<u8>, u16, Seq<u8>) {
    (
        bytes.subrange(0, 6),
        bytes.subrange(6, 12),
        (bytes[12] as int * 256 + bytes[13] as int) as u16,
        bytes.subrange(14, bytes.len() as int),
    )
}

/// Decoding the bytes of an encoded frame gives back its MACs, EtherType and
/// payload, whatever they hold.
pub proof fn lemma_decode_encode(dst: Seq<u8>, src: Seq<u8>, ether_type: u16, payload: Seq<u8>)
    requires
        dst.len() == 6,
        src.len() == 6,
    ensures
        decode(encode(dst, src, ether_type, payload)) == (dst, src, ether_type, payload),
{
    let b = encode(dst, src, ether_type, payload);
    assert(b.subrange(0, 6) =~= dst);
    assert(b.subrange(6, 12) =~= src);
    assert(b.subrange(14, b.len() as int) =~= payload);
    assert(b[12] == (ether_type / 256) as u8);
    assert(b[13] == (ether_type % 256) as u8);
}

/// `bytes` decodes to `f`.
pub open spec fn decodes_to(bytes: Seq<u8>, f: EthernetFrame) -> bool {
    decode(bytes) == (f.header.dst_mac@, f.header.src_mac@, f.header.protocol, f.payload@)
}

/// A frame encoded by `to_bytes` and read back by `from_bytes` has the fields it
/// had before.
pub proof fn lemma_frame_round_trip(f: EthernetFrame, g: EthernetFrame)
    requires
        decodes_to(frame_bytes(f), g),
    ensures
        g.header.dst_mac@ == f.header.dst_mac@,
        g.header.src_mac@ == f.header.src_mac@,
        g.header.protocol == f.header.protocol,
        g.payload@ == f.payload@,
{
    lemma_decode_encode(f.header.dst_mac@, f.header.src_mac@, f.header.protocol, f.payload@);
}

fn push_all(out: &mut Vec<u8>, bytes: &[u8])
    ensures
        final(out)@ == old(out)@ + bytes@,
{
    let mut i: usize = 0;
    while i < bytes.len()
        invariant
            i <= bytes@.len(),
            out@ == old(out)@ + bytes@.subrange(0, i as int),
        decreases bytes.len() - i,
    {
        out.push(bytes[i]);
        assert(bytes@.subrange(0, i + 1) =~= bytes@.subrange(0, i as int).push(bytes@[i as int]));
        i += 1;
    }
    assert(bytes@.subrange(0, i as int) =~= bytes@);
}

fn copy_bytes(bytes: &[u8], start: usize, end: usize) -> (r: [u8; 6])
    requires
        end == start + 6,
        end <= bytes@.len(),
    ensures
        r@ == bytes@.subrange(start as int, end as int),
{
    let r: [u8; 6] = [
        bytes[start],
        bytes[start + 1],
        bytes[start + 2],
        bytes[start + 3],
        bytes[start + 4],
        bytes[start + 5],
    ];
    assert(r@ =~= bytes@.subrange(start as int, end as int));
    r
}

impl EthernetHeader {
    pub fn new(dst_mac: [u8; 6], src_mac: [u8; 6], protocol: u16) -> (r: EthernetHeader)
        ensures
            r.dst_mac@ == dst_mac@,
            r.src_mac@ == src_mac@,
            r.protocol == protocol,
    {
        EthernetHeader { dst_mac, src_mac, protocol }
    }
}

impl EthernetFrame {
    pub fn new(header: EthernetHeader, payload: Vec<u8>) -> (r: EthernetFrame)
        ensures
            r.header == header,
            r.payload@ == payload@,
    {
        EthernetFrame { header, payload }
    }

    /// The whole frame as wire bytes.
    pub fn to_bytes(&self) -> (r: Vec<u8>)
        ensures
            r@ == frame_bytes(*self),
            r@.len() == 14 + self.payload@.len(),
            r@.subrange(0, 6) == self.header.dst_mac@,
            r@.subrange(6, 12) == self.header.src_mac@,
            r@[12] as int * 256 + r@[13] as int == self.header.protocol as int,
            r@.subrange(14, r@.len() as int) == self.payload@,
    {
        let mut result: Vec<u8> = Vec::new();
        push_all(&mut result, &self.header.dst_mac);
        push_all(&mut result, &self.header.src_mac);
        let protocol_upper = (self.header.protocol / 256) as u8;
        let protocol_lower = (self.header.protocol % 256) as u8;
        result.push(protocol_upper);
        result.push(protocol_lower);
        push_all(&mut result, self.payload.as_slice());
        assert(result@ =~= frame_bytes(*self));
        proof {
            lemma_decode_encode(
                self.header.dst_mac@,
                self.header.src_mac@,
                self.header.protocol,
                self.payload@,
            );
        }
        result
    }

    /// The frame in `bytes`; `None` when they are fewer than the 14 bytes of a header.
    pub fn from_bytes(bytes: &[u8]) -> (r: Option<EthernetFrame>)
        ensures
            bytes@.len() < 14 <==> r is None,
            r matches Some(f) ==> decodes_to(bytes@, f),
    {
        if bytes.len() < HEADER_LEN {
            return None;
        }
        let dst_mac = copy_bytes(bytes, 0, 6);
        let src_mac = copy_bytes(bytes, 6, 12);
        let protocol: u16 = (bytes[12] as u16) * 256 + bytes[13] as u16;
        let mut payload: Vec<u8> = Vec::new();
        let mut i: usize = HEADER_LEN;
        while i < bytes.len()
            invariant
                14 <= i <= bytes@.len(),
                payload@ == bytes@.subrange(14, i as int),
            decreases bytes.len() - i,
        {
            payload.push(bytes[i]);
            assert(bytes@.subrange(14, i + 1) =~= bytes@.subrange(14, i as int).push(bytes@[i as int]));
            i += 1;
        }
        Some(EthernetFrame { header: EthernetHeader { dst_mac, src_mac, protocol }, payload })
    }
}

/// The frame sent to check a freshly brought-up NIC: broadcast destination, the
/// NIC's MAC as source, EtherType `0x1234`, no payload. Returns its wire bytes,
/// to be handed to a transmit descriptor.
pub fn send_empty_frame(ctx: &Rtl8139Context) -> (r: Vec<u8>)
    ensures
        r@ == encode(seq![0xFFu8; 6], ctx.mac@, 0x1234, Seq::empty()),
        r@.len() == 14,
{
    let header = EthernetHeader::new([0xff; 6], get_mac_address(ctx), TEST_ETHER_TYPE);
    let payload: Vec<u8> = Vec::new();
    let empty_frame = EthernetFrame::new(header, payload);
    let r = empty_frame.to_bytes();
    assert(header.dst_mac@ =~= seq![0xFFu8; 6]);
    r
}

} // verus!
