//! UDP datagram headers: parsing, serialization, and the checksum.
use byteorder::{ByteOrder, NetworkEndian};
use vstd::prelude::*;
use vstd::slice::slice_to_vec;

use crate::fail::{fails_with, Fail, EBADMSG};

verus! {

/// Size of a UDP header (in bytes).
pub const UDP_HEADER_SIZE: usize = 8;

/// IP protocol number of UDP.
pub const IP_PROTOCOL_UDP: u8 = 17;

/// The addresses of the IPv4 header that carries a datagram; the checksum
/// covers them.
#[derive(Clone, Copy, Debug)]
pub struct Ipv4Header {
    src_addr: [u8; 4],
    dest_addr: [u8; 4],
}

impl Ipv4Header {
    /// Creates a header from the source and destination address octets.
    pub fn new(src_addr: [u8; 4], dest_addr: [u8; 4]) -> (r: Ipv4Header)
        ensures
            r.spec_src_addr() == src_addr@,
            r.spec_dest_addr() == dest_addr@,
    {
        Ipv4Header { src_addr, dest_addr }
    }

    /// The source address octets.
    pub closed spec fn spec_src_addr(&self) -> Seq<u8> {
        self.src_addr@
    }

    /// The destination address octets.
    pub closed spec fn spec_dest_addr(&self) -> Seq<u8> {
        self.dest_addr@
    }

    /// The source address octets.
    pub fn get_src_addr(&self) -> (r: [u8; 4])
        ensures
            r@ == self.spec_src_addr(),
    {
        self.src_addr
    }

    /// The destination address octets.
    pub fn get_dest_addr(&self) -> (r: [u8; 4])
        ensures
            r@ == self.spec_dest_addr(),
    {
        self.dest_addr
    }
}

/// UDP datagram header.
#[derive(Debug)]
pub struct UdpHeader {
    /// Port used on sender side (optional).
    src_port: u16,
    /// Port used receiver side.
    dest_port: u16,
}

/// The big-endian value of two bytes.
pub open spec fn be16(hi: u8, lo: u8) -> int {
    256 * hi + lo
}

/// The sum of `data` read as big-endian 16-bit words, an odd last byte padded
/// with a zero.
pub open spec fn word_sum(data: Seq<u8>) -> int
    decreases data.len(),
{
    if data.len() == 0 {
        0
    } else if data.len() == 1 {
        be16(data[0], 0)
    } else {
        be16(data[0], data[1]) + word_sum(data.subrange(2, data.len() as int))
    }
}

/// Folds a sum into 16 bits by taking away 0xffff while it is larger.
pub open spec fn fold16(x: int) -> int
    decreases x,
{
    if x > 0xffff {
        fold16(x - 0xffff)
    } else {
        x
    }
}

/// The sum behind the checksum of a datagram with header `hdr` and payload
/// `data`, carried from `src` to `dst`; the header's own checksum field is
/// counted as zero.
pub open spec fn checksum_sum(src: Seq<u8>, dst: Seq<u8>, hdr: Seq<u8>, data: Seq<u8>) -> int {
    0xffff + be16(src[0], src[1]) + be16(src[2], src[3]) + be16(dst[0], dst[1]) + be16(
        dst[2],
        dst[3],
    ) + IP_PROTOCOL_UDP + (hdr.len() + data.len()) + be16(hdr[0], hdr[1]) + be16(hdr[2], hdr[3])
        + be16(hdr[4], hdr[5]) + word_sum(data)
}

/// The UDP checksum: the complement of the folded sum.
pub open spec fn spec_checksum(src: Seq<u8>, dst: Seq<u8>, hdr: Seq<u8>, data: Seq<u8>) -> u16 {
    (0xffff - fold16(checksum_sum(src, dst, hdr, data))) as u16
}

/// What parsing `buf` as a datagram carried from `src` to `dst` yields: its
/// source and destination ports, or `None` when it is malformed: shorter than
/// a header, with a length field other than its length, or, unless checksums
/// are offloaded, with a non-zero checksum that does not match.
pub open spec fn parse_spec(src: Seq<u8>, dst: Seq<u8>, buf: Seq<u8>, checksum_offload: bool) -> Option<
    (u16, u16),
> {
    if buf.len() < UDP_HEADER_SIZE || be16(buf[4], buf[5]) != buf.len() {
        None
    } else if !checksum_offload && be16(buf[6], buf[7]) != 0 && be16(buf[6], buf[7]) != spec_checksum(
        src,
        dst,
        buf.subrange(0, UDP_HEADER_SIZE as int),
        buf.subrange(UDP_HEADER_SIZE as int, buf.len() as int),
    ) {
        None
    } else {
        Some((be16(buf[0], buf[1]) as u16, be16(buf[2], buf[3]) as u16))
    }
}

/// The eight header bytes: each field big-endian.
pub open spec fn header_bytes(src_port: u16, dest_port: u16, length: u16, checksum: u16) -> Seq<u8> {
    seq![
        (src_port / 256) as u8,
        (src_port % 256) as u8,
        (dest_port / 256) as u8,
        (dest_port % 256) as u8,
        (length / 256) as u8,
        (length % 256) as u8,
        (checksum / 256) as u8,
        (checksum % 256) as u8,
    ]
}

/// The checksum field that serialization writes: zero when checksums are
/// offloaded.
pub open spec fn serialized_checksum(
    src: Seq<u8>,
    dst: Seq<u8>,
    src_port: u16,
    dest_port: u16,
    data: Seq<u8>,
    checksum_offload: bool,
) -> u16 {
    if checksum_offload {
        0
    } else {
        spec_checksum(
            src,
            dst,
            header_bytes(src_port, dest_port, (UDP_HEADER_SIZE + data.len()) as u16, 0),
            data,
        )
    }
}

/// Twice the word sum is at most 0xffff for each byte and one more.
proof fn lemma_word_sum_bound(data: Seq<u8>)
    ensures
        0 <= word_sum(data),
        2 * word_sum(data) <= 0xffff * (data.len() + 1),
    decreases data.len(),
{
    if data.len() >= 2 {
        lemma_word_sum_bound(data.subrange(2, data.len() as int));
    }
}

/// Reading a word off the front of a suffix.
proof fn lemma_word_sum_step(data: Seq<u8>, i: int)
    requires
        0 <= i,
        i + 2 <= data.len(),
    ensures
        word_sum(data.subrange(i, data.len() as int)) == be16(data[i], data[i + 1]) + word_sum(
            data.subrange(i + 2, data.len() as int),
        ),
{
    let s = data.subrange(i, data.len() as int);
    assert(s.subrange(2, s.len() as int) =~= data.subrange(i + 2, data.len() as int));
}

/// Relies on byteorder's `NetworkEndian::read_u16`: the two bytes at `at`
/// read as a big-endian integer.
#[verifier::external_body]
fn read_be16(buf: &[u8], at: usize) -> (r: u16)
    requires
        at + 2 <= buf@.len(),
    ensures
        r == be16(buf@[at as int], buf@[at + 1]),
{
    NetworkEndian::read_u16(&buf[at..])
}

/// Relies on byteorder's `NetworkEndian::write_u16`: `n` written big-endian
/// into the two bytes at `at`.
#[verifier::external_body]
fn write_be16(buf: &mut [u8], at: usize, n: u16)
    requires
        at + 2 <= old(buf)@.len(),
    ensures
        final(buf)@ == old(buf)@.update(at as int, (n / 256) as u8).update(at + 1, (n % 256) as u8),
{
    NetworkEndian::write_u16(&mut buf[at..], n)
}

impl UdpHeader {
    /// The source port.
    pub closed spec fn spec_src_port(&self) -> u16 {
        self.src_port
    }

    /// The destination port.
    pub closed spec fn spec_dest_port(&self) -> u16 {
        self.dest_port
    }

    /// Creates a UDP header.
    pub fn new(src_port: u16, dest_port: u16) -> (r: UdpHeader)
        ensures
            r.spec_src_port() == src_port,
            r.spec_dest_port() == dest_port,
    {
        UdpHeader { src_port, dest_port }
    }

    /// Returns the source port stored in the target UDP header.
    pub fn src_port(&self) -> (r: u16)
        ensures
            r == self.spec_src_port(),
    {
        self.src_port
    }

    /// Returns the destination port stored in the target UDP header.
    pub fn dest_port(&self) -> (r: u16)
        ensures
            r == self.spec_dest_port(),
    {
        self.dest_port
    }

    /// Returns the size of the target UDP header (in bytes).
    pub fn size(&self) -> (r: usize)
        ensures
            r == UDP_HEADER_SIZE,
    {
        UDP_HEADER_SIZE
    }

    /// Computes the checksum of a UDP datagram: the 16-bit one's complement
    /// of the one's complement sum of a pseudo header of information from the
    /// IP header, the UDP header, and the data, padded with a zero octet at
    /// the end if necessary to make a multiple of two octets.
    pub fn checksum(ipv4_hdr: &Ipv4Header, udp_hdr: &[u8], data: &[u8]) -> (r: u16)
        requires
            udp_hdr@.len() == UDP_HEADER_SIZE,
            data@.len() <= u16::MAX,
        ensures
            r == spec_checksum(
                ipv4_hdr.spec_src_addr(),
                ipv4_hdr.spec_dest_addr(),
                udp_hdr@,
                data@,
            ),
    {
        let src: [u8; 4] = ipv4_hdr.get_src_addr();
        let dst: [u8; 4] = ipv4_hdr.get_dest_addr();
        let n: usize = data.len();
        let ghost total: int = checksum_sum(src@, dst@, udp_hdr@, data@);
        proof {
            lemma_word_sum_bound(data@);
            assert(data@.subrange(0, n as int) =~= data@);
        }
        let mut state: u32 = 0xffff;
        state = state + read_be16(&src, 0) as u32;
        state = state + read_be16(&src, 2) as u32;
        state = state + read_be16(&dst, 0) as u32;
        state = state + read_be16(&dst, 2) as u32;
        state = state + IP_PROTOCOL_UDP as u32;
        state = state + (udp_hdr.len() + n) as u32;
        state = state + read_be16(udp_hdr, 0) as u32;
        state = state + read_be16(udp_hdr, 2) as u32;
        state = state + read_be16(udp_hdr, 4) as u32;
        let mut i: usize = 0;
        while i + 1 < n
            invariant
                i <= n,
                n == data@.len(),
                n <= u16::MAX,
                total == checksum_sum(src@, dst@, udp_hdr@, data@),
                state + word_sum(data@.subrange(i as int, n as int)) == total,
                2 * word_sum(data@) <= 0xffff * (n + 1),
                0 <= word_sum(data@.subrange(i as int, n as int)),
                total <= u32::MAX,
            decreases n - i,
        {
            proof {
                lemma_word_sum_step(data@, i as int);
                lemma_word_sum_bound(data@.subrange(i + 2, n as int));
            }
            state = state + (256 * (data[i] as u32) + data[i + 1] as u32);
            i = i + 2;
        }
        if i < n {
            state = state + 256 * (data[i] as u32);
        }
        while state > 0xffff
            invariant
                fold16(state as int) == fold16(total),
            decreases state,
        {
            state = state - 0xffff;
        }
        (0xffff - state) as u16
    }

    /// Parses a byte slice into a UDP header and the payload that follows it.
    pub fn parse_from_slice<'a>(
        ipv4_hdr: &Ipv4Header,
        buf: &'a [u8],
        checksum_offload: bool,
    ) -> (r: Result<(UdpHeader, &'a [u8]), Fail>)
        ensures
            match parse_spec(
                ipv4_hdr.spec_src_addr(),
                ipv4_hdr.spec_dest_addr(),
                buf@,
                checksum_offload,
            ) {
                None => fails_with(r, EBADMSG),
                Some((sp, dp)) => r matches Ok((h, payload)) && {
                    &&& h.spec_src_port() == sp
                    &&& h.spec_dest_port() == dp
                    &&& payload@ == buf@.subrange(UDP_HEADER_SIZE as int, buf@.len() as int)
                },
            },
    {
        // Malformed header.
        if buf.len() < UDP_HEADER_SIZE {
            return Err(Fail::new(EBADMSG, "UDP segment too small"));
        }
        let (hdr_buf, payload_buf): (&[u8], &[u8]) = buf.split_at(UDP_HEADER_SIZE);
        let src_port: u16 = read_be16(hdr_buf, 0);
        let dest_port: u16 = read_be16(hdr_buf, 2);
        let length: usize = read_be16(hdr_buf, 4) as usize;
        if length != buf.len() {
            return Err(Fail::new(EBADMSG, "UDP length mismatch"));
        }
        // Checksum payload.
        if !checksum_offload {
            let checksum: u16 = read_be16(hdr_buf, 6);
            // A zero checksum means that the sender did not compute one.
            if checksum != 0 && checksum != Self::checksum(ipv4_hdr, hdr_buf, payload_buf) {
                return Err(Fail::new(EBADMSG, "UDP checksum mismatch"));
            }
        }
        Ok((UdpHeader::new(src_port, dest_port), payload_buf))
    }

    /// Parses a buffer into a UDP header and a copy of its payload.
    pub fn parse(ipv4_hdr: &Ipv4Header, buf: Vec<u8>, checksum_offload: bool) -> (r: Result<
        (UdpHeader, Vec<u8>),
        Fail,
    >)
        ensures
            match parse_spec(
                ipv4_hdr.spec_src_addr(),
                ipv4_hdr.spec_dest_addr(),
                buf@,
                checksum_offload,
            ) {
                None => fails_with(r, EBADMSG),
                Some((sp, dp)) => r matches Ok((h, payload)) && {
                    &&& h.spec_src_port() == sp
                    &&& h.spec_dest_port() == dp
                    &&& payload@ == buf@.subrange(UDP_HEADER_SIZE as int, buf@.len() as int)
                },
            },
    {
        match Self::parse_from_slice(ipv4_hdr, buf.as_slice(), checksum_offload) {
            Ok((udp_hdr, bytes)) => Ok((udp_hdr, slice_to_vec(bytes))),
            Err(e) => Err(e),
        }
    }

    /// Serializes the target UDP header into the first eight bytes of `buf`,
    /// for a datagram whose payload is `data`.
    pub fn serialize(&self, buf: &mut [u8], ipv4_hdr: &Ipv4Header, data: &[u8], checksum_offload: bool)
        requires
            old(buf)@.len() >= UDP_HEADER_SIZE,
            UDP_HEADER_SIZE + data@.len() <= u16::MAX,
        ensures
            final(buf)@ == header_bytes(
                self.spec_src_port(),
                self.spec_dest_port(),
                (UDP_HEADER_SIZE + data@.len()) as u16,
                serialized_checksum(
                    ipv4_hdr.spec_src_addr(),
                    ipv4_hdr.spec_dest_addr(),
                    self.spec_src_port(),
                    self.spec_dest_port(),
                    data@,
                    checksum_offload,
                ),
            ) + old(buf)@.subrange(UDP_HEADER_SIZE as int, old(buf)@.len() as int),
    {
        let length: u16 = (UDP_HEADER_SIZE + data.len()) as u16;
        write_be16(buf, 0, self.src_port);
        write_be16(buf, 2, self.dest_port);
        write_be16(buf, 4, length);
        let checksum: u16 = if checksum_offload {
            0
        } else {
            let (hdr, _): (&[u8], &[u8]) = buf.split_at(UDP_HEADER_SIZE);
            proof {
                let zero = header_bytes(self.src_port, self.dest_port, length, 0);
                assert(zero.subrange(0, 6) =~= hdr@.subrange(0, 6));
            }
            Self::checksum(ipv4_hdr, hdr, data)
        };
        write_be16(buf, 6, checksum);
        assert(buf@ =~= header_bytes(
            self.src_port,
            self.dest_port,
            length,
            checksum,
        ) + old(buf)@.subrange(UDP_HEADER_SIZE as int, old(buf)@.len() as int));
    }
}

/// A serialized header followed by its payload parses back to the same
/// ports, whether or not checksums were offloaded.
pub proof fn lemma_serialize_parse_round_trip(
    src: Seq<u8>,
    dst: Seq<u8>,
    src_port: u16,
    dest_port: u16,
    data: Seq<u8>,
    checksum_offload: bool,
    parse_offload: bool,
)
    requires
        src.len() == 4,
        dst.len() == 4,
        UDP_HEADER_SIZE + data.len() <= u16::MAX,
    ensures
        ({
            let length = (UDP_HEADER_SIZE + data.len()) as u16;
            let cs = serialized_checksum(src, dst, src_port, dest_port, data, checksum_offload);
            let wire = header_bytes(src_port, dest_port, length, cs) + data;
            &&& parse_spec(src, dst, wire, parse_offload) == Some((src_port, dest_port))
            &&& wire.subrange(UDP_HEADER_SIZE as int, wire.len() as int) == data
        }),
{
    let length = (UDP_HEADER_SIZE + data.len()) as u16;
    let cs = serialized_checksum(src, dst, src_port, dest_port, data, checksum_offload);
    let hdr = header_bytes(src_port, dest_port, length, cs);
    let wire = hdr + data;
    assert(wire.subrange(0, UDP_HEADER_SIZE as int) =~= hdr);
    assert(wire.subrange(UDP_HEADER_SIZE as int, wire.len() as int) =~= data);
    let zero = header_bytes(src_port, dest_port, length, 0);
    assert(checksum_sum(src, dst, hdr, data) == checksum_sum(src, dst, zero, data));
    assert(be16(hdr[6], hdr[7]) == cs as int);
}

} // verus!
