//! Decoder for the fixed 10-byte telemetry frames that a particulate-matter
//! sensor pushes over its serial link.
//!
//! A frame carries a header sentinel (0xAA), a command byte (0xC0 in active
//! mode), six payload bytes, a rolling checksum over the payload, and a tail
//! sentinel (0xAB).  Decoding validates the sentinels and the checksum and
//! extracts the PM2.5 and PM10 readings, which the sensor encodes
//! little-endian in tenths of a microgram per cubic metre.  The decoder is a
//! pure function of the frame: sourcing one aligned 10-byte window from the
//! serial port is the caller's responsibility.

use vstd::prelude::*;

verus! {

/// One frame, split into its positional fields, with no claim yet that any
/// of them is valid.
#[derive(Clone, Copy, Debug)]
pub struct RawResponse {
    /// Byte 0; 0xAA on a well-formed frame.
    pub header: u8,
    /// Byte 1; 0xC0 when the sensor pushes a reading in active mode.
    pub command: u8,
    /// Bytes 2 through 7: PM2.5 low, PM2.5 high, PM10 low, PM10 high, and two
    /// reserved bytes.
    pub data: [u8; 6],
    /// Byte 8: low 8 bits of the sum of the six data bytes.
    pub checksum: u8,
    /// Byte 9; 0xAB on a well-formed frame.
    pub tail: u8,
}

/// A decoded reading.  The sensor reports each concentration in tenths of a
/// microgram per cubic metre, so the physical value is the stored integer
/// divided by ten.
#[derive(Clone, Copy, Debug, PartialEq, Eq, Structural)]
pub struct Message {
    /// PM2.5 concentration, in tenths of a microgram per cubic metre.
    pub pm25_tenths: u16,
    /// PM10 concentration, in tenths of a microgram per cubic metre.
    pub pm10_tenths: u16,
}

/// Why a frame was rejected.  Exactly one failure is reported per attempt:
/// the sentinel check runs first, the checksum check only after it passed.
#[derive(Clone, Copy, Debug, PartialEq, Eq, Structural)]
pub enum DecodeError {
    /// The header, command or tail byte does not match its sentinel.  Carries
    /// the observed header and tail bytes for diagnostics.
    InvalidHeader { header: u8, tail: u8 },
    /// The sentinels matched but the payload failed its integrity check.
    /// `expected` is the checksum byte the frame carries, `actual` the sum
    /// actually computed over the payload.
    ChecksumMismatch { expected: u8, actual: u8 },
}

/// Sum of a byte sequence, as an unbounded integer.
pub open spec fn byte_sum(s: Seq<u8>) -> int
    decreases s.len(),
{
    if s.len() == 0 {
        0
    } else {
        byte_sum(s.drop_last()) + s.last()
    }
}

/// The rolling checksum of a 10-byte frame: the sum of the six payload bytes
/// (offsets 2 through 7), reduced modulo 256.
pub open spec fn checksum_of(frame: Seq<u8>) -> u8
    recommends
        frame.len() == 10,
{
    (byte_sum(frame.subrange(2, 8)) % 256) as u8
}

/// Whether the three sentinel bytes of a frame hold their fixed values.
pub open spec fn header_ok(frame: Seq<u8>) -> bool
    recommends
        frame.len() == 10,
{
    &&& frame[0] == 0xAA
    &&& frame[1] == 0xC0
    &&& frame[9] == 0xAB
}

/// The 16-bit value encoded little-endian by a low and a high byte.
pub open spec fn le_u16(lo: u8, hi: u8) -> u16 {
    (lo + hi * 256) as u16
}

/// The reading carried by a frame's payload, assuming the frame is valid.
pub open spec fn message_of(frame: Seq<u8>) -> Message
    recommends
        frame.len() == 10,
{
    Message { pm25_tenths: le_u16(frame[2], frame[3]), pm10_tenths: le_u16(frame[4], frame[5]) }
}

/// The full decoding contract: sentinels first, then the checksum, then the
/// little-endian extraction of the two readings.
pub open spec fn decode_spec(frame: Seq<u8>) -> Result<Message, DecodeError>
    recommends
        frame.len() == 10,
{
    if !header_ok(frame) {
        Err(DecodeError::InvalidHeader { header: frame[0], tail: frame[9] })
    } else if checksum_of(frame) != frame[8] {
        Err(DecodeError::ChecksumMismatch { expected: frame[8], actual: checksum_of(frame) })
    } else {
        Ok(message_of(frame))
    }
}

/// Computes the rolling checksum of the six payload bytes: their sum modulo
/// 256.  Wraparound is deliberate; it matches the sensor's checksum rule.
pub fn crc(buf: &[u8; 6]) -> (r: u8)
    ensures
        r == byte_sum(buf@) % 256,
{
    let mut s: u16 = 0;
    let mut i: usize = 0;
    while i < 6
        invariant
            i <= 6,
            s == byte_sum(buf@.subrange(0, i as int)),
            s <= i * 255,
        decreases 6 - i,
    {
        proof {
            assert(buf@.subrange(0, i + 1).drop_last() =~= buf@.subrange(0, i as int));
        }
        s = s + buf[i] as u16;
        i = i + 1;
    }
    proof {
        assert(buf@.subrange(0, 6) =~= buf@);
    }
    (s % 256) as u8
}

/// Checks the payload checksum of a split frame.  Fails with the frame's own
/// checksum byte as `expected` and the computed sum as `actual`.
pub fn check_crc(rsp: &RawResponse) -> (r: Result<(), DecodeError>)
    ensures
        r is Ok <==> byte_sum(rsp.data@) % 256 == rsp.checksum,
        r is Err ==> r == Err::<(), DecodeError>(
            DecodeError::ChecksumMismatch {
                expected: rsp.checksum,
                actual: (byte_sum(rsp.data@) % 256) as u8,
            },
        ),
{
    let actual_crc = crc(&rsp.data);
    if actual_crc == rsp.checksum {
        Ok(())
    } else {
        Err(DecodeError::ChecksumMismatch { expected: rsp.checksum, actual: actual_crc })
    }
}

/// Checks the three sentinel bytes of a split frame.  Fails with the observed
/// header and tail bytes.
pub fn check_header(rsp: &RawResponse) -> (r: Result<(), DecodeError>)
    ensures
        r is Ok <==> (rsp.header == 0xAA && rsp.command == 0xC0 && rsp.tail == 0xAB),
        r is Err ==> r == Err::<(), DecodeError>(
            DecodeError::InvalidHeader { header: rsp.header, tail: rsp.tail },
        ),
{
    if rsp.header == 0xAA && rsp.command == 0xC0 && rsp.tail == 0xAB {
        Ok(())
    } else {
        Err(DecodeError::InvalidHeader { header: rsp.header, tail: rsp.tail })
    }
}

/// Runs both validation steps in their fixed order: sentinels first, checksum
/// second, so a frame failing both reports the sentinel failure.
pub fn check_response(rsp: &RawResponse) -> (r: Result<(), DecodeError>)
    ensures
        r is Ok <==> ((rsp.header == 0xAA && rsp.command == 0xC0 && rsp.tail == 0xAB)
            && byte_sum(rsp.data@) % 256 == rsp.checksum),
        !(rsp.header == 0xAA && rsp.command == 0xC0 && rsp.tail == 0xAB) ==> r == Err::<
            (),
            DecodeError,
        >(DecodeError::InvalidHeader { header: rsp.header, tail: rsp.tail }),
        (rsp.header == 0xAA && rsp.command == 0xC0 && rsp.tail == 0xAB) && byte_sum(rsp.data@)
            % 256 != rsp.checksum ==> r == Err::<(), DecodeError>(
            DecodeError::ChecksumMismatch {
                expected: rsp.checksum,
                actual: (byte_sum(rsp.data@) % 256) as u8,
            },
        ),
{
    match check_header(rsp) {
        Ok(()) => check_crc(rsp),
        Err(e) => Err(e),
    }
}

/// Splits a 10-byte frame into its positional fields, without making any
/// guarantee about their validity.
pub fn read_response(buf: &[u8; 10]) -> (r: RawResponse)
    ensures
        r.header == buf@[0],
        r.command == buf@[1],
        r.data@ == buf@.subrange(2, 8),
        r.checksum == buf@[8],
        r.tail == buf@[9],
{
    let r = RawResponse {
        header: buf[0],
        command: buf[1],
        data: [buf[2], buf[3], buf[4], buf[5], buf[6], buf[7]],
        checksum: buf[8],
        tail: buf[9],
    };
    proof {
        assert(r.data@ =~= buf@.subrange(2, 8));
    }
    r
}

/// A low byte ORed with a high byte shifted left by eight is exactly the
/// little-endian value `lo + hi * 256`.
proof fn lemma_le_u16_bits(lo: u8, hi: u8)
    ensures
        ((lo as u16) | ((hi as u16) << 8)) == lo + hi * 256,
{
    assert(((lo as u16) | ((hi as u16) << 8)) == lo + hi * 256) by (bit_vector);
}

/// Decodes one frame: validates the sentinels, then the checksum, and on
/// success extracts the PM2.5 and PM10 readings in tenths of a microgram per
/// cubic metre.  Never panics: every 10-byte pattern yields a result.
pub fn parse_message(buf: &[u8; 10]) -> (r: Result<Message, DecodeError>)
    ensures
        r == decode_spec(buf@),
{
    let rsp = read_response(buf);
    match check_response(&rsp) {
        Err(e) => Err(e),
        Ok(()) => {
            let pm25: u16 = (buf[2] as u16) | ((buf[3] as u16) << 8);
            let pm10: u16 = (buf[4] as u16) | ((buf[5] as u16) << 8);
            proof {
                lemma_le_u16_bits(buf@[2], buf@[3]);
                lemma_le_u16_bits(buf@[4], buf@[5]);
            }
            Ok(Message { pm25_tenths: pm25, pm10_tenths: pm10 })
        },
    }
}

/// The checksum of a frame depends on its six payload bytes alone: two frames
/// that agree on offsets 2 through 7 have the same checksum, whatever their
/// header, command, tail and checksum bytes hold.
pub proof fn lemma_checksum_payload_only(a: Seq<u8>, b: Seq<u8>)
    requires
        a.len() == 10,
        b.len() == 10,
        a.subrange(2, 8) == b.subrange(2, 8),
    ensures
        checksum_of(a) == checksum_of(b),
{
}

} // verus!

