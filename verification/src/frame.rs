use vstd::prelude::*;

verus! {

use crate::control::FrameControl;
use crate::control::FrameControlView;
use crate::control::spec_frame_control;
use crate::error::DecodeError;
use crate::reader::be16;
use crate::reader::read_addr;
use crate::reader::read_u16_be;

/// A fixed six-byte hardware address, stored as an opaque byte sequence.
#[derive(Clone, Copy, Debug, PartialEq, Eq)]
pub struct Addr {
    pub bytes: [u8; 6],
}

impl View for Addr {
    type V = Seq<u8>;

    open spec fn view(&self) -> Seq<u8> {
        self.bytes@
    }
}

impl Addr {
    pub fn new(bytes: [u8; 6]) -> (r: Self)
        ensures
            r@ == bytes@,
            r.bytes == bytes,
    {
        Addr { bytes }
    }
}

/// Placeholder for the variable-length region between the fixed header and
/// the checksum.  The core never interprets those bytes; it only records that
/// the region exists, so this tag has a single variant.  A higher-layer
/// decoder may extend the variant set without touching the rest of the core.
#[derive(Clone, Copy, Debug, PartialEq, Eq, Structural)]
pub enum Payload {
    Unknown,
}

/// A fully decoded (or synthetically built) frame record: the fixed header,
/// the payload placeholder, and the two-byte checksum trailer.  All header
/// fields are always present, whatever the frame subtype.
#[derive(Clone, Debug, PartialEq, Eq)]
pub struct Dot11Frame {
    pub fc: FrameControl,
    pub duration: u16,
    pub addr1: Addr,
    pub addr2: Addr,
    pub addr3: Addr,
    pub addr4: Addr,
    pub seq_control: u16,
    pub payload: Payload,
    pub crc: u16,
}

/// Mathematical image of a `Dot11Frame`: each field as the plain value it
/// holds, addresses as byte sequences.
pub ghost struct FrameView {
    pub fc: FrameControlView,
    pub duration: u16,
    pub addr1: Seq<u8>,
    pub addr2: Seq<u8>,
    pub addr3: Seq<u8>,
    pub addr4: Seq<u8>,
    pub seq_control: u16,
    pub payload: Payload,
    pub crc: u16,
}

impl View for Dot11Frame {
    type V = FrameView;

    open spec fn view(&self) -> FrameView {
        FrameView {
            fc: self.fc@,
            duration: self.duration,
            addr1: self.addr1@,
            addr2: self.addr2@,
            addr3: self.addr3@,
            addr4: self.addr4@,
            seq_control: self.seq_control,
            payload: self.payload,
            crc: self.crc,
        }
    }
}

/// The whole decode as a function of the bytes alone.
///
/// Decode order: frame control (2 bytes), duration (2), the four addresses
/// (6 each), sequence control (2) — 30 bytes of fixed header — then the
/// payload region, whose span is the remainder less the two checksum bytes,
/// and finally the big-endian checksum.  On failure, the error names the
/// byte offset at which the failing read began; a remainder shorter than the
/// checksum is a `TruncatedFrame`, never a wrapped subtraction.
pub open spec fn spec_parse(bytes: Seq<u8>) -> Result<FrameView, DecodeError> {
    if bytes.len() < 2 {
        Err(DecodeError::InsufficientData { offset: bytes.len() as usize })
    } else if bytes.len() < 4 {
        Err(DecodeError::InsufficientData { offset: 2 })
    } else if bytes.len() < 10 {
        Err(DecodeError::InsufficientData { offset: 4 })
    } else if bytes.len() < 16 {
        Err(DecodeError::InsufficientData { offset: 10 })
    } else if bytes.len() < 22 {
        Err(DecodeError::InsufficientData { offset: 16 })
    } else if bytes.len() < 28 {
        Err(DecodeError::InsufficientData { offset: 22 })
    } else if bytes.len() < 30 {
        Err(DecodeError::InsufficientData { offset: 28 })
    } else if bytes.len() < 32 {
        Err(DecodeError::TruncatedFrame { offset: 30 })
    } else {
        Ok(
            (FrameView {
                fc: spec_frame_control(bytes, 0),
                duration: be16(bytes, 2),
                addr1: bytes.subrange(4, 10),
                addr2: bytes.subrange(10, 16),
                addr3: bytes.subrange(16, 22),
                addr4: bytes.subrange(22, 28),
                seq_control: be16(bytes, 28),
                payload: Payload::Unknown,
                crc: be16(bytes, bytes.len() - 2),
            }),
        )
    }
}

/// Law: decoding is deterministic.  The decoded frame is a function of the
/// buffer's bytes alone, so two buffers holding identical bytes decode to
/// identical results, successes and failures alike.
pub proof fn lemma_parse_deterministic(b1: Seq<u8>, b2: Seq<u8>)
    requires
        b1 == b2,
    ensures
        spec_parse(b1) == spec_parse(b2),
{
}

/// Law: a decode succeeds exactly on the buffers that hold the 30-byte fixed
/// header and the 2-byte checksum; in particular a 32-byte buffer (empty
/// payload) succeeds and a 31-byte buffer fails.
pub proof fn lemma_parse_ok_iff_min_len(bytes: Seq<u8>)
    ensures
        spec_parse(bytes) is Ok <==> bytes.len() >= 32,
{
}

/// Splits the `buf_len - pos` bytes that remain after the fixed header into
/// the payload span and the two-byte checksum: returns the payload length and
/// the byte offset of the checksum.  When fewer than two bytes remain the
/// split is impossible and the result is `TruncatedFrame` at `pos` — the
/// subtraction is never allowed to wrap.
pub fn split_payload(buf_len: usize, pos: usize) -> (r: Result<(usize, usize), DecodeError>)
    requires
        pos <= buf_len,
    ensures
        buf_len >= pos + 2 ==> r == Ok::<(usize, usize), DecodeError>(
            ((buf_len - pos - 2) as usize, (buf_len - 2) as usize),
        ),
        buf_len < pos + 2 ==> r == Err::<(usize, usize), DecodeError>(
            DecodeError::TruncatedFrame { offset: pos },
        ),
{
    let remaining: usize = buf_len - pos;
    if remaining < 2 {
        return Err(DecodeError::TruncatedFrame { offset: pos });
    }
    Ok((remaining - 2, buf_len - 2))
}

impl Dot11Frame {
    /// Decodes one whole frame from `buf` and returns the record together
    /// with the final cursor position, which on success is the buffer's end.
    /// The result — the decoded frame or the failing stage's error — is
    /// exactly `spec_parse` of the buffer's bytes.
    pub fn parse(buf: &[u8]) -> (r: Result<(Dot11Frame, usize), DecodeError>)
        ensures
            r matches Ok((frame, rest)) ==> spec_parse(buf@) == Ok::<FrameView, DecodeError>(
                frame@,
            ) && rest == buf@.len(),
            r matches Err(e) ==> spec_parse(buf@) == Err::<FrameView, DecodeError>(e),
    {
        let (fc, pos): (FrameControl, usize) = match FrameControl::parse(buf, 0) {
            Ok(t) => t,
            Err(e) => {
                return Err(e);
            },
        };
        let (duration, pos): (u16, usize) = match read_u16_be(buf, pos) {
            Ok(t) => t,
            Err(e) => {
                return Err(e);
            },
        };
        let (addr1, pos): (Addr, usize) = match read_addr(buf, pos) {
            Ok(t) => t,
            Err(e) => {
                return Err(e);
            },
        };
        let (addr2, pos): (Addr, usize) = match read_addr(buf, pos) {
            Ok(t) => t,
            Err(e) => {
                return Err(e);
            },
        };
        let (addr3, pos): (Addr, usize) = match read_addr(buf, pos) {
            Ok(t) => t,
            Err(e) => {
                return Err(e);
            },
        };
        let (addr4, pos): (Addr, usize) = match read_addr(buf, pos) {
            Ok(t) => t,
            Err(e) => {
                return Err(e);
            },
        };
        let (seq_control, pos): (u16, usize) = match read_u16_be(buf, pos) {
            Ok(t) => t,
            Err(e) => {
                return Err(e);
            },
        };
        let (_payload_len, crc_pos): (usize, usize) = match split_payload(buf.len(), pos) {
            Ok(t) => t,
            Err(e) => {
                return Err(e);
            },
        };
        let (crc, pos): (u16, usize) = match read_u16_be(buf, crc_pos) {
            Ok(t) => t,
            Err(e) => {
                return Err(e);
            },
        };
        let frame = Dot11Frame {
            fc,
            duration,
            addr1,
            addr2,
            addr3,
            addr4,
            seq_control,
            payload: Payload::Unknown,
            crc,
        };
        Ok((frame, pos))
    }

    /// Builds a frame record directly from its field values; every field of
    /// the result is exactly the value supplied, with no normalization.
    pub fn new(
        fc: FrameControl,
        duration: u16,
        addr1: Addr,
        addr2: Addr,
        addr3: Addr,
        addr4: Addr,
        seq_control: u16,
        payload: Payload,
        crc: u16,
    ) -> (r: Self)
        ensures
            r.fc == fc,
            r.duration == duration,
            r.addr1 == addr1,
            r.addr2 == addr2,
            r.addr3 == addr3,
            r.addr4 == addr4,
            r.seq_control == seq_control,
            r.payload == payload,
            r.crc == crc,
    {
        Dot11Frame { fc, duration, addr1, addr2, addr3, addr4, seq_control, payload, crc }
    }

    /// Consumes the record and yields one identical to it except that the
    /// frame control is replaced by `fc`.
    pub fn set_fc(self, fc: FrameControl) -> (r: Self)
        ensures
            r.fc == fc,
            r.duration == self.duration,
            r.addr1 == self.addr1,
            r.addr2 == self.addr2,
            r.addr3 == self.addr3,
            r.addr4 == self.addr4,
            r.seq_control == self.seq_control,
            r.payload == self.payload,
            r.crc == self.crc,
    {
        let mut next = self;
        next.fc = fc;
        next
    }

    /// Consumes the record and yields one identical to it except that all
    /// four addresses are replaced at once — there is no partial-address
    /// replacement.
    pub fn set_addrs(self, addr1: Addr, addr2: Addr, addr3: Addr, addr4: Addr) -> (r: Self)
        ensures
            r.fc == self.fc,
            r.duration == self.duration,
            r.addr1 == addr1,
            r.addr2 == addr2,
            r.addr3 == addr3,
            r.addr4 == addr4,
            r.seq_control == self.seq_control,
            r.payload == self.payload,
            r.crc == self.crc,
    {
        let mut next = self;
        next.addr1 = addr1;
        next.addr2 = addr2;
        next.addr3 = addr3;
        next.addr4 = addr4;
        next
    }

    /// Consumes the record and yields one identical to it except that the
    /// duration is replaced by `duration`.
    pub fn set_duration(self, duration: u16) -> (r: Self)
        ensures
            r.fc == self.fc,
            r.duration == duration,
            r.addr1 == self.addr1,
            r.addr2 == self.addr2,
            r.addr3 == self.addr3,
            r.addr4 == self.addr4,
            r.seq_control == self.seq_control,
            r.payload == self.payload,
            r.crc == self.crc,
    {
        let mut next = self;
        next.duration = duration;
        next
    }

    /// Consumes the record and yields one identical to it except that the
    /// sequence control is replaced by `seq_control`.
    pub fn set_seq_control(self, seq_control: u16) -> (r: Self)
        ensures
            r.fc == self.fc,
            r.duration == self.duration,
            r.addr1 == self.addr1,
            r.addr2 == self.addr2,
            r.addr3 == self.addr3,
            r.addr4 == self.addr4,
            r.seq_control == seq_control,
            r.payload == self.payload,
            r.crc == self.crc,
    {
        let mut next = self;
        next.seq_control = seq_control;
        next
    }

    /// Consumes the record and yields one identical to it except that the
    /// checksum is replaced by `crc`.
    pub fn set_crc(self, crc: u16) -> (r: Self)
        ensures
            r.fc == self.fc,
            r.duration == self.duration,
            r.addr1 == self.addr1,
            r.addr2 == self.addr2,
            r.addr3 == self.addr3,
            r.addr4 == self.addr4,
            r.seq_control == self.seq_control,
            r.payload == self.payload,
            r.crc == crc,
    {
        let mut next = self;
        next.crc = crc;
        next
    }
}

} // verus!
