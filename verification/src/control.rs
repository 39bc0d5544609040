use vstd::prelude::*;

verus! {

use crate::bits::BitCursor;
use crate::bits::bits_value;
use crate::bits::read_bits;
use crate::error::DecodeError;
use crate::uints::U1;
use crate::uints::U2;
use crate::uints::U4;
use vstd::arithmetic::power2::lemma2_to64;

/// The frame-control field: the first two bytes of a frame, taken apart into
/// eleven sub-byte values.  No combination is rejected — every 2-bit, 4-bit
/// and 1-bit pattern is structurally valid.
#[derive(Clone, Copy, Debug, PartialEq, Eq, Structural)]
pub struct FrameControl {
    pub version: U2,
    pub ftype: U2,
    pub subtype: U4,
    pub to_ds: U1,
    pub from_ds: U1,
    pub more_fragments: U1,
    pub retry: U1,
    pub power_mgmt: U1,
    pub more_data: U1,
    pub wep: U1,
    pub order: U1,
}

/// Mathematical image of a `FrameControl`: each field as the plain value it
/// holds.
pub ghost struct FrameControlView {
    pub version: u8,
    pub ftype: u8,
    pub subtype: u8,
    pub to_ds: u8,
    pub from_ds: u8,
    pub more_fragments: u8,
    pub retry: u8,
    pub power_mgmt: u8,
    pub more_data: u8,
    pub wep: u8,
    pub order: u8,
}

impl View for FrameControl {
    type V = FrameControlView;

    open spec fn view(&self) -> FrameControlView {
        FrameControlView {
            version: self.version@,
            ftype: self.ftype@,
            subtype: self.subtype@,
            to_ds: self.to_ds@,
            from_ds: self.from_ds@,
            more_fragments: self.more_fragments@,
            retry: self.retry@,
            power_mgmt: self.power_mgmt@,
            more_data: self.more_data@,
            wep: self.wep@,
            order: self.order@,
        }
    }
}

/// The frame control decoded from the two bytes of `bytes` starting at byte
/// offset `pos`: in wire order, `version` (2 bits), `ftype` (2 bits),
/// `subtype` (4 bits) fill the first byte, then the eight flags, one bit
/// each, fill the second.
pub open spec fn spec_frame_control(bytes: Seq<u8>, pos: int) -> FrameControlView {
    FrameControlView {
        version: bits_value(bytes, 8 * pos, 2) as u8,
        ftype: bits_value(bytes, 8 * pos + 2, 2) as u8,
        subtype: bits_value(bytes, 8 * pos + 4, 4) as u8,
        to_ds: bits_value(bytes, 8 * pos + 8, 1) as u8,
        from_ds: bits_value(bytes, 8 * pos + 9, 1) as u8,
        more_fragments: bits_value(bytes, 8 * pos + 10, 1) as u8,
        retry: bits_value(bytes, 8 * pos + 11, 1) as u8,
        power_mgmt: bits_value(bytes, 8 * pos + 12, 1) as u8,
        more_data: bits_value(bytes, 8 * pos + 13, 1) as u8,
        wep: bits_value(bytes, 8 * pos + 14, 1) as u8,
        order: bits_value(bytes, 8 * pos + 15, 1) as u8,
    }
}

impl FrameControl {
    /// Decodes the frame control from the two bytes at byte offset `pos` and
    /// returns it with the cursor advanced by exactly two bytes.  Fails with
    /// `InsufficientData` at the offset where the bytes ran out when fewer
    /// than two bytes remain.
    pub fn parse(buf: &[u8], pos: usize) -> (r: Result<(FrameControl, usize), DecodeError>)
        requires
            pos <= buf@.len(),
        ensures
            pos + 2 <= buf@.len() ==> ({
                &&& r matches Ok((fc, next))
                &&& fc@ == spec_frame_control(buf@, pos as int)
                &&& next == pos + 2
            }),
            pos + 2 > buf@.len() ==> r == Err::<(FrameControl, usize), DecodeError>(
                DecodeError::InsufficientData { offset: buf@.len() as usize },
            ),
    {
        proof {
            lemma2_to64();
        }
        let cur = BitCursor::at_byte(pos);
        let (version, cur): (u8, BitCursor) = match read_bits(buf, cur, 2) {
            Ok(t) => t,
            Err(e) => {
                return Err(e);
            },
        };
        let (ftype, cur): (u8, BitCursor) = match read_bits(buf, cur, 2) {
            Ok(t) => t,
            Err(e) => {
                return Err(e);
            },
        };
        let (subtype, cur): (u8, BitCursor) = match read_bits(buf, cur, 4) {
            Ok(t) => t,
            Err(e) => {
                return Err(e);
            },
        };
        let (to_ds, cur): (u8, BitCursor) = match read_bits(buf, cur, 1) {
            Ok(t) => t,
            Err(e) => {
                return Err(e);
            },
        };
        let (from_ds, cur): (u8, BitCursor) = match read_bits(buf, cur, 1) {
            Ok(t) => t,
            Err(e) => {
                return Err(e);
            },
        };
        let (more_fragments, cur): (u8, BitCursor) = match read_bits(buf, cur, 1) {
            Ok(t) => t,
            Err(e) => {
                return Err(e);
            },
        };
        let (retry, cur): (u8, BitCursor) = match read_bits(buf, cur, 1) {
            Ok(t) => t,
            Err(e) => {
                return Err(e);
            },
        };
        let (power_mgmt, cur): (u8, BitCursor) = match read_bits(buf, cur, 1) {
            Ok(t) => t,
            Err(e) => {
                return Err(e);
            },
        };
        let (more_data, cur): (u8, BitCursor) = match read_bits(buf, cur, 1) {
            Ok(t) => t,
            Err(e) => {
                return Err(e);
            },
        };
        let (wep, cur): (u8, BitCursor) = match read_bits(buf, cur, 1) {
            Ok(t) => t,
            Err(e) => {
                return Err(e);
            },
        };
        let (order, cur): (u8, BitCursor) = match read_bits(buf, cur, 1) {
            Ok(t) => t,
            Err(e) => {
                return Err(e);
            },
        };
        let fc = FrameControl {
            version: U2::new(version),
            ftype: U2::new(ftype),
            subtype: U4::new(subtype),
            to_ds: U1::new(to_ds),
            from_ds: U1::new(from_ds),
            more_fragments: U1::new(more_fragments),
            retry: U1::new(retry),
            power_mgmt: U1::new(power_mgmt),
            more_data: U1::new(more_data),
            wep: U1::new(wep),
            order: U1::new(order),
        };
        Ok((fc, cur.byte))
    }
}

} // verus!
