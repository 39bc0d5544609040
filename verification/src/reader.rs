use vstd::prelude::*;

verus! {

use crate::error::DecodeError;
use crate::frame::Addr;

/// The big-endian 16-bit value held by the two bytes of `bytes` at byte
/// offset `pos`.
pub open spec fn be16(bytes: Seq<u8>, pos: int) -> u16 {
    (bytes[pos] * 256 + bytes[pos + 1]) as u16
}

/// Reads a big-endian 16-bit integer at byte offset `pos` and returns it with
/// the cursor advanced by exactly two bytes.  Fails with `InsufficientData`
/// at `pos` when fewer than two bytes remain.
pub fn read_u16_be(buf: &[u8], pos: usize) -> (r: Result<(u16, usize), DecodeError>)
    requires
        pos <= buf@.len(),
    ensures
        pos + 2 <= buf@.len() ==> r == Ok::<(u16, usize), DecodeError>(
            (be16(buf@, pos as int), (pos + 2) as usize),
        ),
        pos + 2 > buf@.len() ==> r == Err::<(u16, usize), DecodeError>(
            DecodeError::InsufficientData { offset: pos },
        ),
{
    if buf.len() - pos < 2 {
        return Err(DecodeError::InsufficientData { offset: pos });
    }
    let hi: u8 = buf[pos];
    let lo: u8 = buf[pos + 1];
    let value: u16 = (hi as u16) * 256 + (lo as u16);
    Ok((value, pos + 2))
}

/// Reads the six raw bytes of a hardware address at byte offset `pos` and
/// returns them with the cursor advanced by exactly six bytes.  Fails with
/// `InsufficientData` at `pos` when fewer than six bytes remain.
pub fn read_addr(buf: &[u8], pos: usize) -> (r: Result<(Addr, usize), DecodeError>)
    requires
        pos <= buf@.len(),
    ensures
        pos + 6 <= buf@.len() ==> ({
            &&& r matches Ok((addr, next))
            &&& addr@ == buf@.subrange(pos as int, pos + 6)
            &&& next == pos + 6
        }),
        pos + 6 > buf@.len() ==> r == Err::<(Addr, usize), DecodeError>(
            DecodeError::InsufficientData { offset: pos },
        ),
{
    if buf.len() - pos < 6 {
        return Err(DecodeError::InsufficientData { offset: pos });
    }
    let bytes: [u8; 6] = [buf[pos], buf[pos + 1], buf[pos + 2], buf[pos + 3], buf[pos + 4], buf[pos
        + 5]];
    proof {
        assert(bytes@ =~= buf@.subrange(pos as int, pos + 6));
    }
    Ok((Addr { bytes }, pos + 6))
}

} // verus!
