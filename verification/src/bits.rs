use vstd::prelude::*;

verus! {

use crate::error::DecodeError;
use vstd::arithmetic::div_mod::lemma_fundamental_div_mod_converse;
use vstd::arithmetic::power2::lemma2_to64;
use vstd::arithmetic::power2::lemma_pow2_strictly_increases;
use vstd::arithmetic::power2::lemma_pow2_unfold;
use vstd::arithmetic::power2::pow2;

/// The bit of `bytes` at absolute bit index `i`, counting bits within each
/// byte from the most significant to the least significant.
pub open spec fn bit_at(bytes: Seq<u8>, i: int) -> u8 {
    (bytes[i / 8] >> ((7 - (i % 8)) as u8)) & 1
}

/// The unsigned value of the `width` bits of `bytes` starting at absolute bit
/// index `start`, read most significant bit first.
pub open spec fn bits_value(bytes: Seq<u8>, start: int, width: nat) -> nat
    decreases width,
{
    if width == 0 {
        0
    } else {
        bits_value(bytes, start, (width - 1) as nat) * 2 + (bit_at(
            bytes,
            start + width - 1,
        ) as nat)
    }
}

/// A single bit is never more than one.
pub proof fn lemma_bit_at_le_one(bytes: Seq<u8>, i: int)
    ensures
        bit_at(bytes, i) <= 1,
{
    let b = bytes[i / 8];
    let sh = (7 - (i % 8)) as u8;
    assert((b >> sh) & 1 <= 1) by (bit_vector);
}

/// Law: a field of `width` bits never reaches `pow2(width)` — the bit-field
/// reader can never hand back a value outside the range of its declared width.
pub proof fn lemma_bits_value_bound(bytes: Seq<u8>, start: int, width: nat)
    ensures
        bits_value(bytes, start, width) < pow2(width),
    decreases width,
{
    if width == 0 {
        lemma2_to64();
    } else {
        lemma_bits_value_bound(bytes, start, (width - 1) as nat);
        lemma_bit_at_le_one(bytes, start + width - 1);
        lemma_pow2_unfold(width);
    }
}

/// Law: consecutive reads partition the bit stream.  Reading `w1` bits at
/// `start` and then `w2` bits exactly where the first read stopped recombines
/// into the single `w1 + w2`-bit field at `start`: no bit is skipped and none
/// is read twice.
pub proof fn lemma_bits_value_split(bytes: Seq<u8>, start: int, w1: nat, w2: nat)
    ensures
        bits_value(bytes, start, w1 + w2) == bits_value(bytes, start, w1) * pow2(w2)
            + bits_value(bytes, start + w1, w2),
    decreases w2,
{
    if w2 == 0 {
        lemma2_to64();
    } else {
        lemma_bits_value_split(bytes, start, w1, (w2 - 1) as nat);
        lemma_pow2_unfold(w2);
        let a = bits_value(bytes, start, w1);
        let p = pow2((w2 - 1) as nat);
        assert(a * (2 * p) == (a * p) * 2) by (nonlinear_arith);
    }
}

/// Sub-byte read position over a byte buffer: `byte` counts whole bytes
/// already passed, `bit` the bits already consumed inside byte `byte`.
#[derive(Clone, Copy, Debug, PartialEq, Eq, Structural)]
pub struct BitCursor {
    pub byte: usize,
    pub bit: usize,
}

impl BitCursor {
    /// A cursor is well formed when its sub-byte part names one of the eight
    /// bits of a byte.
    pub open spec fn wf(self) -> bool {
        self.bit < 8
    }

    /// The absolute bit index the cursor stands at.
    pub open spec fn index(self) -> int {
        8 * self.byte + self.bit
    }

    /// A cursor standing at the first bit of byte `byte`.
    pub fn at_byte(byte: usize) -> (r: Self)
        ensures
            r.wf(),
            r.byte == byte,
            r.bit == 0,
            r.index() == 8 * byte,
    {
        BitCursor { byte, bit: 0 }
    }
}

/// Reads the next `width` bits at `cur`, most significant bit first, and
/// advances the cursor by exactly `width` bits.  Fails with `InsufficientData`
/// at the cursor's byte when fewer bits remain in the buffer than requested.
pub fn read_bits(buf: &[u8], cur: BitCursor, width: usize) -> (r: Result<
    (u8, BitCursor),
    DecodeError,
>)
    requires
        cur.wf(),
        1 <= width <= 8,
    ensures
        cur.index() + width <= 8 * buf@.len() ==> ({
            &&& r matches Ok((v, next))
            &&& v as nat == bits_value(buf@, cur.index(), width as nat)
            &&& (v as nat) < pow2(width as nat)
            &&& next.wf()
            &&& next.index() == cur.index() + width
        }),
        cur.index() + width > 8 * buf@.len() ==> r == Err::<(u8, BitCursor), DecodeError>(
            DecodeError::InsufficientData { offset: cur.byte },
        ),
{
    let len = buf.len();
    if cur.byte >= len {
        return Err(DecodeError::InsufficientData { offset: cur.byte });
    }
    if len - cur.byte == 1 && cur.bit + width > 8 {
        return Err(DecodeError::InsufficientData { offset: cur.byte });
    }
    let ghost start = cur.index();
    proof {
        lemma2_to64();
    }
    let mut v: u8 = 0;
    let mut byte: usize = cur.byte;
    let mut bit: usize = cur.bit;
    let mut i: usize = 0;
    while i < width
        invariant
            1 <= width <= 8,
            i <= width,
            bit < 8,
            8 * byte + bit == start + i,
            start + width <= 8 * buf@.len(),
            v as nat == bits_value(buf@, start, i as nat),
            (v as nat) < pow2(i as nat),
        decreases width - i,
    {
        proof {
            lemma2_to64();
            if (i as nat) < 7 {
                lemma_pow2_strictly_increases(i as nat, 7);
            }
            lemma_fundamental_div_mod_converse(8 * byte + bit, 8, byte as int, bit as int);
        }
        let b: u8 = buf[byte];
        let sh: u8 = (7 - bit) as u8;
        let bitv: u8 = (b >> sh) & 1;
        proof {
            assert((b >> sh) & 1 <= 1) by (bit_vector);
            assert(bit_at(buf@, start + i) == bitv);
        }
        v = v * 2 + bitv;
        bit = bit + 1;
        if bit == 8 {
            bit = 0;
            byte = byte + 1;
        }
        i = i + 1;
    }
    Ok((v, BitCursor { byte, bit }))
}

} // verus!
