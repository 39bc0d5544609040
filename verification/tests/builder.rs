use dot11::bits::{read_bits, BitCursor};
use dot11::control::FrameControl;
use dot11::error::DecodeError;
use dot11::frame::{Addr, Dot11Frame, Payload};
use dot11::uints::{U1, U2, U4};

fn sample_fc() -> FrameControl {
    FrameControl {
        version: U2::new(0),
        ftype: U2::new(2),
        subtype: U4::new(8),
        to_ds: U1::new(1),
        from_ds: U1::new(0),
        more_fragments: U1::new(0),
        retry: U1::new(1),
        power_mgmt: U1::new(0),
        more_data: U1::new(0),
        wep: U1::new(0),
        order: U1::new(0),
    }
}

#[test]
fn builder_round_trip() {
    let fc = sample_fc();
    let a1 = Addr::new([1, 1, 1, 1, 1, 1]);
    let a2 = Addr::new([2, 2, 2, 2, 2, 2]);
    let a3 = Addr::new([3, 3, 3, 3, 3, 3]);
    let a4 = Addr::new([4, 4, 4, 4, 4, 4]);
    let frame = Dot11Frame::new(fc, 1234, a1, a2, a3, a4, 0x1F2E, Payload::Unknown, 0xBEEF);
    assert_eq!(frame.fc, sample_fc());
    assert_eq!(frame.fc.version.value(), 0);
    assert_eq!(frame.fc.ftype.value(), 2);
    assert_eq!(frame.fc.subtype.value(), 8);
    assert_eq!(frame.duration, 1234);
    assert_eq!(frame.addr1.bytes, [1, 1, 1, 1, 1, 1]);
    assert_eq!(frame.addr2.bytes, [2, 2, 2, 2, 2, 2]);
    assert_eq!(frame.addr3.bytes, [3, 3, 3, 3, 3, 3]);
    assert_eq!(frame.addr4.bytes, [4, 4, 4, 4, 4, 4]);
    assert_eq!(frame.seq_control, 0x1F2E);
    assert_eq!(frame.payload, Payload::Unknown);
    assert_eq!(frame.crc, 0xBEEF);
}

#[test]
fn setters_replace_exactly_their_fields() {
    let fc = sample_fc();
    let a = Addr::new([0, 0, 0, 0, 0, 0]);
    let frame = Dot11Frame::new(fc, 1, a, a, a, a, 2, Payload::Unknown, 3);

    let replaced_fc = FrameControl {
        version: U2::new(1),
        ..sample_fc()
    };
    let b1 = Addr::new([10, 11, 12, 13, 14, 15]);
    let b2 = Addr::new([20, 21, 22, 23, 24, 25]);
    let b3 = Addr::new([30, 31, 32, 33, 34, 35]);
    let b4 = Addr::new([40, 41, 42, 43, 44, 45]);

    let frame = frame
        .set_fc(replaced_fc)
        .set_addrs(b1, b2, b3, b4)
        .set_duration(700)
        .set_seq_control(900)
        .set_crc(0x0102);

    assert_eq!(frame.fc.version.value(), 1);
    assert_eq!(frame.fc.ftype.value(), 2);
    assert_eq!(frame.duration, 700);
    assert_eq!(frame.addr1.bytes, [10, 11, 12, 13, 14, 15]);
    assert_eq!(frame.addr2.bytes, [20, 21, 22, 23, 24, 25]);
    assert_eq!(frame.addr3.bytes, [30, 31, 32, 33, 34, 35]);
    assert_eq!(frame.addr4.bytes, [40, 41, 42, 43, 44, 45]);
    assert_eq!(frame.seq_control, 900);
    assert_eq!(frame.payload, Payload::Unknown);
    assert_eq!(frame.crc, 0x0102);
}

#[test]
fn width_tagged_values_round_trip() {
    assert_eq!(U1::new(0).value(), 0);
    assert_eq!(U1::new(1).value(), 1);
    assert_eq!(U2::new(3).value(), 3);
    assert_eq!(U4::new(15).value(), 15);
    assert_eq!(U4::new(9).value(), 9);
}

#[test]
fn bit_reader_partitions_a_byte() {
    // 0xB2 = 1011 0010 read as 4 + 2 + 2 bits, most significant first
    let buf: [u8; 1] = [0xB2];
    let (v1, cur) = read_bits(&buf, BitCursor { byte: 0, bit: 0 }, 4).unwrap();
    let (v2, cur) = read_bits(&buf, cur, 2).unwrap();
    let (v3, cur) = read_bits(&buf, cur, 2).unwrap();
    assert_eq!(v1, 0b1011);
    assert_eq!(v2, 0b00);
    assert_eq!(v3, 0b10);
    assert_eq!(cur.byte, 1);
    assert_eq!(cur.bit, 0);
    // no gap and no overlap: the three reads recombine into the whole byte
    assert_eq!((v1 as u16) * 16 + (v2 as u16) * 4 + (v3 as u16), 0xB2);
}

#[test]
fn bit_reader_crosses_a_byte_boundary() {
    // last bit of the first byte followed by the first bit of the second
    let buf: [u8; 2] = [0x01, 0x80];
    let (v, cur) = read_bits(&buf, BitCursor { byte: 0, bit: 7 }, 2).unwrap();
    assert_eq!(v, 0b11);
    assert_eq!(cur.byte, 1);
    assert_eq!(cur.bit, 1);
}

#[test]
fn bit_reader_values_stay_in_range() {
    let widths: [usize; 3] = [1, 2, 4];
    let mut b: usize = 0;
    while b < 256 {
        let buf: [u8; 1] = [b as u8];
        let mut w: usize = 0;
        while w < widths.len() {
            let width: usize = widths[w];
            let mut bit: usize = 0;
            while bit + width <= 8 {
                let (v, cur) =
                    read_bits(&buf, BitCursor { byte: 0, bit }, width).unwrap();
                assert!((v as usize) < (1usize << width));
                assert_eq!(cur.byte * 8 + cur.bit, bit + width);
                bit += 1;
            }
            w += 1;
        }
        b += 1;
    }
}

#[test]
fn bit_reader_insufficient_data() {
    let r = read_bits(&[], BitCursor { byte: 0, bit: 0 }, 1);
    assert_eq!(r, Err(DecodeError::InsufficientData { offset: 0 }));
    let r = read_bits(&[0xFF], BitCursor { byte: 0, bit: 1 }, 8);
    assert_eq!(r, Err(DecodeError::InsufficientData { offset: 0 }));
    let r = read_bits(&[0xFF], BitCursor { byte: 1, bit: 0 }, 1);
    assert_eq!(r, Err(DecodeError::InsufficientData { offset: 1 }));
}
