use byte_writer::encoded_len;
use byte_writer::ByteWriter;
use byte_writer::WriteSerializable;

/// Reads back one vint64 value from the front of `bytes`, following the
/// published wire format: a zero lead byte announces eight raw
/// little-endian bytes; otherwise the trailing zeros of the lead byte give
/// the total length, and the marker is shifted away.
fn decode_vint64(bytes: &[u8]) -> u64 {
    if bytes[0] == 0 {
        let mut v: u64 = 0;
        for i in 0..8 {
            v |= (bytes[1 + i] as u64) << (8 * i);
        }
        v
    } else {
        let len = bytes[0].trailing_zeros() as usize + 1;
        let mut q: u64 = 0;
        for i in 0..len {
            q |= (bytes[i] as u64) << (8 * i);
        }
        q >> len
    }
}

fn encode_vint64(value: u64) -> Vec<u8> {
    let mut buf: Vec<u8> = Vec::new();
    buf.write_usize(value as usize);
    buf
}

#[test]
fn encoded_len_boundaries() {
    assert_eq!(encoded_len(0), 1);
    assert_eq!(encoded_len(1), 1);
    assert_eq!(encoded_len(127), 1);
    assert_eq!(encoded_len(128), 2);
    assert_eq!(encoded_len((1 << 14) - 1), 2);
    assert_eq!(encoded_len(1 << 14), 3);
    assert_eq!(encoded_len((1 << 21) - 1), 3);
    assert_eq!(encoded_len(1 << 21), 4);
    assert_eq!(encoded_len((1 << 28) - 1), 4);
    assert_eq!(encoded_len(1 << 28), 5);
    assert_eq!(encoded_len((1 << 35) - 1), 5);
    assert_eq!(encoded_len(1 << 35), 6);
    assert_eq!(encoded_len((1 << 42) - 1), 6);
    assert_eq!(encoded_len(1 << 42), 7);
    assert_eq!(encoded_len((1 << 49) - 1), 7);
    assert_eq!(encoded_len(1 << 49), 8);
    assert_eq!(encoded_len((1 << 56) - 1), 8);
    assert_eq!(encoded_len(1 << 56), 9);
    assert_eq!(encoded_len(usize::MAX), 9);
}

#[test]
fn encoded_len_in_range_and_monotone() {
    let samples: Vec<usize> = vec![
        0,
        1,
        2,
        127,
        128,
        1000,
        16383,
        16384,
        (1 << 21) - 1,
        1 << 21,
        1 << 28,
        1 << 35,
        1 << 42,
        1 << 49,
        (1 << 56) - 1,
        1 << 56,
        usize::MAX - 1,
        usize::MAX,
    ];
    let mut previous: usize = 1;
    for &v in samples.iter() {
        let len = encoded_len(v);
        assert!(1 <= len && len <= 9);
        assert!(previous <= len);
        previous = len;
    }
}

#[test]
fn boundary_vectors() {
    assert_eq!(encode_vint64(0), vec![0x01]);
    assert_eq!(encode_vint64(127), vec![0xff]);
    assert_eq!(encode_vint64(128), vec![0x02, 0x02]);
    assert_eq!(encode_vint64((1 << 56) - 1).len(), 8);
    assert_eq!(
        encode_vint64(1 << 56),
        vec![0x00, 0x00, 0x00, 0x00, 0x00, 0x00, 0x00, 0x00, 0x01]
    );
    assert_eq!(
        encode_vint64(u64::MAX),
        vec![0x00, 0xff, 0xff, 0xff, 0xff, 0xff, 0xff, 0xff, 0xff]
    );
}

#[test]
fn round_trip() {
    let samples: Vec<u64> = vec![
        0,
        1,
        2,
        63,
        64,
        127,
        128,
        129,
        255,
        256,
        16383,
        16384,
        0x1234,
        (1 << 21) - 1,
        1 << 21,
        (1 << 28) - 1,
        1 << 28,
        (1 << 35) - 1,
        1 << 35,
        (1 << 42) - 1,
        1 << 42,
        (1 << 49) - 1,
        1 << 49,
        (1 << 56) - 1,
        1 << 56,
        (1 << 56) + 1,
        0x0123_4567_89ab_cdef,
        u64::MAX - 1,
        u64::MAX,
    ];
    for &v in samples.iter() {
        let encoded = encode_vint64(v);
        assert_eq!(encoded.len(), encoded_len(v as usize));
        assert_eq!(decode_vint64(&encoded), v);
    }
}

#[test]
fn encoding_is_deterministic() {
    let samples: Vec<u64> = vec![0, 1, 127, 128, 0x1234, 1 << 40, 1 << 56, u64::MAX];
    for &v in samples.iter() {
        assert_eq!(encode_vint64(v), encode_vint64(v));
    }
}

#[test]
fn encoding_is_injective() {
    let samples: Vec<u64> = vec![
        0,
        1,
        2,
        127,
        128,
        255,
        256,
        16383,
        16384,
        (1 << 56) - 1,
        1 << 56,
        u64::MAX,
    ];
    for i in 0..samples.len() {
        for j in 0..samples.len() {
            if i != j {
                assert_ne!(encode_vint64(samples[i]), encode_vint64(samples[j]));
            }
        }
    }
}

#[test]
fn write_bool_bytes() {
    let mut buf: Vec<u8> = Vec::new();
    buf.write_bool(true);
    assert_eq!(buf, vec![0x01]);
    let mut buf: Vec<u8> = Vec::new();
    buf.write_bool(false);
    assert_eq!(buf, vec![0x00]);
}

#[test]
fn write_fixed_width_little_endian() {
    let mut buf: Vec<u8> = Vec::new();
    buf.write_u16(0x1234);
    assert_eq!(buf, vec![0x34, 0x12]);

    let mut buf: Vec<u8> = Vec::new();
    buf.write_u32(0x1234_5678);
    assert_eq!(buf, vec![0x78, 0x56, 0x34, 0x12]);

    let mut buf: Vec<u8> = Vec::new();
    buf.write_u64(0x0102_0304_0506_0708);
    assert_eq!(buf, vec![0x08, 0x07, 0x06, 0x05, 0x04, 0x03, 0x02, 0x01]);
}

#[test]
fn write_u8_and_write_bytes() {
    let mut buf: Vec<u8> = Vec::new();
    buf.write_u8(0xab);
    buf.write_bytes(&[0x01, 0x02, 0x03]);
    buf.write_bytes(&[]);
    assert_eq!(buf, vec![0xab, 0x01, 0x02, 0x03]);
}

#[test]
fn write_serializable_value() {
    let mut buf: Vec<u8> = Vec::new();
    buf.write(0x0102_0304_0506_0708u64);
    assert_eq!(buf, vec![0x08, 0x07, 0x06, 0x05, 0x04, 0x03, 0x02, 0x01]);
}

#[test]
fn sink_is_append_only() {
    let mut buf: Vec<u8> = Vec::new();
    let mut snapshots: Vec<Vec<u8>> = Vec::new();

    buf.write_bool(true);
    snapshots.push(buf.clone());
    buf.write_u16(0x1234);
    snapshots.push(buf.clone());
    buf.write_u32(0xdead_beef);
    snapshots.push(buf.clone());
    buf.write_u64(u64::MAX);
    snapshots.push(buf.clone());
    buf.write_usize(128);
    snapshots.push(buf.clone());
    buf.write_u8(0x55);
    snapshots.push(buf.clone());
    buf.write_bytes(&[1, 2, 3]);
    snapshots.push(buf.clone());
    buf.write(7u64);
    snapshots.push(buf.clone());

    for snapshot in snapshots.iter() {
        assert!(snapshot.len() <= buf.len());
        assert_eq!(&buf[..snapshot.len()], &snapshot[..]);
    }
}
