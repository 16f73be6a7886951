use lazy_bytes_cast::{
    byte_slice_from, bytes, bytes_cast, bytes_cast_lazy, bytes_from, copy_bytes, copy_bytes_lazy,
    from_bytes, to_bytes, Bits, Read, ReadBytes, ToBytesCast,
};

#[test]
fn round_trip_unsigned() {
    let v8: u8 = 200;
    assert_eq!(from_bytes::<u8, 1>(&bytes_from(&v8)), v8);
    let v16: u16 = 54321;
    assert_eq!(from_bytes::<u16, 2>(&bytes_from(&v16)), v16);
    let v32: u32 = 9999999;
    assert_eq!(from_bytes::<u32, 4>(&bytes_from(&v32)), v32);
    let v64: u64 = 72621647814787329;
    assert_eq!(from_bytes::<u64, 8>(&bytes_from(&v64)), v64);
    let v128: u128 = u128::MAX - 12345;
    assert_eq!(from_bytes::<u128, 16>(&bytes_from(&v128)), v128);
}

#[test]
fn round_trip_signed() {
    let v8: i8 = -100;
    assert_eq!(from_bytes::<i8, 1>(&bytes_from(&v8)), v8);
    let v16: i16 = -30000;
    assert_eq!(from_bytes::<i16, 2>(&bytes_from(&v16)), v16);
    let v32: i32 = -9999999;
    assert_eq!(from_bytes::<i32, 4>(&bytes_from(&v32)), v32);
    let v64: i64 = i64::MIN + 17;
    assert_eq!(from_bytes::<i64, 8>(&bytes_from(&v64)), v64);
    let v128: i128 = -170141183460469231731687303715884105727;
    assert_eq!(from_bytes::<i128, 16>(&bytes_from(&v128)), v128);
}

#[test]
fn round_trip_via_slice() {
    let v: u32 = 9999999;
    let view = byte_slice_from(&v);
    assert_eq!(view, [127u8, 150, 152, 0]);
    let back: Result<u32, ()> = bytes_cast(view.as_slice());
    assert_eq!(back, Ok(v));
}

#[test]
fn truncation_is_prefix_of_view() {
    let v: u32 = 9999999;
    let full = byte_slice_from(&v);
    let half: [u8; 2] = bytes_from(&v);
    let one: [u8; 1] = to_bytes(&v);
    assert_eq!(half, full[..2]);
    assert_eq!(one, full[..1]);
    let nothing: [u8; 0] = bytes_from(&v);
    assert_eq!(nothing, []);
}

#[test]
fn native_order_scenario() {
    let v: u32 = 9999999;
    let arr: [u8; 4] = bytes_from(&v);
    assert_eq!(arr, [127, 150, 152, 0]);
    assert_eq!(from_bytes::<u32, 4>(&arr), 9999999);
    assert_eq!(bytes(v), vec![127u8, 150, 152, 0]);
}

#[test]
fn cursor_exact_remaining() {
    let buffer = [1u8, 2, 3, 4, 5, 6, 7, 8, 9];

    let mut read = Read::<u32>::new(&buffer);
    assert_eq!(read.remaining(), 2);
    assert_eq!(read.next(), Some(u32::from_ne_bytes([1, 2, 3, 4])));
    assert_eq!(read.remaining(), 1);
    assert_eq!(read.next(), Some(u32::from_ne_bytes([5, 6, 7, 8])));
    assert_eq!(read.remaining(), 0);
    assert_eq!(read.next(), None);
    assert_eq!(read.next(), None);

    let read16 = Read::<u16>::new(&buffer);
    assert_eq!(read16.remaining(), 4);
    let read8 = Read::<u8>::new(&buffer);
    assert_eq!(read8.remaining(), 9);
}

#[test]
fn cursor_peek_does_not_advance() {
    let buffer = [0u8, 255, 255, 255, 1];
    let read = Read::<u32>::new(&buffer);
    assert_eq!(read.read(), Some(u32::from_ne_bytes([0, 255, 255, 255])));
    assert_eq!(read.read(), Some(u32::from_ne_bytes([0, 255, 255, 255])));
    assert_eq!(read.remaining(), 1);
    assert_eq!(read.read_unchecked(), u32::from_ne_bytes([0, 255, 255, 255]));
}

#[test]
fn cursor_advance_saturates() {
    let buffer = [1u8, 2, 3, 4];
    let read = Read::<u32>::new(&buffer);
    let past = read.advance(usize::MAX);
    assert_eq!(past.remaining(), 0);
    assert_eq!(past.read(), None);
    let still_past = past.advance(usize::MAX);
    assert_eq!(still_past.read(), None);

    let ahead = read.advance(1);
    assert_eq!(ahead.remaining(), 0);
    assert_eq!(ahead.read(), None);
}

#[test]
fn bits_index_wraps() {
    let w = Bits(0b100u32);
    assert!(w.get(2));
    assert!(w.get(34));
    assert_eq!(w.get(90), w.get(26));
    assert!(!w.get(90));

    let h = Bits(0x8001u16);
    for idx in 0..16u32 {
        assert_eq!(h.get(idx), h.get(idx + 16));
    }
}

#[test]
fn bits_toggle_twice_is_identity() {
    let samples = [0u16, 1, 0x8001, 0xffff, 12345];
    for &s in samples.iter() {
        for idx in [0u32, 1, 7, 15, 16, 90] {
            let w = Bits(s);
            assert_eq!(w.toggle(idx).toggle(idx).0, s);
        }
    }
}

#[test]
fn bits_set_unset_empty_reset() {
    let w = Bits(0u8);
    assert!(w.empty());
    let one = w.set(3);
    assert!(!one.empty());
    assert_eq!(one.0, 0b1000);
    assert_eq!(one.unset(3).0, 0);
    assert_eq!(one.set(3).0, 0b1000);
    assert_eq!(one.reset().0, 0);
    assert_eq!(one.len(), 8);
    assert_eq!(one.size(), 8);
}

#[test]
fn bits_flip_reverses_positions() {
    let w = Bits(1u8);
    assert_eq!(w.flip().0, 0x80);
    let v = Bits(0b1100_0000u8);
    assert_eq!(v.flip().0, 0b0000_0011);
    assert_eq!(v.flip().flip().0, v.0);
    let h = Bits(0x0001u16);
    assert_eq!(h.flip().0, 0x8000);
}

#[test]
fn bits_widest_type() {
    let mut w = Bits(0u128);
    assert!(w.empty());
    assert_eq!(w.len(), 128);

    w = w.set(127);
    assert!(w.get(127));
    assert!(w.get(255));
    assert_eq!(w.0, 1u128 << 127);

    w = w.toggle(127);
    assert!(w.empty());
}

#[test]
fn cursor_over_empty_buffer() {
    let empty: [u8; 0] = [];
    let mut read = Read::<u8>::new(&empty);
    assert_eq!(read.remaining(), 0);
    assert_eq!(read.read(), None);
    assert_eq!(read.next(), None);
}

#[test]
fn slice_cast_too_short_fails() {
    let bytes4 = [127u8, 150, 152, 0];
    let r: Result<u64, ()> = bytes_cast(&bytes4[..]);
    assert_eq!(r, Err(()));

    let empty: [u8; 0] = [];
    let r8: Result<u8, ()> = bytes_cast(&empty[..]);
    assert_eq!(r8, Err(()));

    let one = [7u8];
    let ok8: Result<u8, ()> = bytes_cast(&one[..]);
    assert_eq!(ok8, Ok(7));
}

#[test]
fn cast_lazy_reads_prefix() {
    let bytes6 = [127u8, 150, 152, 0, 9, 9];
    let v: u32 = bytes_cast_lazy(&bytes6[..]);
    assert_eq!(v, 9999999);
}

#[test]
fn copy_bytes_writes_prefix_only() {
    let mut buf = [9u8; 6];
    assert_eq!(copy_bytes(9999999u32, &mut buf[..]), Ok(()));
    assert_eq!(buf, [127, 150, 152, 0, 9, 9]);

    let mut short = [9u8; 3];
    assert_eq!(copy_bytes(9999999u32, &mut short[..]), Err(()));
    assert_eq!(short, [9, 9, 9]);

    let mut exact = [0u8; 2];
    copy_bytes_lazy(513u16, &mut exact[..]);
    assert_eq!(exact, [1, 2]);
}

#[test]
fn get_byte_in_and_out_of_range() {
    let v: u16 = 0x0201;
    assert_eq!(v.get_byte(0), Some(1));
    assert_eq!(v.get_byte(1), Some(2));
    assert_eq!(v.get_byte(2), None);
}

#[test]
fn read_value_consumes_front() {
    let storage = [1u8, 0, 2, 0, 3];
    let mut src: &[u8] = &storage[..];

    let a: Option<u16> = src.read_value();
    assert_eq!(a, Some(1));
    let b: Option<u16> = src.read_value();
    assert_eq!(b, Some(2));
    let c: Option<u16> = src.read_value();
    assert_eq!(c, None);
    assert_eq!(src, &[3u8][..]);

    let d: u8 = src.read_value_unchecked();
    assert_eq!(d, 3);
    assert!(src.is_empty());
}
