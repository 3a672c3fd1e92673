use bytes::{Bytes, BytesMut};
use compio::buffer::pinned::{lies_within, PinnedBuffer, PinnedBufferMut};
use compio::text::{append_byte_list, append_decimal, append_hex};

#[test]
fn shared_bytes_are_kept() {
    for bytes in [&b""[..], &b"short"[..], &[7u8; 100][..]] {
        let mut buffer = Bytes::from(bytes);
        assert_eq!(buffer.bytes(), bytes);
        assert_eq!(buffer.bytes(), bytes);
        let taken = buffer.take();
        assert_eq!(taken, bytes);
        assert_eq!(buffer.bytes(), bytes);
    }
}

#[test]
fn small_buffers_are_moved_out_of_themselves() {
    let mut buffer = Bytes::from(&b"short"[..]);
    let first = buffer.bytes().as_ptr() as usize;
    let moved = vec![buffer];
    let mut buffer = moved.into_iter().next().unwrap();
    assert_eq!(buffer.bytes().as_ptr() as usize, first);
    let mut buffer = BytesMut::from(&b"short"[..]);
    let first = buffer.bytes_mut().as_ptr() as usize;
    let moved = vec![buffer];
    let mut buffer = moved.into_iter().next().unwrap();
    assert_eq!(buffer.bytes().as_ptr() as usize, first);
}

#[test]
fn pinned_bytes_stay_where_they_are() {
    for length in [1usize, 31, 32, 100] {
        let mut buffer = Bytes::from(vec![7u8; length]);
        let first = (&buffer[..]).as_ptr() as usize;
        assert_eq!(buffer.bytes().as_ptr() as usize, first);
        let mut buffer = Bytes::from(&vec![7u8; length][..]);
        let first = buffer.bytes().as_ptr() as usize;
        assert_eq!(buffer.bytes().as_ptr() as usize, first);
        let mut buffer = BytesMut::from(&vec![7u8; length][..]);
        let first = buffer.bytes_mut().as_ptr() as usize;
        buffer.bytes_mut()[0] = 8;
        assert_eq!(buffer.bytes_mut().as_ptr() as usize, first);
        assert_eq!(buffer.bytes().as_ptr() as usize, first);
        assert_eq!(buffer.bytes()[0], 8);
    }
}

#[test]
fn taking_captures_the_memory() {
    for length in [1usize, 31, 32, 100] {
        let mut buffer = Bytes::from(&vec![7u8; length][..]);
        let place = buffer.bytes().as_ptr() as usize;
        let taken = buffer.take();
        assert_eq!((&taken[..]).as_ptr() as usize, place);
        drop(buffer);
        assert_eq!(&taken[..], &vec![7u8; length][..]);
        let mut buffer = BytesMut::from(&vec![7u8; length][..]);
        let place = buffer.bytes_mut().as_ptr() as usize;
        let taken = buffer.take();
        assert_eq!((&taken[..]).as_ptr() as usize, place);
        drop(buffer);
        assert_eq!(&taken[..], &vec![7u8; length][..]);
    }
}

#[test]
fn owned_bytes_are_written_and_taken() {
    for length in [0usize, 5, 100] {
        let mut buffer = BytesMut::from(vec![1u8; length]);
        assert_eq!(buffer.bytes(), &vec![1u8; length][..]);
        for byte in buffer.bytes_mut() {
            *byte += 1;
        }
        assert_eq!(buffer.bytes(), &vec![2u8; length][..]);
        let taken = buffer.take();
        assert_eq!(&taken[..], &vec![2u8; length][..]);
        assert_eq!(buffer.bytes(), &[] as &[u8]);
    }
}

#[test]
fn addresses_within_a_container() {
    assert!(lies_within(16, 16, 48));
    assert!(lies_within(47, 16, 48));
    assert!(!lies_within(48, 16, 48));
    assert!(!lies_within(15, 16, 48));
}

#[test]
fn numbers_as_text() {
    let mut text = String::from("=");
    append_hex(&mut text, 0xdead_beef);
    append_decimal(&mut text, 4_294_967_295);
    append_decimal(&mut text, 0);
    assert_eq!(text, "=0xdeadbeef42949672950");
    for value in [0, 9, 10, 15, 16, 255, 256, 1000, u32::MAX] {
        let mut text = String::new();
        append_hex(&mut text, value);
        text.push(' ');
        append_decimal(&mut text, value);
        assert_eq!(text, format!("{:#x} {}", value, value));
    }
    let mut text = String::new();
    append_byte_list(&mut text, &[1, 20, 255]);
    assert_eq!(text, "1, 20, 255");
}
