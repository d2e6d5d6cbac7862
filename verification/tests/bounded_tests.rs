use netdev::bounded::BoundedBuf;
use netdev::errors::DeviceError;

#[test]
fn buffer_rejects_content_over_capacity() {
    let r = BoundedBuf::new(4, &[1, 2, 3, 4, 5]);
    assert_eq!(r.unwrap_err(), DeviceError::ConfigurationError);
}

#[test]
fn buffer_accepts_content_at_capacity() {
    let b = BoundedBuf::new(4, &[9, 8, 7, 6]).unwrap();
    assert_eq!(b.capacity(), 4);
    assert_eq!(b.len(), 4);
    assert_eq!(b.content(), vec![9, 8, 7, 6]);
}

#[test]
fn buffer_zero_pads_to_capacity() {
    let b = BoundedBuf::new(8, b"abc").unwrap();
    assert_eq!(b.capacity(), 8);
    assert_eq!(b.len(), 3);
    assert_eq!(b.content(), b"abc".to_vec());
    assert_eq!(b.as_padded_bytes().as_slice(), &[b'a', b'b', b'c', 0, 0, 0, 0, 0]);
}

#[test]
fn buffer_clone_copies_content_and_capacity() {
    let b = BoundedBuf::new(6, &[1, 2]).unwrap();
    let c = b.clone_buf();
    assert_eq!(c.capacity(), 6);
    assert_eq!(c.content(), vec![1, 2]);
}
