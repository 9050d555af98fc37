use peer_discovery::message::{Message, MessageError, PeerAddr, MSG_CAPACITY};

#[test]
fn capacity_is_one_kilobyte() {
    assert_eq!(MSG_CAPACITY, 1024);
}

#[test]
fn new_accepts_payload_at_capacity() {
    let dst = PeerAddr { ip: [10, 0, 0, 1], port: 9000 };
    let payload = vec![7u8; MSG_CAPACITY];
    let m = Message::new(dst, payload.clone()).unwrap();
    assert_eq!(m.dst(), dst);
    assert_eq!(m.payload(), &payload);
    assert_eq!(m.len(), MSG_CAPACITY);
}

#[test]
fn new_rejects_payload_over_capacity() {
    let dst = PeerAddr { ip: [10, 0, 0, 1], port: 9000 };
    let payload = vec![7u8; MSG_CAPACITY + 1];
    let e = Message::new(dst, payload).unwrap_err();
    assert_eq!(e, MessageError::PayloadTooLong);
}

#[test]
fn from_text_encodes_exact_bytes() {
    let dst = PeerAddr { ip: [10, 1, 2, 3], port: 4000 };
    let m = Message::from_text(dst, "hello peer").unwrap();
    assert_eq!(m.payload().as_slice(), b"hello peer");
    assert_eq!(m.len(), 10);
    assert_eq!(m.dst(), dst);
}

#[test]
fn from_text_rejects_oversized_text() {
    let dst = PeerAddr { ip: [10, 1, 2, 3], port: 4000 };
    let long = "x".repeat(MSG_CAPACITY + 1);
    let e = Message::from_text(dst, &long).unwrap_err();
    assert_eq!(e, MessageError::PayloadTooLong);
}

#[test]
fn from_text_counts_utf8_bytes_not_chars() {
    let dst = PeerAddr { ip: [10, 1, 2, 3], port: 4000 };
    // 600 two-byte characters encode to 1200 bytes, over the 1024 cap.
    let wide = "\u{00e9}".repeat(600);
    let e = Message::from_text(dst, &wide).unwrap_err();
    assert_eq!(e, MessageError::PayloadTooLong);
    // 500 of them fit.
    let narrow = "\u{00e9}".repeat(500);
    let m = Message::from_text(dst, &narrow).unwrap();
    assert_eq!(m.len(), 1000);
}
