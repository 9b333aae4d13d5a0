use safe_surf_core::crypto::{encrypt, CryptoError};
use safe_surf_core::transport::{EncryptedFrameCodec, TransportError};

#[test]
fn staged_frame_has_length_nonce_ciphertext_layout() {
    let mut c = EncryptedFrameCodec::new([0u8; 32]);
    c.stage_frame(b"ping", &[5u8; 24]).unwrap();
    let out = c.pending_output().to_vec();
    let ct = encrypt(&[0u8; 32], &[5u8; 24], b"ping").unwrap();
    assert_eq!(&out[..4], &((24 + ct.len()) as u32).to_be_bytes());
    assert_eq!(&out[4..28], &[5u8; 24]);
    assert_eq!(&out[28..], &ct[..]);
    c.clear_output();
    assert!(c.pending_output().is_empty());
}

#[test]
fn frames_round_trip_between_codecs() {
    let key = [9u8; 32];
    let mut tx = EncryptedFrameCodec::new(key);
    let mut rx = EncryptedFrameCodec::new(key);
    tx.stage_message(b"first").unwrap();
    tx.stage_message(b"").unwrap();
    tx.stage_message(b"third message").unwrap();
    let wire = tx.pending_output().to_vec();
    // Deliver in two pieces.
    rx.feed(&wire[..10]);
    assert!(rx.open_frame().unwrap().is_none());
    assert_eq!(rx.inbound_len(), 10);
    rx.feed(&wire[10..]);
    for expected in [&b"first"[..], b"", b"third message"] {
        assert!(!rx.pending_frame_is_malformed());
        let f = rx.open_frame().unwrap().unwrap();
        assert_eq!(f.plaintext, expected);
        rx.consume(f.ciphertext_len);
    }
    assert_eq!(rx.inbound_len(), 0);
    assert!(rx.open_frame().unwrap().is_none());
}

#[test]
fn frame_under_another_key_is_refused() {
    let mut tx = EncryptedFrameCodec::new([1u8; 32]);
    let mut rx = EncryptedFrameCodec::new([2u8; 32]);
    tx.stage_message(b"secret").unwrap();
    rx.feed(tx.pending_output());
    let before = rx.inbound_len();
    assert!(matches!(rx.open_frame(), Err(TransportError::Crypto(CryptoError::DecryptionFailed))));
    // Prefix and nonce are gone, the ciphertext is still buffered.
    assert_eq!(rx.inbound_len(), before - 28);
}

#[test]
fn frame_shorter_than_a_nonce_is_malformed() {
    let mut rx = EncryptedFrameCodec::new([0u8; 32]);
    rx.feed(&[0, 0, 0, 3, 1, 2]);
    assert!(!rx.pending_frame_is_malformed());
    assert!(rx.open_frame().unwrap().is_none());
    rx.feed(&[3]);
    assert!(rx.pending_frame_is_malformed());
    assert!(matches!(rx.open_frame(), Err(TransportError::MalformedFrame)));
    // The malformed frame is left in the buffer.
    assert_eq!(rx.inbound_len(), 7);
}

#[test]
fn zero_length_frame_is_refused_without_panic() {
    let mut rx = EncryptedFrameCodec::new([0u8; 32]);
    rx.feed(&[0u8, 0, 0, 0]);
    assert!(matches!(rx.open_frame(), Err(TransportError::MalformedFrame)));
}

#[test]
fn end_of_stream_is_clean_only_between_frames() {
    let mut tx = EncryptedFrameCodec::new([4u8; 32]);
    let mut rx = EncryptedFrameCodec::new([4u8; 32]);
    assert_eq!(rx.end_of_stream(), Ok(()));
    tx.stage_message(b"hello").unwrap();
    let wire = tx.pending_output().to_vec();
    rx.feed(&wire[..wire.len() - 1]);
    assert!(rx.open_frame().unwrap().is_none());
    assert_eq!(rx.end_of_stream(), Err(TransportError::ConnectionClosed));
    rx.feed(&wire[wire.len() - 1..]);
    let f = rx.open_frame().unwrap().unwrap();
    assert_eq!(f.plaintext, b"hello");
    rx.consume(f.ciphertext_len);
    assert_eq!(rx.end_of_stream(), Ok(()));
}

#[test]
fn frame_stream_reads_back_over_any_chunking() {
    let key = [7u8; 32];
    let messages: [&[u8]; 4] = [b"alpha", b"", b"a somewhat longer third message", b"z"];
    let mut tx = EncryptedFrameCodec::new(key);
    for m in messages {
        tx.stage_message(m).unwrap();
    }
    let wire = tx.pending_output().to_vec();
    for chunk in [1usize, 3, 7, 28, 64, wire.len()] {
        let mut rx = EncryptedFrameCodec::new(key);
        let mut got: Vec<Vec<u8>> = Vec::new();
        let mut pos = 0;
        loop {
            match rx.open_frame().unwrap() {
                Some(f) => {
                    got.push(f.plaintext.clone());
                    rx.consume(f.ciphertext_len);
                }
                None => {
                    if pos == wire.len() {
                        assert_eq!(rx.end_of_stream(), Ok(()));
                        break;
                    }
                    let end = (pos + chunk).min(wire.len());
                    rx.feed(&wire[pos..end]);
                    pos = end;
                }
            }
        }
        let expected: Vec<Vec<u8>> = messages.iter().map(|m| m.to_vec()).collect();
        assert_eq!(got, expected);
    }
}
