use amalthea::error::Error;
use amalthea::signing::{matches_mac, sign, verify};
use amalthea::wire_message::WireMessage;

fn sample(ids: Vec<Vec<u8>>) -> WireMessage {
    WireMessage {
        zmq_identities: ids,
        header: br#"{"msg_id":"a1","msg_type":"kernel_info_request"}"#.to_vec(),
        parent_header: b"{}".to_vec(),
        metadata: b"{}".to_vec(),
        content: b"{}".to_vec(),
        buffers: Vec::new(),
    }
}

fn same(a: &WireMessage, b: &WireMessage) -> bool {
    a.zmq_identities == b.zmq_identities
        && a.header == b.header
        && a.parent_header == b.parent_header
        && a.metadata == b.metadata
        && a.content == b.content
        && a.buffers == b.buffers
}

#[test]
fn round_trip_with_key() {
    let key = b"secret".to_vec();
    let m = sample(vec![vec![0, 1, 2, 3, 4]]);
    let frames = m.encode(&key);
    assert_eq!(frames.len(), 7);
    assert_eq!(frames[1], b"<IDS|MSG>".to_vec());
    let back = WireMessage::decode(&frames, &key).unwrap();
    assert!(same(&m, &back));
}

#[test]
fn round_trip_with_buffers_and_no_identities() {
    let key = b"k".to_vec();
    let mut m = sample(Vec::new());
    m.buffers = vec![vec![9, 9], vec![]];
    let frames = m.encode(&key);
    assert_eq!(frames.len(), 8);
    let back = WireMessage::decode(&frames, &key).unwrap();
    assert!(same(&m, &back));
}

#[test]
fn empty_key_signs_with_empty_signature() {
    let m = sample(Vec::new());
    let frames = m.encode(&Vec::new());
    assert!(frames[1].is_empty());
    assert!(WireMessage::decode(&frames, &Vec::new()).is_ok());
}

#[test]
fn signature_is_hex_of_hmac_sha256() {
    // RFC 4231, test case 2
    let sig = sign(
        &b"Jefe".to_vec(),
        &b"what do ya want ".to_vec(),
        &b"for ".to_vec(),
        &Vec::new(),
        &b"nothing?".to_vec(),
    );
    assert_eq!(
        String::from_utf8(sig).unwrap(),
        "5bdcc146bf60754e6a042426089575c75a003f089d2739839dec58b964ec3843"
    );
}

#[test]
fn corrupted_signature_is_dropped_and_next_message_still_read() {
    let key = b"secret".to_vec();
    let m = sample(vec![b"client".to_vec()]);
    let mut frames = m.encode(&key);
    frames[2][0] = if frames[2][0] == b'0' { b'1' } else { b'0' };
    assert!(matches!(WireMessage::decode(&frames, &key), Err(Error::BadSignature)));
    let good = m.encode(&key);
    let back = WireMessage::decode(&good, &key).unwrap();
    assert!(same(&m, &back));
}

#[test]
fn changed_header_or_content_byte_is_refused() {
    let key = b"secret".to_vec();
    let m = sample(Vec::new());
    let mut frames = m.encode(&key);
    frames[2][3] ^= 1;
    assert!(matches!(WireMessage::decode(&frames, &key), Err(Error::BadSignature)));
    let mut frames = m.encode(&key);
    frames[5][0] ^= 1;
    assert!(matches!(WireMessage::decode(&frames, &key), Err(Error::BadSignature)));
}

#[test]
fn wrong_key_is_refused() {
    let m = sample(Vec::new());
    let frames = m.encode(&b"one".to_vec());
    assert!(matches!(WireMessage::decode(&frames, &b"two".to_vec()), Err(Error::BadSignature)));
}

#[test]
fn missing_delimiter() {
    let frames = vec![b"a".to_vec(), b"b".to_vec()];
    assert!(matches!(WireMessage::decode(&frames, &Vec::new()), Err(Error::MissingDelimiter)));
}

#[test]
fn too_few_frames_after_delimiter() {
    let frames = vec![b"id".to_vec(), b"<IDS|MSG>".to_vec(), b"".to_vec(), b"{}".to_vec()];
    assert!(matches!(
        WireMessage::decode(&frames, &Vec::new()),
        Err(Error::InsufficientFrames(2))
    ));
}

#[test]
fn signature_matches_hex_of_tag() {
    assert!(matches_mac(&b"0aff".to_vec(), &vec![0x0a, 0xff]));
    assert!(!matches_mac(&b"0AFF".to_vec(), &vec![0x0a, 0xff]));
    assert!(!matches_mac(&vec![0x0a, 0xff], &vec![0x0a, 0xff]));
    assert!(matches_mac(&Vec::new(), &Vec::new()));
}

#[test]
fn verify_accepts_exactly_the_signature() {
    let key = b"Jefe".to_vec();
    let h = b"what do ya want for nothing?".to_vec();
    let sig = sign(&key, &h, &Vec::new(), &Vec::new(), &Vec::new());
    assert!(verify(&key, &sig, &h, &Vec::new(), &Vec::new(), &Vec::new()));
    let mut bad = sig.clone();
    bad[63] = if bad[63] == b'3' { b'4' } else { b'3' };
    assert!(!verify(&key, &bad, &h, &Vec::new(), &Vec::new(), &Vec::new()));
    assert!(verify(&Vec::new(), &Vec::new(), &h, &Vec::new(), &Vec::new(), &Vec::new()));
    assert!(!verify(&Vec::new(), &sig, &h, &Vec::new(), &Vec::new(), &Vec::new()));
}
