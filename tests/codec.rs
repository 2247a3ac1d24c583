use hpl_mailbox::error::ContractError;
use hpl_mailbox::message::Message;
use sha3::Digest;

fn sample() -> Message {
    Message {
        version: 3,
        nonce: 0x01020304,
        origin_domain: 26657,
        sender: (0..32u8).collect(),
        dest_domain: 11155111,
        recipient: (100..132u8).collect(),
        body: b"hello".to_vec(),
    }
}

#[test]
fn codec_round_trip() {
    let m = sample();
    let e = m.encode();
    assert_eq!(e.len(), 77 + 5);
    assert_eq!(&e[0..5], &[3, 1, 2, 3, 4]);
    assert_eq!(&e[5..9], &26657u32.to_be_bytes());
    assert_eq!(&e[41..45], &11155111u32.to_be_bytes());
    assert_eq!(Message::decode(&e), Ok(m));
}

#[test]
fn codec_round_trip_empty_body() {
    let mut m = sample();
    m.body = vec![];
    let e = m.encode();
    assert_eq!(e.len(), 77);
    assert_eq!(Message::decode(&e), Ok(m));
}

#[test]
fn decode_short_input_is_malformed() {
    assert_eq!(Message::decode(&vec![]), Err(ContractError::MalformedMessage));
    assert_eq!(Message::decode(&vec![1u8; 76]), Err(ContractError::MalformedMessage));
}

#[test]
fn id_is_keccak_of_encoding() {
    let m = sample();
    let id = m.id();
    assert_eq!(id.len(), 32);
    assert_ne!(id, m.encode());
    assert_eq!(id, sha3::Keccak256::digest(m.encode()).to_vec());
}

#[test]
fn id_is_deterministic() {
    assert_eq!(sample().id(), sample().id());
}

#[test]
fn id_changes_with_each_field() {
    let base = sample().id();
    let mut variants = Vec::new();
    let mut m = sample();
    m.version = 4;
    variants.push(m);
    let mut m = sample();
    m.nonce += 1;
    variants.push(m);
    let mut m = sample();
    m.origin_domain += 1;
    variants.push(m);
    let mut m = sample();
    m.sender[31] ^= 1;
    variants.push(m);
    let mut m = sample();
    m.dest_domain += 1;
    variants.push(m);
    let mut m = sample();
    m.recipient[0] ^= 1;
    variants.push(m);
    let mut m = sample();
    m.body.push(0);
    variants.push(m);
    for v in &variants {
        assert_ne!(v.id(), base);
        assert_ne!(v.encode(), sample().encode());
    }
}
