use vstd::prelude::*;
use crate::bytes::push_range;
use crate::bytes::copy_range;
use crate::digest::keccak256;
use crate::digest::keccak256_of;
use crate::error::ContractError;

verus! {

/// Fixed width of the sender and recipient fields on the wire.
pub const ADDRESS_LEN: usize = 32;

/// Length of the fixed part of an encoded message, before the body.
pub const HEADER_LEN: usize = 77;

/// An interchain message.
#[derive(Debug, Clone, PartialEq, Eq)]
pub struct Message {
    pub version: u8,
    pub nonce: u32,
    pub origin_domain: u32,
    pub sender: Vec<u8>,
    pub dest_domain: u32,
    pub recipient: Vec<u8>,
    pub body: Vec<u8>,
}

/// The mathematical value of a [`Message`].
pub ghost struct MessageView {
    pub version: u8,
    pub nonce: u32,
    pub origin_domain: u32,
    pub sender: Seq<u8>,
    pub dest_domain: u32,
    pub recipient: Seq<u8>,
    pub body: Seq<u8>,
}

impl View for Message {
    type V = MessageView;

    open spec fn view(&self) -> MessageView {
        MessageView {
            version: self.version,
            nonce: self.nonce,
            origin_domain: self.origin_domain,
            sender: self.sender@,
            dest_domain: self.dest_domain,
            recipient: self.recipient@,
            body: self.body@,
        }
    }
}

/// Big-endian bytes of a `u32`.
pub open spec fn be_bytes(x: u32) -> Seq<u8> {
    seq![(x >> 24u32) as u8, (x >> 16u32) as u8, (x >> 8u32) as u8, x as u8]
}

/// The `u32` whose big-endian bytes are the first four of `b`.
pub open spec fn from_be(b: Seq<u8>) -> u32 {
    ((b[0] as u32) << 24u32) | ((b[1] as u32) << 16u32) | ((b[2] as u32) << 8u32) | (b[3] as u32)
}

/// A message can be encoded when both address fields have the wire width.
pub open spec fn is_valid(m: MessageView) -> bool {
    m.sender.len() == ADDRESS_LEN && m.recipient.len() == ADDRESS_LEN
}

/// The canonical encoding: the fields in order, integers big-endian.
pub open spec fn encoding(m: MessageView) -> Seq<u8> {
    seq![m.version] + be_bytes(m.nonce) + be_bytes(m.origin_domain) + m.sender + be_bytes(
        m.dest_domain,
    ) + m.recipient + m.body
}

/// What decoding `b` yields: `None` when `b` is shorter than the header.
pub open spec fn decoding(b: Seq<u8>) -> Option<MessageView> {
    if b.len() < HEADER_LEN {
        None
    } else {
        Some(
            MessageView {
                version: b[0],
                nonce: from_be(b.subrange(1, 5)),
                origin_domain: from_be(b.subrange(5, 9)),
                sender: b.subrange(9, 41),
                dest_domain: from_be(b.subrange(41, 45)),
                recipient: b.subrange(45, 77),
                body: b.subrange(77, b.len() as int),
            },
        )
    }
}

/// The content-derived identity of a message.
pub open spec fn message_id(m: MessageView) -> Seq<u8> {
    keccak256_of(encoding(m))
}

pub proof fn lemma_be_round_trip(x: u32)
    ensures
        from_be(be_bytes(x)) == x,
{
    let b0 = (x >> 24u32) as u8;
    let b1 = (x >> 16u32) as u8;
    let b2 = (x >> 8u32) as u8;
    let b3 = x as u8;
    assert((((b0 as u32) << 24u32) | ((b1 as u32) << 16u32) | ((b2 as u32) << 8u32) | (b3 as u32))
        == x) by (bit_vector)
        requires
            b0 == (x >> 24u32) as u8,
            b1 == (x >> 16u32) as u8,
            b2 == (x >> 8u32) as u8,
            b3 == x as u8,
    ;
}

/// Decoding the encoding of a valid message gives the message back.
pub proof fn lemma_decode_encode(m: MessageView)
    requires
        is_valid(m),
    ensures
        decoding(encoding(m)) == Some(m),
{
    let e = encoding(m);
    lemma_be_round_trip(m.nonce);
    lemma_be_round_trip(m.origin_domain);
    lemma_be_round_trip(m.dest_domain);
    assert(e.subrange(1, 5) =~= be_bytes(m.nonce));
    assert(e.subrange(5, 9) =~= be_bytes(m.origin_domain));
    assert(e.subrange(9, 41) =~= m.sender);
    assert(e.subrange(41, 45) =~= be_bytes(m.dest_domain));
    assert(e.subrange(45, 77) =~= m.recipient);
    assert(e.subrange(77, e.len() as int) =~= m.body);
}

/// Two valid messages with the same encoding are the same message, so
/// messages that differ in any field have different encodings.
pub proof fn lemma_encoding_injective(m1: MessageView, m2: MessageView)
    requires
        is_valid(m1),
        is_valid(m2),
        m1 != m2,
    ensures
        encoding(m1) != encoding(m2),
{
    lemma_decode_encode(m1);
    lemma_decode_encode(m2);
}

/// Two messages with equal fields have the same identity.
pub proof fn lemma_id_deterministic(m1: MessageView, m2: MessageView)
    requires
        m1 == m2,
    ensures
        message_id(m1) == message_id(m2),
{
}

fn push_be(out: &mut Vec<u8>, x: u32)
    ensures
        final(out)@ == old(out)@ + be_bytes(x),
{
    out.push((x >> 24) as u8);
    out.push((x >> 16) as u8);
    out.push((x >> 8) as u8);
    out.push(x as u8);
    assert(out@ =~= old(out)@ + be_bytes(x));
}

fn read_be(b: &Vec<u8>, at: usize) -> (r: u32)
    requires
        at + 4 <= b@.len(),
    ensures
        r == from_be(b@.subrange(at as int, at + 4)),
{
    let n = b.len();
    assert(at + 4 <= n);
    let r = ((b[at] as u32) << 24) | ((b[at + 1] as u32) << 16) | ((b[at + 2] as u32) << 8) | (b[at
        + 3] as u32);
    assert(b@.subrange(at as int, at + 4)[0] == b@[at as int]);
    assert(b@.subrange(at as int, at + 4)[1] == b@[at + 1]);
    assert(b@.subrange(at as int, at + 4)[2] == b@[at + 2]);
    assert(b@.subrange(at as int, at + 4)[3] == b@[at + 3]);
    r
}

impl Message {
    /// The canonical encoding of the message.
    pub fn encode(&self) -> (r: Vec<u8>)
        ensures
            r@ == encoding(self@),
    {
        let mut out: Vec<u8> = Vec::new();
        out.push(self.version);
        push_be(&mut out, self.nonce);
        push_be(&mut out, self.origin_domain);
        push_range(&mut out, &self.sender, 0, self.sender.len());
        push_be(&mut out, self.dest_domain);
        push_range(&mut out, &self.recipient, 0, self.recipient.len());
        push_range(&mut out, &self.body, 0, self.body.len());
        assert(self.sender@.subrange(0, self.sender@.len() as int) =~= self.sender@);
        assert(self.recipient@.subrange(0, self.recipient@.len() as int) =~= self.recipient@);
        assert(self.body@.subrange(0, self.body@.len() as int) =~= self.body@);
        assert(out@ =~= encoding(self@));
        out
    }

    /// Decodes a message; fails when the bytes are shorter than the header.
    pub fn decode(raw: &Vec<u8>) -> (r: Result<Message, ContractError>)
        ensures
            match r {
                Ok(m) => decoding(raw@) == Some(m@),
                Err(e) => decoding(raw@) is None && e == ContractError::MalformedMessage,
            },
    {
        if raw.len() < HEADER_LEN {
            return Err(ContractError::MalformedMessage);
        }
        let m = Message {
            version: raw[0],
            nonce: read_be(raw, 1),
            origin_domain: read_be(raw, 5),
            sender: copy_range(raw, 9, 41),
            dest_domain: read_be(raw, 41),
            recipient: copy_range(raw, 45, 77),
            body: copy_range(raw, 77, raw.len()),
        };
        Ok(m)
    }

    /// The content-derived identity: the Keccak-256 digest of the encoding.
    pub fn id(&self) -> (r: Vec<u8>)
        ensures
            r@ == message_id(self@),
            r@.len() == 32,
    {
        let e = self.encode();
        keccak256(&e)
    }
}

} // verus!
