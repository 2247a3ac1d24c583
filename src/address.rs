use vstd::prelude::*;
use bech32::FromBase32;
use bech32::ToBase32;
use crate::bytes::copy_range;
use crate::error::ContractError;
use crate::message::ADDRESS_LEN;

verus! {

/// The human-readable prefix and the payload bytes of a bech32 string, or
/// `None` when it is not one.
pub uninterp spec fn bech32_decoded(s: Seq<char>) -> Option<(Seq<char>, Seq<u8>)>;

/// The bech32 string with the given prefix and payload bytes, or `None`
/// when the prefix is not a valid one.
pub uninterp spec fn bech32_encoded(hrp: Seq<char>, data: Seq<u8>) -> Option<Seq<char>>;

/// Relies on `bech32::decode` (either checksum variant) and `FromBase32 for
/// Vec<u8>`: the lower-case prefix and the payload regrouped into bytes, a
/// function of the string alone; `None` where either step fails.
#[verifier::external_body]
fn bech32_decode(s: &String) -> (r: Option<(String, Vec<u8>)>)
    ensures
        match r {
            Some(p) => bech32_decoded(s@) == Some((p.0@, p.1@)),
            None => bech32_decoded(s@) is None,
        },
{
    let (hrp, data, _variant) = bech32::decode(s).ok()?;
    let bytes = Vec::<u8>::from_base32(&data).ok()?;
    Some((hrp, bytes))
}

/// Whether `hrp` is accepted as a bech32 prefix: 1 to 83 characters, each
/// printable ASCII (33 to 126), not mixing lower and upper case.
pub open spec fn valid_hrp(hrp: Seq<char>) -> bool {
    &&& 1 <= hrp.len() <= 83
    &&& forall|i: int| 0 <= i < hrp.len() ==> 33 <= (#[trigger] hrp[i]) as u32 <= 126
    &&& !((exists|i: int| 0 <= i < hrp.len() && 'a' <= #[trigger] hrp[i] <= 'z') && (exists|
        j: int,
    | 0 <= j < hrp.len() && 'A' <= #[trigger] hrp[j] <= 'Z'))
}

/// Relies on `bech32::encode` with the `Bech32` checksum variant: the
/// string for a prefix and payload, a function of the two alone; it fails
/// only where `check_hrp` refuses the prefix.
#[verifier::external_body]
fn bech32_encode(hrp: &String, data: &Vec<u8>) -> (r: Option<String>)
    ensures
        r is Some <==> valid_hrp(hrp@),
        match r {
            Some(s) => bech32_encoded(hrp@, data@) == Some(s@),
            None => bech32_encoded(hrp@, data@) is None,
        },
{
    bech32::encode(hrp, data.to_base32(), bech32::Variant::Bech32).ok()
}

/// `data` preceded by zero bytes up to the wire width.
pub open spec fn left_pad(data: Seq<u8>) -> Seq<u8> {
    Seq::new((ADDRESS_LEN - data.len()) as nat, |i: int| 0u8) + data
}

/// Bytes widened to the wire form, or the length error when too long.
pub open spec fn widened(data: Seq<u8>) -> Result<Seq<u8>, ContractError> {
    if data.len() > ADDRESS_LEN {
        Err(ContractError::InvalidAddressLength { len: data.len() as usize })
    } else {
        Ok(left_pad(data))
    }
}

/// The wire form of a local textual address.
pub open spec fn normalized(addr: Seq<char>) -> Result<Seq<u8>, ContractError> {
    match bech32_decoded(addr) {
        None => Err(ContractError::InvalidAddress),
        Some(p) => widened(p.1),
    }
}

/// Whether the first `n` bytes are all zero.
pub open spec fn zero_prefix(b: Seq<u8>, n: int) -> bool {
    forall|i: int| 0 <= i < n ==> b[i] == 0
}

/// The payload that a wire-form address stands for: a full-width value whose
/// first twelve bytes are zero is a padded twenty-byte address.
pub open spec fn payload(raw: Seq<u8>) -> Seq<u8> {
    if raw.len() == ADDRESS_LEN && zero_prefix(raw, 12) {
        raw.subrange(12, ADDRESS_LEN as int)
    } else {
        raw
    }
}

/// The local textual address for wire bytes under the prefix `hrp`; it
/// exists whenever the prefix is valid.
pub open spec fn denormalized(hrp: Seq<char>, raw: Seq<u8>) -> Result<Seq<char>, ContractError> {
    if valid_hrp(hrp) {
        Ok(bech32_encoded(hrp, payload(raw))->0)
    } else {
        Err(ContractError::InvalidRecipientEncoding)
    }
}

/// Whether `addr` is a well-formed address under the prefix `hrp`.
pub open spec fn is_local_address(hrp: Seq<char>, addr: Seq<char>) -> bool {
    match bech32_decoded(addr) {
        None => false,
        Some(p) => p.0 == hrp,
    }
}

/// Widens bytes to the wire form; fails when they are longer than it.
pub fn left_pad_address(data: &Vec<u8>) -> (r: Result<Vec<u8>, ContractError>)
    ensures
        match r {
            Ok(v) => widened(data@) == Ok::<Seq<u8>, ContractError>(v@),
            Err(e) => widened(data@) == Err::<Seq<u8>, ContractError>(e),
        },
{
    let len = data.len();
    if len > ADDRESS_LEN {
        return Err(ContractError::InvalidAddressLength { len });
    }
    let mut out: Vec<u8> = Vec::new();
    let pad = ADDRESS_LEN - len;
    let mut i: usize = 0;
    while i < pad
        invariant
            i <= pad,
            out@ == Seq::new(i as nat, |k: int| 0u8),
        decreases pad - i,
    {
        out.push(0u8);
        i = i + 1;
        assert(out@ =~= Seq::new(i as nat, |k: int| 0u8));
    }
    let mut j: usize = 0;
    while j < len
        invariant
            len == data@.len(),
            j <= len,
            out@ == Seq::new(pad as nat, |k: int| 0u8) + data@.subrange(0, j as int),
        decreases len - j,
    {
        out.push(data[j]);
        j = j + 1;
        assert(out@ =~= Seq::new(pad as nat, |k: int| 0u8) + data@.subrange(0, j as int));
    }
    assert(data@.subrange(0, len as int) =~= data@);
    assert(out@ =~= left_pad(data@));
    Ok(out)
}

/// The wire form of a local textual address.
pub fn address_to_bytes(addr: &String) -> (r: Result<Vec<u8>, ContractError>)
    ensures
        match r {
            Ok(v) => normalized(addr@) == Ok::<Seq<u8>, ContractError>(v@),
            Err(e) => normalized(addr@) == Err::<Seq<u8>, ContractError>(e),
        },
{
    match bech32_decode(addr) {
        None => Err(ContractError::InvalidAddress),
        Some(p) => left_pad_address(&p.1),
    }
}

/// Whether a full-width value starts with twelve zero bytes.
fn has_zero_prefix(raw: &Vec<u8>) -> (r: bool)
    requires
        raw@.len() == ADDRESS_LEN,
    ensures
        r == zero_prefix(raw@, 12),
{
    let mut i: usize = 0;
    while i < 12
        invariant
            i <= 12,
            raw@.len() == ADDRESS_LEN,
            zero_prefix(raw@, i as int),
        decreases 12 - i,
    {
        if raw[i] != 0 {
            return false;
        }
        i = i + 1;
    }
    true
}

/// The local textual address that wire bytes stand for under `hrp`.
pub fn bytes_to_address(hrp: &String, raw: &Vec<u8>) -> (r: Result<String, ContractError>)
    ensures
        match r {
            Ok(s) => denormalized(hrp@, raw@) == Ok::<Seq<char>, ContractError>(s@),
            Err(e) => denormalized(hrp@, raw@) == Err::<Seq<char>, ContractError>(e),
        },
{
    let enc = if raw.len() == ADDRESS_LEN && has_zero_prefix(raw) {
        bech32_encode(hrp, &copy_range(raw, 12, ADDRESS_LEN))
    } else {
        bech32_encode(hrp, raw)
    };
    match enc {
        None => Err(ContractError::InvalidRecipientEncoding),
        Some(s) => Ok(s),
    }
}

/// Checks that `addr` is a well-formed address under the prefix `hrp`.
pub fn validate_address(hrp: &String, addr: &String) -> (r: Result<(), ContractError>)
    ensures
        r is Ok <==> is_local_address(hrp@, addr@),
        r is Err ==> r == Err::<(), ContractError>(ContractError::InvalidAddress),
{
    match bech32_decode(addr) {
        Some(p) => {
            if p.0 == *hrp {
                Ok(())
            } else {
                Err(ContractError::InvalidAddress)
            }
        },
        None => Err(ContractError::InvalidAddress),
    }
}

} // verus!
