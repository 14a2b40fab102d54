use vstd::prelude::*;

use hmac::Mac;

verus! {

/// The HMAC-SHA256 tag of `data` under `key`.
pub uninterp spec fn hmac_sha256(key: Seq<u8>, data: Seq<u8>) -> Seq<u8>;

/// The ASCII code of the lowercase hex digit for `n` (below 16).
pub open spec fn hex_digit(n: int) -> u8 {
    if n < 10 {
        (48 + n) as u8
    } else {
        (87 + n) as u8
    }
}

/// Lowercase hex text of `b`, two digits per byte, high nibble first.
pub open spec fn hex_text(b: Seq<u8>) -> Seq<u8>
    decreases b.len(),
{
    if b.len() == 0 {
        Seq::empty()
    } else {
        let last = b.last() as int;
        hex_text(b.drop_last()) + seq![hex_digit(last / 16), hex_digit(last % 16)]
    }
}

/// The signature frame for the four signed frames: empty when signing is
/// disabled (empty key), else the hex text of their HMAC-SHA256 tag.
pub open spec fn signature_of(
    key: Seq<u8>,
    header: Seq<u8>,
    parent: Seq<u8>,
    metadata: Seq<u8>,
    content: Seq<u8>,
) -> Seq<u8> {
    if key.len() == 0 {
        Seq::empty()
    } else {
        hex_text(hmac_sha256(key, header + parent + metadata + content))
    }
}

/// Relies on hmac::Hmac<sha2::Sha256>: `new_from_slice` takes a key of any
/// length, and `finalize` yields the tag of the bytes given to `update`.
#[verifier::external_body]
fn mac_of(key: &Vec<u8>, data: &Vec<u8>) -> (r: Vec<u8>)
    ensures
        r@ == hmac_sha256(key@, data@),
{
    let mut mac = hmac::Hmac::<sha2::Sha256>::new_from_slice(key).expect("HMAC takes any key");
    mac.update(data);
    mac.finalize().into_bytes().to_vec()
}

/// Relies on hex::encode: lowercase, two digits per byte, high nibble first.
#[verifier::external_body]
fn to_hex(b: &Vec<u8>) -> (r: Vec<u8>)
    ensures
        r@ == hex_text(b@),
{
    hex::encode(b).into_bytes()
}

/// Appends the bytes of `b` to `out`.
pub(crate) fn append_bytes(out: &mut Vec<u8>, b: &Vec<u8>)
    ensures
        final(out)@ == old(out)@ + b@,
{
    let mut i: usize = 0;
    while i < b.len()
        invariant
            i <= b@.len(),
            out@ == old(out)@ + b@.subrange(0, i as int),
        decreases b@.len() - i,
    {
        out.push(b[i]);
        i = i + 1;
        assert(b@.subrange(0, i as int) == b@.subrange(0, i - 1 as int).push(b@[i - 1]));
    }
    assert(b@.subrange(0, b@.len() as int) == b@);
}

/// Byte-wise equality that reads every byte, so the time it takes does not
/// tell where two signatures first differ.
pub(crate) fn same_bytes(a: &Vec<u8>, b: &Vec<u8>) -> (r: bool)
    ensures
        r == (a@ == b@),
{
    if a.len() != b.len() {
        return false;
    }
    let mut same = true;
    let mut i: usize = 0;
    while i < a.len()
        invariant
            i <= a@.len(),
            a@.len() == b@.len(),
            same == (forall|j: int| 0 <= j < i ==> a@[j] == b@[j]),
        decreases a@.len() - i,
    {
        if a[i] != b[i] {
            same = false;
        }
        i = i + 1;
    }
    if !same {
        assert(a@ != b@);
    } else {
        assert(a@ =~= b@);
    }
    same
}

/// The bytes a signature covers: the four frames, one after the other.
fn signed_bytes(header: &Vec<u8>, parent: &Vec<u8>, metadata: &Vec<u8>, content: &Vec<u8>) -> (r: Vec<u8>)
    ensures
        r@ == header@ + parent@ + metadata@ + content@,
{
    let mut data: Vec<u8> = Vec::new();
    append_bytes(&mut data, header);
    append_bytes(&mut data, parent);
    append_bytes(&mut data, metadata);
    append_bytes(&mut data, content);
    assert(data@ == header@ + parent@ + metadata@ + content@);
    data
}

/// Computes the signature frame of the four signed frames under `key`.
pub fn sign(key: &Vec<u8>, header: &Vec<u8>, parent: &Vec<u8>, metadata: &Vec<u8>, content: &Vec<u8>) -> (r: Vec<u8>)
    ensures
        r@ == signature_of(key@, header@, parent@, metadata@, content@),
{
    if key.len() == 0 {
        return Vec::new();
    }
    to_hex(&mac_of(key, &signed_bytes(header, parent, metadata, content)))
}

/// Whether `signature` is the hex text of the tag `mac`.
pub fn matches_mac(signature: &Vec<u8>, mac: &Vec<u8>) -> (r: bool)
    ensures
        r == (signature@ == hex_text(mac@)),
{
    same_bytes(signature, &to_hex(mac))
}

/// Whether `signature` is the signature of the four signed frames under `key`.
pub fn verify(
    key: &Vec<u8>,
    signature: &Vec<u8>,
    header: &Vec<u8>,
    parent: &Vec<u8>,
    metadata: &Vec<u8>,
    content: &Vec<u8>,
) -> (r: bool)
    ensures
        r == (signature@ == signature_of(key@, header@, parent@, metadata@, content@)),
{
    if key.len() == 0 {
        assert(signature@.len() == 0 ==> signature@ =~= Seq::<u8>::empty());
        return signature.len() == 0;
    }
    matches_mac(signature, &mac_of(key, &signed_bytes(header, parent, metadata, content)))
}

} // verus!
