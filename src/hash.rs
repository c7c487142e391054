//! The digest and keyed-digest algorithms offered by name.
use digest::Digest;
use hmac::Mac;

use vstd::prelude::*;

use crate::matches::bytes_of;

verus! {

#[verifier::external_type_specification]
#[verifier::external_body]
pub struct ExInvalidLength(digest::InvalidLength);

/// The SHA-224 digest of `message`.
pub uninterp spec fn sha2_224_digest(message: Seq<u8>) -> Seq<u8>;

/// The SHA-256 digest of `message`.
pub uninterp spec fn sha2_256_digest(message: Seq<u8>) -> Seq<u8>;

/// The SHA-384 digest of `message`.
pub uninterp spec fn sha2_384_digest(message: Seq<u8>) -> Seq<u8>;

/// The SHA-512 digest of `message`.
pub uninterp spec fn sha2_512_digest(message: Seq<u8>) -> Seq<u8>;

/// The SHA3-224 digest of `message`.
pub uninterp spec fn sha3_224_digest(message: Seq<u8>) -> Seq<u8>;

/// The SHA3-256 digest of `message`.
pub uninterp spec fn sha3_256_digest(message: Seq<u8>) -> Seq<u8>;

/// The SHA3-384 digest of `message`.
pub uninterp spec fn sha3_384_digest(message: Seq<u8>) -> Seq<u8>;

/// The SHA3-512 digest of `message`.
pub uninterp spec fn sha3_512_digest(message: Seq<u8>) -> Seq<u8>;

/// The BLAKE3 digest of `message`.
pub uninterp spec fn blake3_digest(message: Seq<u8>) -> Seq<u8>;

/// The HMAC-SHA-224 tag of `message` under `key`.
pub uninterp spec fn hmac_sha2_224(key: Seq<u8>, message: Seq<u8>) -> Seq<u8>;

/// The HMAC-SHA-256 tag of `message` under `key`.
pub uninterp spec fn hmac_sha2_256(key: Seq<u8>, message: Seq<u8>) -> Seq<u8>;

/// The HMAC-SHA-384 tag of `message` under `key`.
pub uninterp spec fn hmac_sha2_384(key: Seq<u8>, message: Seq<u8>) -> Seq<u8>;

/// The HMAC-SHA-512 tag of `message` under `key`.
pub uninterp spec fn hmac_sha2_512(key: Seq<u8>, message: Seq<u8>) -> Seq<u8>;

/// The HMAC-SHA3-224 tag of `message` under `key`.
pub uninterp spec fn hmac_sha3_224(key: Seq<u8>, message: Seq<u8>) -> Seq<u8>;

/// The HMAC-SHA3-256 tag of `message` under `key`.
pub uninterp spec fn hmac_sha3_256(key: Seq<u8>, message: Seq<u8>) -> Seq<u8>;

/// The HMAC-SHA3-384 tag of `message` under `key`.
pub uninterp spec fn hmac_sha3_384(key: Seq<u8>, message: Seq<u8>) -> Seq<u8>;

/// The HMAC-SHA3-512 tag of `message` under `key`.
pub uninterp spec fn hmac_sha3_512(key: Seq<u8>, message: Seq<u8>) -> Seq<u8>;

/// The HMAC-BLAKE3 tag of `message` under `key`.
pub uninterp spec fn hmac_blake3(key: Seq<u8>, message: Seq<u8>) -> Seq<u8>;

/// Relies on `sha2::Sha224` through `digest::Digest::digest`: a 28-byte digest.
#[verifier::external_body]
fn digest_sha2_224(message: &[u8]) -> (r: Vec<u8>)
    ensures
        r@ == sha2_224_digest(message@),
        r@.len() == 28,
{
    sha2::Sha224::digest(message).to_vec()
}

/// Relies on `sha2::Sha256` through `digest::Digest::digest`: a 32-byte digest.
#[verifier::external_body]
fn digest_sha2_256(message: &[u8]) -> (r: Vec<u8>)
    ensures
        r@ == sha2_256_digest(message@),
        r@.len() == 32,
{
    sha2::Sha256::digest(message).to_vec()
}

/// Relies on `sha2::Sha384` through `digest::Digest::digest`: a 48-byte digest.
#[verifier::external_body]
fn digest_sha2_384(message: &[u8]) -> (r: Vec<u8>)
    ensures
        r@ == sha2_384_digest(message@),
        r@.len() == 48,
{
    sha2::Sha384::digest(message).to_vec()
}

/// Relies on `sha2::Sha512` through `digest::Digest::digest`: a 64-byte digest.
#[verifier::external_body]
fn digest_sha2_512(message: &[u8]) -> (r: Vec<u8>)
    ensures
        r@ == sha2_512_digest(message@),
        r@.len() == 64,
{
    sha2::Sha512::digest(message).to_vec()
}

/// Relies on `sha3::Sha3_224` through `digest::Digest::digest`: a 28-byte digest.
#[verifier::external_body]
fn digest_sha3_224(message: &[u8]) -> (r: Vec<u8>)
    ensures
        r@ == sha3_224_digest(message@),
        r@.len() == 28,
{
    sha3::Sha3_224::digest(message).to_vec()
}

/// Relies on `sha3::Sha3_256` through `digest::Digest::digest`: a 32-byte digest.
#[verifier::external_body]
fn digest_sha3_256(message: &[u8]) -> (r: Vec<u8>)
    ensures
        r@ == sha3_256_digest(message@),
        r@.len() == 32,
{
    sha3::Sha3_256::digest(message).to_vec()
}

/// Relies on `sha3::Sha3_384` through `digest::Digest::digest`: a 48-byte digest.
#[verifier::external_body]
fn digest_sha3_384(message: &[u8]) -> (r: Vec<u8>)
    ensures
        r@ == sha3_384_digest(message@),
        r@.len() == 48,
{
    sha3::Sha3_384::digest(message).to_vec()
}

/// Relies on `sha3::Sha3_512` through `digest::Digest::digest`: a 64-byte digest.
#[verifier::external_body]
fn digest_sha3_512(message: &[u8]) -> (r: Vec<u8>)
    ensures
        r@ == sha3_512_digest(message@),
        r@.len() == 64,
{
    sha3::Sha3_512::digest(message).to_vec()
}

/// Relies on `blake3::Hasher` through `digest::Digest::digest`: a 32-byte digest.
#[verifier::external_body]
fn digest_blake3(message: &[u8]) -> (r: Vec<u8>)
    ensures
        r@ == blake3_digest(message@),
        r@.len() == 32,
{
    blake3::Hasher::digest(message).to_vec()
}

/// Relies on `hmac::Hmac` over `sha2::Sha224`: `new_from_slice` takes a key of
/// any length, and the tag is as long as the digest.
#[verifier::external_body]
fn mac_sha2_224(key: &[u8], message: &[u8]) -> (r: Result<Vec<u8>, digest::InvalidLength>)
    ensures
        r is Ok,
        r matches Ok(tag) ==> tag@ == hmac_sha2_224(key@, message@) && tag@.len() == 28,
{
    let mut mac = hmac::Hmac::<sha2::Sha224>::new_from_slice(key)?;
    mac.update(message);
    Ok(mac.finalize().into_bytes().to_vec())
}

/// Relies on `hmac::Hmac` over `sha2::Sha256`: `new_from_slice` takes a key of
/// any length, and the tag is as long as the digest.
#[verifier::external_body]
fn mac_sha2_256(key: &[u8], message: &[u8]) -> (r: Result<Vec<u8>, digest::InvalidLength>)
    ensures
        r is Ok,
        r matches Ok(tag) ==> tag@ == hmac_sha2_256(key@, message@) && tag@.len() == 32,
{
    let mut mac = hmac::Hmac::<sha2::Sha256>::new_from_slice(key)?;
    mac.update(message);
    Ok(mac.finalize().into_bytes().to_vec())
}

/// Relies on `hmac::Hmac` over `sha2::Sha384`: `new_from_slice` takes a key of
/// any length, and the tag is as long as the digest.
#[verifier::external_body]
fn mac_sha2_384(key: &[u8], message: &[u8]) -> (r: Result<Vec<u8>, digest::InvalidLength>)
    ensures
        r is Ok,
        r matches Ok(tag) ==> tag@ == hmac_sha2_384(key@, message@) && tag@.len() == 48,
{
    let mut mac = hmac::Hmac::<sha2::Sha384>::new_from_slice(key)?;
    mac.update(message);
    Ok(mac.finalize().into_bytes().to_vec())
}

/// Relies on `hmac::Hmac` over `sha2::Sha512`: `new_from_slice` takes a key of
/// any length, and the tag is as long as the digest.
#[verifier::external_body]
fn mac_sha2_512(key: &[u8], message: &[u8]) -> (r: Result<Vec<u8>, digest::InvalidLength>)
    ensures
        r is Ok,
        r matches Ok(tag) ==> tag@ == hmac_sha2_512(key@, message@) && tag@.len() == 64,
{
    let mut mac = hmac::Hmac::<sha2::Sha512>::new_from_slice(key)?;
    mac.update(message);
    Ok(mac.finalize().into_bytes().to_vec())
}

/// Relies on `hmac::Hmac` over `sha3::Sha3_224`: `new_from_slice` takes a key of
/// any length, and the tag is as long as the digest.
#[verifier::external_body]
fn mac_sha3_224(key: &[u8], message: &[u8]) -> (r: Result<Vec<u8>, digest::InvalidLength>)
    ensures
        r is Ok,
        r matches Ok(tag) ==> tag@ == hmac_sha3_224(key@, message@) && tag@.len() == 28,
{
    let mut mac = hmac::Hmac::<sha3::Sha3_224>::new_from_slice(key)?;
    mac.update(message);
    Ok(mac.finalize().into_bytes().to_vec())
}

/// Relies on `hmac::Hmac` over `sha3::Sha3_256`: `new_from_slice` takes a key of
/// any length, and the tag is as long as the digest.
#[verifier::external_body]
fn mac_sha3_256(key: &[u8], message: &[u8]) -> (r: Result<Vec<u8>, digest::InvalidLength>)
    ensures
        r is Ok,
        r matches Ok(tag) ==> tag@ == hmac_sha3_256(key@, message@) && tag@.len() == 32,
{
    let mut mac = hmac::Hmac::<sha3::Sha3_256>::new_from_slice(key)?;
    mac.update(message);
    Ok(mac.finalize().into_bytes().to_vec())
}

/// Relies on `hmac::Hmac` over `sha3::Sha3_384`: `new_from_slice` takes a key of
/// any length, and the tag is as long as the digest.
#[verifier::external_body]
fn mac_sha3_384(key: &[u8], message: &[u8]) -> (r: Result<Vec<u8>, digest::InvalidLength>)
    ensures
        r is Ok,
        r matches Ok(tag) ==> tag@ == hmac_sha3_384(key@, message@) && tag@.len() == 48,
{
    let mut mac = hmac::Hmac::<sha3::Sha3_384>::new_from_slice(key)?;
    mac.update(message);
    Ok(mac.finalize().into_bytes().to_vec())
}

/// Relies on `hmac::Hmac` over `sha3::Sha3_512`: `new_from_slice` takes a key of
/// any length, and the tag is as long as the digest.
#[verifier::external_body]
fn mac_sha3_512(key: &[u8], message: &[u8]) -> (r: Result<Vec<u8>, digest::InvalidLength>)
    ensures
        r is Ok,
        r matches Ok(tag) ==> tag@ == hmac_sha3_512(key@, message@) && tag@.len() == 64,
{
    let mut mac = hmac::Hmac::<sha3::Sha3_512>::new_from_slice(key)?;
    mac.update(message);
    Ok(mac.finalize().into_bytes().to_vec())
}

/// Relies on `hmac::SimpleHmac` over `blake3::Hasher`: `new_from_slice` takes a key of
/// any length, and the tag is as long as the digest.
#[verifier::external_body]
fn mac_blake3(key: &[u8], message: &[u8]) -> (r: Result<Vec<u8>, digest::InvalidLength>)
    ensures
        r is Ok,
        r matches Ok(tag) ==> tag@ == hmac_blake3(key@, message@) && tag@.len() == 32,
{
    let mut mac = hmac::SimpleHmac::<blake3::Hasher>::new_from_slice(key)?;
    mac.update(message);
    Ok(mac.finalize().into_bytes().to_vec())
}

/// `s` with the ASCII capitals turned to small letters and every other
/// character kept.
pub open spec fn ascii_lower(s: Seq<char>) -> Seq<char> {
    s.map_values(|c: char| if 'A' <= c && c <= 'Z' { ((c as u8) + 32) as u8 as char } else { c })
}

/// Relies on `str::to_ascii_lowercase`: ASCII capitals become small letters,
/// all else is kept.
#[verifier::external_body]
fn to_ascii_lower(s: &str) -> (r: String)
    ensures
        r@ == ascii_lower(s@),
{
    s.to_ascii_lowercase()
}

/// A digest algorithm.
#[derive(Debug, Clone, Copy, PartialEq, Eq, Structural)]
pub enum HashAlgorithm {
    Sha2_224,
    Sha2_256,
    Sha2_384,
    Sha2_512,
    Sha3_224,
    Sha3_256,
    Sha3_384,
    Sha3_512,
    Blake3,
}

/// The name an algorithm goes by, in small letters.
pub open spec fn name_of(a: HashAlgorithm) -> Seq<char> {
    match a {
        HashAlgorithm::Sha2_224 => "sha224"@,
        HashAlgorithm::Sha2_256 => "sha256"@,
        HashAlgorithm::Sha2_384 => "sha384"@,
        HashAlgorithm::Sha2_512 => "sha512"@,
        HashAlgorithm::Sha3_224 => "sha3-224"@,
        HashAlgorithm::Sha3_256 => "sha3-256"@,
        HashAlgorithm::Sha3_384 => "sha3-384"@,
        HashAlgorithm::Sha3_512 => "sha3-512"@,
        HashAlgorithm::Blake3 => "blake3"@,
    }
}

/// Every name, in the order of the algorithms, separated by ", ".
pub open spec fn all_names() -> Seq<char> {
    name_of(HashAlgorithm::Sha2_224) + ", "@
        + name_of(HashAlgorithm::Sha2_256) + ", "@
        + name_of(HashAlgorithm::Sha2_384) + ", "@
        + name_of(HashAlgorithm::Sha2_512) + ", "@
        + name_of(HashAlgorithm::Sha3_224) + ", "@
        + name_of(HashAlgorithm::Sha3_256) + ", "@
        + name_of(HashAlgorithm::Sha3_384) + ", "@
        + name_of(HashAlgorithm::Sha3_512) + ", "@
        + name_of(HashAlgorithm::Blake3)
}

/// The message given for a name no algorithm goes by.
pub open spec fn unknown_name_message(lowered: Seq<char>) -> Seq<char> {
    "unknown variant '"@ + lowered + "', valid options are: "@ + all_names()
}

/// The digest of `message` under `a`.
pub open spec fn digest_spec(a: HashAlgorithm, message: Seq<u8>) -> Seq<u8> {
    match a {
        HashAlgorithm::Sha2_224 => sha2_224_digest(message),
        HashAlgorithm::Sha2_256 => sha2_256_digest(message),
        HashAlgorithm::Sha2_384 => sha2_384_digest(message),
        HashAlgorithm::Sha2_512 => sha2_512_digest(message),
        HashAlgorithm::Sha3_224 => sha3_224_digest(message),
        HashAlgorithm::Sha3_256 => sha3_256_digest(message),
        HashAlgorithm::Sha3_384 => sha3_384_digest(message),
        HashAlgorithm::Sha3_512 => sha3_512_digest(message),
        HashAlgorithm::Blake3 => blake3_digest(message),
    }
}

/// The keyed digest of `message` under `a` and `key`.
pub open spec fn hmac_spec(a: HashAlgorithm, key: Seq<u8>, message: Seq<u8>) -> Seq<u8> {
    match a {
        HashAlgorithm::Sha2_224 => hmac_sha2_224(key, message),
        HashAlgorithm::Sha2_256 => hmac_sha2_256(key, message),
        HashAlgorithm::Sha2_384 => hmac_sha2_384(key, message),
        HashAlgorithm::Sha2_512 => hmac_sha2_512(key, message),
        HashAlgorithm::Sha3_224 => hmac_sha3_224(key, message),
        HashAlgorithm::Sha3_256 => hmac_sha3_256(key, message),
        HashAlgorithm::Sha3_384 => hmac_sha3_384(key, message),
        HashAlgorithm::Sha3_512 => hmac_sha3_512(key, message),
        HashAlgorithm::Blake3 => hmac_blake3(key, message),
    }
}

/// The length in bytes of a digest of `a`.
pub open spec fn output_len(a: HashAlgorithm) -> nat {
    match a {
        HashAlgorithm::Sha2_224 => 28,
        HashAlgorithm::Sha2_256 => 32,
        HashAlgorithm::Sha2_384 => 48,
        HashAlgorithm::Sha2_512 => 64,
        HashAlgorithm::Sha3_224 => 28,
        HashAlgorithm::Sha3_256 => 32,
        HashAlgorithm::Sha3_384 => 48,
        HashAlgorithm::Sha3_512 => 64,
        HashAlgorithm::Blake3 => 32,
    }
}

impl HashAlgorithm {
    /// Every accepted name, separated by ", ".
    pub fn list_all_as_string() -> (r: String)
        ensures
            r@ == all_names(),
    {
        let mut list = String::from_str("sha224");
        list.append(", ");
        list.append("sha256");
        list.append(", ");
        list.append("sha384");
        list.append(", ");
        list.append("sha512");
        list.append(", ");
        list.append("sha3-224");
        list.append(", ");
        list.append("sha3-256");
        list.append(", ");
        list.append("sha3-384");
        list.append(", ");
        list.append("sha3-512");
        list.append(", ");
        list.append("blake3");
        list
    }

    /// The algorithm called `name`, in any mix of small and capital letters.
    pub fn from_name(name: &str) -> (r: Result<HashAlgorithm, String>)
        ensures
            r matches Ok(a) ==> name_of(a) == ascii_lower(name@),
            r is Err <==> forall|a: HashAlgorithm| name_of(a) != ascii_lower(name@),
            r matches Err(message) ==> message@ == unknown_name_message(ascii_lower(name@)),
    {
        let lowered = to_ascii_lower(name);
        if lowered == String::from_str("sha224") {
            assert(name_of(HashAlgorithm::Sha2_224) == ascii_lower(name@));
            return Ok(HashAlgorithm::Sha2_224);
        }
        if lowered == String::from_str("sha256") {
            assert(name_of(HashAlgorithm::Sha2_256) == ascii_lower(name@));
            return Ok(HashAlgorithm::Sha2_256);
        }
        if lowered == String::from_str("sha384") {
            assert(name_of(HashAlgorithm::Sha2_384) == ascii_lower(name@));
            return Ok(HashAlgorithm::Sha2_384);
        }
        if lowered == String::from_str("sha512") {
            assert(name_of(HashAlgorithm::Sha2_512) == ascii_lower(name@));
            return Ok(HashAlgorithm::Sha2_512);
        }
        if lowered == String::from_str("sha3-224") {
            assert(name_of(HashAlgorithm::Sha3_224) == ascii_lower(name@));
            return Ok(HashAlgorithm::Sha3_224);
        }
        if lowered == String::from_str("sha3-256") {
            assert(name_of(HashAlgorithm::Sha3_256) == ascii_lower(name@));
            return Ok(HashAlgorithm::Sha3_256);
        }
        if lowered == String::from_str("sha3-384") {
            assert(name_of(HashAlgorithm::Sha3_384) == ascii_lower(name@));
            return Ok(HashAlgorithm::Sha3_384);
        }
        if lowered == String::from_str("sha3-512") {
            assert(name_of(HashAlgorithm::Sha3_512) == ascii_lower(name@));
            return Ok(HashAlgorithm::Sha3_512);
        }
        if lowered == String::from_str("blake3") {
            assert(name_of(HashAlgorithm::Blake3) == ascii_lower(name@));
            return Ok(HashAlgorithm::Blake3);
        }
        proof {
            assert forall|a: HashAlgorithm| name_of(a) != ascii_lower(name@) by {
                match a {
                    HashAlgorithm::Sha2_224 => {},
                    HashAlgorithm::Sha2_256 => {},
                    HashAlgorithm::Sha2_384 => {},
                    HashAlgorithm::Sha2_512 => {},
                    HashAlgorithm::Sha3_224 => {},
                    HashAlgorithm::Sha3_256 => {},
                    HashAlgorithm::Sha3_384 => {},
                    HashAlgorithm::Sha3_512 => {},
                    HashAlgorithm::Blake3 => {},
                }
            }
        }
        let mut message = String::from_str("unknown variant '");
        message.append(lowered.as_str());
        message.append("', valid options are: ");
        message.append(HashAlgorithm::list_all_as_string().as_str());
        Err(message)
    }

    /// The digest of the bytes of `message`.
    pub fn hash(&self, message: &str) -> (r: Vec<u8>)
        ensures
            r@ == digest_spec(*self, bytes_of(message@)),
            r@.len() == output_len(*self),
    {
        let m = message.as_bytes();
        match self {
            HashAlgorithm::Sha2_224 => digest_sha2_224(m),
            HashAlgorithm::Sha2_256 => digest_sha2_256(m),
            HashAlgorithm::Sha2_384 => digest_sha2_384(m),
            HashAlgorithm::Sha2_512 => digest_sha2_512(m),
            HashAlgorithm::Sha3_224 => digest_sha3_224(m),
            HashAlgorithm::Sha3_256 => digest_sha3_256(m),
            HashAlgorithm::Sha3_384 => digest_sha3_384(m),
            HashAlgorithm::Sha3_512 => digest_sha3_512(m),
            HashAlgorithm::Blake3 => digest_blake3(m),
        }
    }

    /// The keyed digest (HMAC) of the bytes of `message` under the bytes of
    /// `key`.
    pub fn hmac(&self, message: &str, key: &str) -> (r: Vec<u8>)
        ensures
            r@ == hmac_spec(*self, bytes_of(key@), bytes_of(message@)),
            r@.len() == output_len(*self),
    {
        let m = message.as_bytes();
        let k = key.as_bytes();
        let tag = match self {
            HashAlgorithm::Sha2_224 => mac_sha2_224(k, m),
            HashAlgorithm::Sha2_256 => mac_sha2_256(k, m),
            HashAlgorithm::Sha2_384 => mac_sha2_384(k, m),
            HashAlgorithm::Sha2_512 => mac_sha2_512(k, m),
            HashAlgorithm::Sha3_224 => mac_sha3_224(k, m),
            HashAlgorithm::Sha3_256 => mac_sha3_256(k, m),
            HashAlgorithm::Sha3_384 => mac_sha3_384(k, m),
            HashAlgorithm::Sha3_512 => mac_sha3_512(k, m),
            HashAlgorithm::Blake3 => mac_blake3(k, m),
        };
        match tag {
            Ok(t) => t,
            Err(_) => Vec::new(),
        }
    }
}

/// The digest of `message` under the algorithm called `name`.
pub fn hash_message(name: &str, message: &str) -> (r: Result<Vec<u8>, String>)
    ensures
        r is Ok <==> exists|a: HashAlgorithm| name_of(a) == ascii_lower(name@),
        r matches Ok(d) ==> exists|a: HashAlgorithm|
            name_of(a) == ascii_lower(name@) && d@ == #[trigger] digest_spec(a, bytes_of(message@)),
        r matches Err(e) ==> e@ == unknown_name_message(ascii_lower(name@)),
{
    match HashAlgorithm::from_name(name) {
        Ok(a) => Ok(a.hash(message)),
        Err(e) => Err(e),
    }
}

/// The keyed digest of `message` under `key` and the algorithm called
/// `name`.
pub fn hmac_message(name: &str, message: &str, key: &str) -> (r: Result<Vec<u8>, String>)
    ensures
        r is Ok <==> exists|a: HashAlgorithm| name_of(a) == ascii_lower(name@),
        r matches Ok(d) ==> exists|a: HashAlgorithm|
            name_of(a) == ascii_lower(name@) && d@ == #[trigger] hmac_spec(
                a,
                bytes_of(key@),
                bytes_of(message@),
            ),
        r matches Err(e) ==> e@ == unknown_name_message(ascii_lower(name@)),
{
    match HashAlgorithm::from_name(name) {
        Ok(a) => Ok(a.hmac(message, key)),
        Err(e) => Err(e),
    }
}

} // verus!
