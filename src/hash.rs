//! The keyed-hash capability that password generation is built on, and its
//! HMAC adapters over SHA-1, SHA-256 and SHA-512.
use crate::error::ThotpError;
use hmac::Mac;
use vstd::prelude::*;

verus! {

/// A keyed hash: a deterministic tag of at least 20 bytes from a key and a message.
pub trait KeyedHash {
    /// The tag for `key` and `msg`, or `None` where it cannot be computed.
    spec fn mac_spec(key: Seq<u8>, msg: Seq<u8>) -> Option<Seq<u8>>;

    fn mac(key: &[u8], msg: &[u8]) -> (r: Result<Vec<u8>, ThotpError>)
        ensures
            match r {
                Ok(v) => Self::mac_spec(key@, msg@) == Some(v@) && v@.len() >= 20,
                Err(e) => Self::mac_spec(key@, msg@) is None && e == ThotpError::HashError,
            },
    ;
}

/// HMAC over SHA-1.
pub struct Sha1;

/// HMAC over SHA-256.
pub struct Sha256;

/// HMAC over SHA-512.
pub struct Sha512;

/// The HMAC-SHA-1 tag of `msg` under `key`.
pub uninterp spec fn hmac_sha1_of(key: Seq<u8>, msg: Seq<u8>) -> Seq<u8>;

/// The HMAC-SHA-256 tag of `msg` under `key`.
pub uninterp spec fn hmac_sha256_of(key: Seq<u8>, msg: Seq<u8>) -> Seq<u8>;

/// The HMAC-SHA-512 tag of `msg` under `key`.
pub uninterp spec fn hmac_sha512_of(key: Seq<u8>, msg: Seq<u8>) -> Seq<u8>;

/// Relies on `hmac::Hmac<sha1::Sha1>`: `new_from_slice` accepts a key of any
/// length (it always returns `Ok`), and `finalize` gives the 20-byte tag, which
/// depends on the key and the message alone.
#[verifier::external_body]
fn hmac_sha1(key: &[u8], msg: &[u8]) -> (r: Result<Vec<u8>, ThotpError>)
    ensures
        r is Ok,
        r->Ok_0@ == hmac_sha1_of(key@, msg@),
        r->Ok_0@.len() == 20,
{
    let mut m = match hmac::Hmac::<sha1::Sha1>::new_from_slice(key) {
        Ok(m) => m,
        Err(_) => return Err(ThotpError::HashError),
    };
    m.update(msg);
    Ok(m.finalize().into_bytes().to_vec())
}

/// Relies on `hmac::Hmac<sha2::Sha256>`: `new_from_slice` accepts a key of any
/// length (it always returns `Ok`), and `finalize` gives the 32-byte tag, which
/// depends on the key and the message alone.
#[verifier::external_body]
fn hmac_sha256(key: &[u8], msg: &[u8]) -> (r: Result<Vec<u8>, ThotpError>)
    ensures
        r is Ok,
        r->Ok_0@ == hmac_sha256_of(key@, msg@),
        r->Ok_0@.len() == 32,
{
    let mut m = match hmac::Hmac::<sha2::Sha256>::new_from_slice(key) {
        Ok(m) => m,
        Err(_) => return Err(ThotpError::HashError),
    };
    m.update(msg);
    Ok(m.finalize().into_bytes().to_vec())
}

/// Relies on `hmac::Hmac<sha2::Sha512>`: `new_from_slice` accepts a key of any
/// length (it always returns `Ok`), and `finalize` gives the 64-byte tag, which
/// depends on the key and the message alone.
#[verifier::external_body]
fn hmac_sha512(key: &[u8], msg: &[u8]) -> (r: Result<Vec<u8>, ThotpError>)
    ensures
        r is Ok,
        r->Ok_0@ == hmac_sha512_of(key@, msg@),
        r->Ok_0@.len() == 64,
{
    let mut m = match hmac::Hmac::<sha2::Sha512>::new_from_slice(key) {
        Ok(m) => m,
        Err(_) => return Err(ThotpError::HashError),
    };
    m.update(msg);
    Ok(m.finalize().into_bytes().to_vec())
}

impl KeyedHash for Sha1 {
    open spec fn mac_spec(key: Seq<u8>, msg: Seq<u8>) -> Option<Seq<u8>> {
        Some(hmac_sha1_of(key, msg))
    }

    fn mac(key: &[u8], msg: &[u8]) -> (r: Result<Vec<u8>, ThotpError>) {
        hmac_sha1(key, msg)
    }
}

impl KeyedHash for Sha256 {
    open spec fn mac_spec(key: Seq<u8>, msg: Seq<u8>) -> Option<Seq<u8>> {
        Some(hmac_sha256_of(key, msg))
    }

    fn mac(key: &[u8], msg: &[u8]) -> (r: Result<Vec<u8>, ThotpError>) {
        hmac_sha256(key, msg)
    }
}

impl KeyedHash for Sha512 {
    open spec fn mac_spec(key: Seq<u8>, msg: Seq<u8>) -> Option<Seq<u8>> {
        Some(hmac_sha512_of(key, msg))
    }

    fn mac(key: &[u8], msg: &[u8]) -> (r: Result<Vec<u8>, ThotpError>) {
        hmac_sha512(key, msg)
    }
}

} // verus!
