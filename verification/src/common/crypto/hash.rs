use digest::{Digest, Mac};
use hmac::SimpleHmac;
use md5::Md5;
use sha1::Sha1;
use sha2::Sha256;
use vstd::prelude::*;

verus! {

/// Why a digest could not be made.
#[derive(Debug)]
pub enum CryptoError {
    InvalidKeyLength,
    EncodingError(String),
}

impl CryptoError {
    /// What [`CryptoError::message`] writes.
    pub open spec fn spec_message(&self) -> Seq<char> {
        match self {
            CryptoError::InvalidKeyLength => "Invalid key length"@,
            CryptoError::EncodingError(m) => "Encoding error: "@ + m@,
        }
    }

    /// The error in words.
    pub fn message(&self) -> (r: String)
        ensures
            r@ == self.spec_message(),
    {
        match self {
            CryptoError::InvalidKeyLength => "Invalid key length".to_owned(),
            CryptoError::EncodingError(m) => "Encoding error: ".to_owned().concat(m.as_str()),
        }
    }
}

/// Something that hashes, and signs with a key, giving text.
pub trait Hasher {
    fn hash(&self, data: &[u8]) -> String;

    fn hmac(&self, key: &[u8], data: &[u8]) -> Result<String, CryptoError>;
}

/// The digests in use, each as lower-case hexadecimal text.
#[derive(Debug, Clone, Copy)]
pub struct Crypto;

/// The MD5 digest of `data`.
pub uninterp spec fn md5_digest(data: Seq<u8>) -> Seq<u8>;

/// The SHA-1 digest of `data`.
pub uninterp spec fn sha1_digest(data: Seq<u8>) -> Seq<u8>;

/// The SHA-256 digest of `data`.
pub uninterp spec fn sha256_digest(data: Seq<u8>) -> Seq<u8>;

/// The HMAC of `data` under `key`, with SHA-1 as its hash.
pub uninterp spec fn hmac_sha1_tag(key: Seq<u8>, data: Seq<u8>) -> Seq<u8>;

/// The HMAC of `data` under `key`, with SHA-256 as its hash.
pub uninterp spec fn hmac_sha256_tag(key: Seq<u8>, data: Seq<u8>) -> Seq<u8>;

/// The hexadecimal digit for a number below 16.
pub open spec fn hex_digit(n: int) -> char
    recommends
        0 <= n < 16,
{
    "0123456789abcdef"@[n]
}

/// Two lower-case hexadecimal digits for each byte, the high half first.
pub open spec fn hex_lower(bytes: Seq<u8>) -> Seq<char> {
    Seq::new(
        2 * bytes.len(),
        |i: int|
            if i % 2 == 0 {
                hex_digit(bytes[i / 2] as int / 16)
            } else {
                hex_digit(bytes[i / 2] as int % 16)
            },
    )
}

/// The error with which the crate digest refuses a key. Nothing is inside.
#[verifier::external_type_specification]
#[verifier::external_body]
pub struct ExInvalidLength(digest::InvalidLength);

/// `Md5::digest` of the crate md-5.
#[verifier::external_body]
fn md5_bytes(data: &[u8]) -> (r: Vec<u8>)
    ensures
        r@ == md5_digest(data@),
{
    Md5::digest(data).to_vec()
}

/// `Sha1::digest` of the crate sha1.
#[verifier::external_body]
fn sha1_bytes(data: &[u8]) -> (r: Vec<u8>)
    ensures
        r@ == sha1_digest(data@),
{
    Sha1::digest(data).to_vec()
}

/// `Sha256::digest` of the crate sha2.
#[verifier::external_body]
fn sha256_bytes(data: &[u8]) -> (r: Vec<u8>)
    ensures
        r@ == sha256_digest(data@),
{
    Sha256::digest(data).to_vec()
}

/// `SimpleHmac::<Sha1>` of the crate hmac: `new_from_slice` with the key,
/// `update` with the data, `finalize`. `SimpleHmac` takes a key of any
/// length, so the call succeeds, and its tag is the one that `hmac_sha1_tag`
/// names.
#[verifier::external_body]
fn hmac_sha1_bytes(key: &[u8], data: &[u8]) -> (r: Result<Vec<u8>, digest::InvalidLength>)
    ensures
        r is Ok,
        r matches Ok(tag) ==> tag@ == hmac_sha1_tag(key@, data@),
{
    let mut mac = SimpleHmac::<Sha1>::new_from_slice(key)?;
    mac.update(data);
    Ok(mac.finalize().into_bytes().to_vec())
}

/// `SimpleHmac::<Sha256>` of the crate hmac: `new_from_slice` with the key,
/// `update` with the data, `finalize`. `SimpleHmac` takes a key of any
/// length, so the call succeeds, and its tag is the one that
/// `hmac_sha256_tag` names.
#[verifier::external_body]
fn hmac_sha256_bytes(key: &[u8], data: &[u8]) -> (r: Result<Vec<u8>, digest::InvalidLength>)
    ensures
        r is Ok,
        r matches Ok(tag) ==> tag@ == hmac_sha256_tag(key@, data@),
{
    let mut mac = SimpleHmac::<Sha256>::new_from_slice(key)?;
    mac.update(data);
    Ok(mac.finalize().into_bytes().to_vec())
}

/// `const_hex::encode`: two lower-case hexadecimal digits for each byte.
#[verifier::external_body]
fn hex_text(bytes: &[u8]) -> (r: String)
    ensures
        r@ == hex_lower(bytes@),
{
    const_hex::encode(bytes)
}

impl Crypto {
    /// What signing gives once the key was looked at and the tag was made or
    /// refused: a refused key is `InvalidKeyLength`, a tag is written out in
    /// hexadecimal.
    pub fn signed(tag: Result<Vec<u8>, digest::InvalidLength>) -> (r: Result<String, CryptoError>)
        ensures
            match tag {
                Ok(t) => r matches Ok(s) && s@ == hex_lower(t@),
                Err(_) => r matches Err(CryptoError::InvalidKeyLength),
            },
    {
        match tag {
            Ok(t) => Ok(hex_text(t.as_slice())),
            Err(_) => Err(CryptoError::InvalidKeyLength),
        }
    }

    /// The MD5 digest of `data`, in hexadecimal.
    pub fn md5(data: &[u8]) -> (r: String)
        ensures
            r@ == hex_lower(md5_digest(data@)),
    {
        hex_text(md5_bytes(data).as_slice())
    }

    /// The SHA-1 digest of `data`, in hexadecimal.
    pub fn sha1(data: &[u8]) -> (r: String)
        ensures
            r@ == hex_lower(sha1_digest(data@)),
    {
        hex_text(sha1_bytes(data).as_slice())
    }

    /// The SHA-256 digest of `data`, in hexadecimal.
    pub fn sha256(data: &[u8]) -> (r: String)
        ensures
            r@ == hex_lower(sha256_digest(data@)),
    {
        hex_text(sha256_bytes(data).as_slice())
    }

    /// The HMAC-SHA1 of `data` under `key`, in hexadecimal. An empty key is
    /// refused.
    pub fn hmac_sha1(key: &[u8], data: &[u8]) -> (r: Result<String, CryptoError>)
        ensures
            key@.len() == 0 ==> r matches Err(CryptoError::InvalidKeyLength),
            key@.len() > 0 ==> (r matches Ok(s) && s@ == hex_lower(hmac_sha1_tag(key@, data@))),
    {
        if key.len() == 0 {
            return Err(CryptoError::InvalidKeyLength);
        }
        Self::signed(hmac_sha1_bytes(key, data))
    }

    /// The HMAC-SHA256 of `data` under `key`, in hexadecimal. An empty key
    /// is refused.
    pub fn hmac_sha256(key: &[u8], data: &[u8]) -> (r: Result<String, CryptoError>)
        ensures
            key@.len() == 0 ==> r matches Err(CryptoError::InvalidKeyLength),
            key@.len() > 0 ==> (r matches Ok(s) && s@ == hex_lower(hmac_sha256_tag(key@, data@))),
    {
        if key.len() == 0 {
            return Err(CryptoError::InvalidKeyLength);
        }
        Self::signed(hmac_sha256_bytes(key, data))
    }
}

} // verus!
