//! Shared-access-signature credentials: a time-limited, HMAC-SHA256 signed
//! authorization for one resource URI.

use vstd::prelude::*;
use crate::text::{decimal, push_decimal};
use base64::Engine;
use hmac::Mac;

verus! {

/// Lifetime of a credential, in seconds from issuance.
pub const TOKEN_LIFETIME_SECS: u64 = 3600;

/// What `str::to_lowercase` returns for the given characters.
pub uninterp spec fn lowercase_of(s: Seq<char>) -> Seq<char>;

/// What `urlencoding::encode` returns for the given characters.
pub uninterp spec fn percent_encoding_of(s: Seq<char>) -> Seq<char>;

/// The HMAC-SHA256 tag of the UTF-8 bytes of `msg` under the UTF-8 bytes of `key`.
pub uninterp spec fn hmac_sha256_of(key: Seq<char>, msg: Seq<char>) -> Seq<u8>;

/// The standard, padded base64 encoding of `bytes`.
pub uninterp spec fn base64_of(bytes: Seq<u8>) -> Seq<char>;

/// Relies on `str::to_lowercase`: the result depends on the characters alone.
#[verifier::external_body]
fn to_lower(s: &str) -> (r: String)
    ensures
        r@ == lowercase_of(s@),
{
    s.to_lowercase()
}

/// Relies on `urlencoding::encode`: percent-encodes every byte but
/// alphanumerics and `-`, `_`, `.`, `~`.
#[verifier::external_body]
fn percent_encode(s: &str) -> (r: String)
    ensures
        r@ == percent_encoding_of(s@),
{
    urlencoding::encode(s).into_owned()
}

/// Relies on `hmac::Hmac<sha2::Sha256>`: `new_from_slice` accepts a key of
/// any length, then `update` and `finalize` give the tag of the message.
#[verifier::external_body]
fn hmac_sha256(key: &str, msg: &str) -> (r: Vec<u8>)
    ensures
        r@ == hmac_sha256_of(key@, msg@),
{
    let mut mac = hmac::Hmac::<sha2::Sha256>::new_from_slice(key.as_bytes())
        .expect("HMAC takes keys of any length");
    mac.update(msg.as_bytes());
    mac.finalize().into_bytes().to_vec()
}

/// Relies on `base64`'s `STANDARD` engine: `encode` gives the padded
/// standard-alphabet encoding.
#[verifier::external_body]
fn base64_encode(bytes: &Vec<u8>) -> (r: String)
    ensures
        r@ == base64_of(bytes@),
{
    base64::engine::general_purpose::STANDARD.encode(bytes)
}

/// The text that is signed: the encoded URI, a newline, the expiry in decimal.
pub open spec fn signing_input(encoded_uri: Seq<char>, expiry: nat) -> Seq<char> {
    encoded_uri.push('\n') + decimal(expiry)
}

/// The value of the `sig` field for a resource and expiry under `key`:
/// the HMAC of the signing input, base64-encoded, then percent-encoded.
pub open spec fn signature_for(key: Seq<char>, encoded_uri: Seq<char>, expiry: nat) -> Seq<char> {
    percent_encoding_of(base64_of(hmac_sha256_of(key, signing_input(encoded_uri, expiry))))
}

/// Why a credential could not be issued.
#[derive(Clone, Copy, Debug, PartialEq, Eq)]
pub enum SignError {
    /// The shared key is empty: no usable key material.
    EmptyKey,
}

/// A signed credential for one resource URI.
#[derive(Clone, Debug, PartialEq, Eq)]
pub struct SignedCredential {
    /// The percent-encoded, lowercased resource URI (`sr`).
    pub resource_uri: String,
    /// The percent-encoded base64 signature (`sig`).
    pub signature: String,
    /// Expiry in seconds since the Unix epoch (`se`).
    pub expiry: u64,
    /// Name of the shared access key (`skn`).
    pub key_name: String,
}

/// `c` is the credential that signing `uri` with `key_name` and `key` at time
/// `now` with the given lifetime issues.
pub open spec fn issued_for(
    c: SignedCredential,
    uri: Seq<char>,
    key_name: Seq<char>,
    key: Seq<char>,
    now: nat,
    lifetime: nat,
) -> bool {
    &&& c.resource_uri@ == percent_encoding_of(lowercase_of(uri))
    &&& c.expiry == now + lifetime
    &&& c.key_name@ == key_name
    &&& c.signature@ == signature_for(key, c.resource_uri@, c.expiry as nat)
}

/// The header form of a credential.
pub open spec fn header_text(
    resource_uri: Seq<char>,
    signature: Seq<char>,
    expiry: nat,
    key_name: Seq<char>,
) -> Seq<char> {
    "SharedAccessSignature sr="@ + resource_uri + "&sig="@ + signature + "&se="@ + decimal(expiry)
        + "&skn="@ + key_name
}

/// `signature` is what `key` gives for the credential's resource and expiry.
pub open spec fn signature_valid(c: SignedCredential, key: Seq<char>) -> bool {
    c.signature@ == signature_for(key, c.resource_uri@, c.expiry as nat)
}

impl SignedCredential {
    /// `SharedAccessSignature sr={uri}&sig={sig}&se={expiry}&skn={keyName}`.
    pub fn to_header(&self) -> (r: String)
        ensures
            r@ == header_text(self.resource_uri@, self.signature@, self.expiry as nat, self.key_name@),
    {
        let mut r = String::from_str("SharedAccessSignature sr=");
        r.append(self.resource_uri.as_str());
        r.append("&sig=");
        r.append(self.signature.as_str());
        r.append("&se=");
        push_decimal(&mut r, self.expiry);
        r.append("&skn=");
        r.append(self.key_name.as_str());
        r
    }
}

/// The text signed for `encoded_uri` and `expiry`: `"{encoded_uri}\n{expiry}"`.
pub fn signing_input_text(encoded_uri: &str, expiry: u64) -> (r: String)
    ensures
        r@ == signing_input(encoded_uri@, expiry as nat),
{
    let mut r = String::from_str(encoded_uri);
    r.append("\n");
    push_decimal(&mut r, expiry);
    proof {
        reveal_strlit("\n");
    }
    assert(r@ =~= signing_input(encoded_uri@, expiry as nat));
    r
}

/// Issues a credential for `uri`, valid for `lifetime` seconds from `now`.
pub fn sign_with_lifetime(uri: &str, key_name: &str, key: &str, now: u64, lifetime: u64) -> (r:
    Result<SignedCredential, SignError>)
    requires
        now + lifetime <= u64::MAX,
    ensures
        key@.len() == 0 <==> r is Err,
        r matches Err(e) ==> e == SignError::EmptyKey,
        r matches Ok(c) ==> issued_for(c, uri@, key_name@, key@, now as nat, lifetime as nat),
{
    if key.unicode_len() == 0 {
        return Err(SignError::EmptyKey);
    }
    let lowered = to_lower(uri);
    let resource_uri = percent_encode(lowered.as_str());
    let expiry = now + lifetime;
    let to_sign = signing_input_text(resource_uri.as_str(), expiry);
    let tag = hmac_sha256(key, to_sign.as_str());
    let encoded_tag = base64_encode(&tag);
    let signature = percent_encode(encoded_tag.as_str());
    Ok(SignedCredential { resource_uri, signature, expiry, key_name: String::from_str(key_name) })
}

/// Issues a credential for `uri`, valid for one hour from `now`.
pub fn sign(uri: &str, key_name: &str, key: &str, now: u64) -> (r: Result<SignedCredential, SignError>)
    requires
        now + TOKEN_LIFETIME_SECS <= u64::MAX,
    ensures
        key@.len() == 0 <==> r is Err,
        r matches Err(e) ==> e == SignError::EmptyKey,
        r matches Ok(c) ==> issued_for(c, uri@, key_name@, key@, now as nat, TOKEN_LIFETIME_SECS as nat),
{
    sign_with_lifetime(uri, key_name, key, now, TOKEN_LIFETIME_SECS)
}

/// Recomputes the signature of `c` under `key` and compares it with `c`'s own.
pub fn verify_signature(c: &SignedCredential, key: &str) -> (r: bool)
    ensures
        r == signature_valid(*c, key@),
{
    let to_sign = signing_input_text(c.resource_uri.as_str(), c.expiry);
    let tag = hmac_sha256(key, to_sign.as_str());
    let encoded_tag = base64_encode(&tag);
    let expected = percent_encode(encoded_tag.as_str());
    expected == c.signature
}

/// Signing is deterministic: two credentials issued for the same URI, key
/// name, key and time agree in every field and in their header form, and both
/// expire one hour after that time.
pub proof fn lemma_signing_deterministic(
    c1: SignedCredential,
    c2: SignedCredential,
    uri: Seq<char>,
    key_name: Seq<char>,
    key: Seq<char>,
    now: nat,
)
    requires
        issued_for(c1, uri, key_name, key, now, TOKEN_LIFETIME_SECS as nat),
        issued_for(c2, uri, key_name, key, now, TOKEN_LIFETIME_SECS as nat),
    ensures
        c1.resource_uri@ == c2.resource_uri@,
        c1.signature@ == c2.signature@,
        c1.expiry == c2.expiry,
        c1.key_name@ == c2.key_name@,
        c1.expiry == now + 3600,
        header_text(c1.resource_uri@, c1.signature@, c1.expiry as nat, c1.key_name@)
            == header_text(c2.resource_uri@, c2.signature@, c2.expiry as nat, c2.key_name@),
{
}

/// An issued credential passes verification under the key it was signed
/// with: recomputing the HMAC of the signing input reproduces its `sig`.
pub proof fn lemma_issued_credential_verifies(
    c: SignedCredential,
    uri: Seq<char>,
    key_name: Seq<char>,
    key: Seq<char>,
    now: nat,
    lifetime: nat,
)
    requires
        issued_for(c, uri, key_name, key, now, lifetime),
    ensures
        signature_valid(c, key),
        c.signature@ == percent_encoding_of(
            base64_of(hmac_sha256_of(key, c.resource_uri@.push('\n') + decimal(c.expiry as nat))),
        ),
{
}

} // verus!
