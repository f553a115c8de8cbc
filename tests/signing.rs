use base64::Engine;
use hmac::Mac;
use redirect_service::signing::{sign, sign_with_lifetime, signing_input_text, verify_signature, SignError};

const URI: &str = "https://ns.servicebus.windows.net/analytics-queue";

#[test]
fn signing_is_deterministic() {
    let a = sign(URI, "RootManageSharedAccessKey", "c2VjcmV0", 1_700_000_000).unwrap();
    let b = sign(URI, "RootManageSharedAccessKey", "c2VjcmV0", 1_700_000_000).unwrap();
    assert_eq!(a, b);
    assert_eq!(a.to_header(), b.to_header());
}

#[test]
fn expiry_is_one_hour_after_now() {
    let c = sign(URI, "k", "secret", 1_700_000_000).unwrap();
    assert_eq!(c.expiry, 1_700_003_600);
    assert!(c.to_header().contains("&se=1700003600&"));
}

#[test]
fn lifetime_is_a_parameter() {
    let c = sign_with_lifetime(URI, "k", "secret", 100, 60).unwrap();
    assert_eq!(c.expiry, 160);
}

#[test]
fn resource_uri_is_lowercased_and_percent_encoded() {
    let c = sign("HTTPS://NS.Example.NET/Queue", "k", "secret", 0).unwrap();
    assert_eq!(c.resource_uri, "https%3A%2F%2Fns.example.net%2Fqueue");
}

#[test]
fn header_has_the_documented_shape() {
    let c = sign(URI, "sender", "secret", 10).unwrap();
    let expected = format!(
        "SharedAccessSignature sr={}&sig={}&se=3610&skn=sender",
        "https%3A%2F%2Fns.servicebus.windows.net%2Fanalytics-queue", c.signature
    );
    assert_eq!(c.to_header(), expected);
}

#[test]
fn signature_reproduces_from_hmac_of_signing_input() {
    let c = sign(URI, "sender", "secret", 1_700_000_000).unwrap();
    let input = format!("{}\n{}", c.resource_uri, c.expiry);
    let mut mac = hmac::Hmac::<sha2::Sha256>::new_from_slice(b"secret").unwrap();
    mac.update(input.as_bytes());
    let b64 = base64::engine::general_purpose::STANDARD.encode(mac.finalize().into_bytes());
    assert_eq!(c.signature, urlencoding::encode(&b64).into_owned());
    assert_ne!(c.signature, b64.clone() + "x");
}

#[test]
fn verification_accepts_the_signing_key_only() {
    let c = sign(URI, "sender", "secret", 42).unwrap();
    assert!(verify_signature(&c, "secret"));
    assert!(!verify_signature(&c, "other"));
    let mut tampered = c.clone();
    tampered.expiry += 1;
    assert!(!verify_signature(&tampered, "secret"));
}

#[test]
fn empty_key_is_an_error() {
    assert_eq!(sign(URI, "sender", "", 0), Err(SignError::EmptyKey));
}

#[test]
fn signing_input_is_uri_newline_expiry() {
    assert_eq!(signing_input_text("a%2Fb", 0), "a%2Fb\n0");
    assert_eq!(signing_input_text("x", 18446744073709551615), "x\n18446744073709551615");
    assert_eq!(signing_input_text("", 1234567890), "\n1234567890");
}
