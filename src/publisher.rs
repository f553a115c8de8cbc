//! Publishing analytics events: the request sent to the queue's HTTP
//! ingestion endpoint, and how its answer is judged. Exactly one attempt is
//! made per event; nothing is retried.

use vstd::prelude::*;
use crate::config::QueueConfig;
use crate::signing::{
    header_text, lowercase_of, percent_encoding_of, sign, signature_for, SignError,
    TOKEN_LIFETIME_SECS,
};

verus! {

/// The credential header for `uri`, signed with `key` at time `now`.
pub open spec fn sas_token(uri: Seq<char>, key_name: Seq<char>, key: Seq<char>, now: nat) -> Seq<char> {
    let sr = percent_encoding_of(lowercase_of(uri));
    let se: nat = now + TOKEN_LIFETIME_SECS as nat;
    header_text(sr, signature_for(key, sr, se), se, key_name)
}

/// The resource URI of `queue` on namespace host `endpoint`.
pub open spec fn queue_uri(endpoint: Seq<char>, queue: Seq<char>) -> Seq<char> {
    "https://"@ + endpoint + "/"@ + queue
}

/// Why an event was not delivered.
#[derive(Clone, Debug, PartialEq, Eq)]
pub enum PublishError {
    /// No credential could be issued.
    Signing(SignError),
    /// The queue answered with a status outside 2xx; the body is kept for diagnosis.
    Rejected { status: u16, body: String },
}

/// The HTTP request that delivers one event.
#[derive(Clone, Debug, PartialEq, Eq)]
pub struct PublishRequest {
    /// Target of the `POST`.
    pub url: String,
    /// Value of the `Authorization` header.
    pub authorization: String,
}

impl PublishRequest {
    /// Value of the `Content-Type` header.
    pub fn content_type(&self) -> (r: &'static str)
        ensures
            r@ == "application/json"@,
    {
        "application/json"
    }
}

/// The credential header for `queue` on `endpoint`, valid for one hour from `now`.
pub fn generate_sas_token(endpoint: &str, queue: &str, key_name: &str, key: &str, now: u64) -> (r:
    Result<String, SignError>)
    requires
        now + TOKEN_LIFETIME_SECS <= u64::MAX,
    ensures
        key@.len() == 0 <==> r is Err,
        r matches Err(e) ==> e == SignError::EmptyKey,
        r matches Ok(h) ==> h@ == sas_token(queue_uri(endpoint@, queue@), key_name@, key@, now as nat),
{
    let mut uri = String::from_str("https://");
    uri.append(endpoint);
    uri.append("/");
    uri.append(queue);
    match sign(uri.as_str(), key_name, key, now) {
        Ok(c) => Ok(c.to_header()),
        Err(e) => Err(e),
    }
}

/// The request that publishes one event under `config` at time `now`: a
/// `POST` to the analytics queue's `messages` endpoint, authorized by a
/// fresh credential for the queue.
pub fn prepare_publish(config: &QueueConfig, now: u64) -> (r: Result<PublishRequest, PublishError>)
    requires
        now + TOKEN_LIFETIME_SECS <= u64::MAX,
    ensures
        config.key@.len() == 0 <==> r is Err,
        r matches Err(e) ==> e == PublishError::Signing(SignError::EmptyKey),
        r matches Ok(req) ==> {
            &&& req.url@ == queue_uri(config.endpoint@, "analytics-queue"@) + "/messages"@
            &&& req.authorization@ == sas_token(
                queue_uri(config.endpoint@, "analytics-queue"@),
                config.key_name@,
                config.key@,
                now as nat,
            )
        },
{
    let queue = "analytics-queue";
    let authorization = match generate_sas_token(
        config.endpoint.as_str(),
        queue,
        config.key_name.as_str(),
        config.key.as_str(),
        now,
    ) {
        Ok(h) => h,
        Err(e) => return Err(PublishError::Signing(e)),
    };
    let mut url = String::from_str("https://");
    url.append(config.endpoint.as_str());
    url.append("/");
    url.append(queue);
    url.append("/messages");
    Ok(PublishRequest { url, authorization })
}

/// Judges the queue's answer: any 2xx status is a delivery, anything else a
/// rejection that carries the status and body.
pub fn publish_outcome(status: u16, body: String) -> (r: Result<(), PublishError>)
    ensures
        200 <= status <= 299 <==> r is Ok,
        !(200 <= status <= 299) ==> r == Err::<(), PublishError>(
            PublishError::Rejected { status, body },
        ),
{
    if 200 <= status && status <= 299 {
        Ok(())
    } else {
        Err(PublishError::Rejected { status, body })
    }
}

} // verus!
