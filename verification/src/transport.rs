use vstd::prelude::*;
use vstd::string::StringExecFns;
use base64::Engine;
use crate::errors::OpenLimitError;
use crate::strutil::spec_dec;
use crate::strutil::u64_to_dec_string;

verus! {

/// What the base64 STANDARD engine makes of a string: the decoded bytes for
/// a valid standard-alphabet, padded base64 string, nothing otherwise.
pub uninterp spec fn b64_decode_of(s: Seq<char>) -> Option<Seq<u8>>;

/// What the base64 STANDARD engine makes of a byte string.
pub uninterp spec fn b64_encode_of(b: Seq<u8>) -> Seq<char>;

/// The HMAC-SHA256 digest of the UTF-8 bytes of `msg`, keyed by `key`.
pub uninterp spec fn hmac_sha256_of(key: Seq<u8>, msg: Seq<char>) -> Seq<u8>;

/// The string value of the field named `field` of `body` read as a JSON
/// document, if `body` is one and has such a string field.
pub uninterp spec fn json_string_field_of(body: Seq<char>, field: Seq<char>) -> Option<Seq<char>>;

/// Relies on base64's `Engine::decode` with the STANDARD engine: decodes a
/// standard-alphabet, padded base64 string and fails exactly on input that
/// is not one; the result depends on the input alone.
#[verifier::external_body]
fn b64_decode(s: &str) -> (r: Option<Vec<u8>>)
    ensures
        match r {
            Some(v) => b64_decode_of(s@) == Some(v@),
            None => b64_decode_of(s@) is None,
        },
{
    base64::engine::general_purpose::STANDARD.decode(s).ok()
}

/// Relies on base64's `Engine::encode` with the STANDARD engine: the
/// encoding of a byte string depends on its bytes alone.
#[verifier::external_body]
fn b64_encode(b: &[u8]) -> (r: String)
    ensures
        r@ == b64_encode_of(b@),
{
    base64::engine::general_purpose::STANDARD.encode(b)
}

/// Relies on `hmac::Hmac` with `sha2::Sha256`: the digest of the UTF-8
/// bytes of `msg` keyed by `key` depends on its arguments alone; HMAC
/// accepts keys of any length, so construction cannot fail.
#[verifier::external_body]
fn hmac_sha256(key: &[u8], msg: &str) -> (r: Vec<u8>)
    ensures
        r@ == hmac_sha256_of(key@, msg@),
{
    let mut mac = <hmac::Hmac<sha2::Sha256> as hmac::KeyInit>::new_from_slice(key)
        .expect("HMAC accepts keys of any length");
    hmac::Mac::update(&mut mac, msg.as_bytes());
    hmac::Mac::finalize(mac).into_bytes().to_vec()
}

/// Relies on `serde_json::from_str`, `Value::get` and `Value::as_str`:
/// reads the string field named `field` of `body` parsed as a JSON
/// document; yields nothing when `body` is not such a document or has no
/// such string field. The result depends on the arguments alone.
#[verifier::external_body]
fn json_string_field(body: &str, field: &str) -> (r: Option<String>)
    ensures
        match r {
            Some(m) => json_string_field_of(body@, field@) == Some(m@),
            None => json_string_field_of(body@, field@) is None,
        },
{
    let value: serde_json::Value = serde_json::from_str(body).ok()?;
    Some(value.get(field)?.as_str()?.to_owned())
}

/// Credential material an authenticated transport holds: the key id, the
/// base64-decoded API secret, and the passphrase. Never logged, never read
/// back out of the transport.
pub struct Credentials {
    pub api_key: String,
    pub api_secret: Vec<u8>,
    pub passphrase: String,
}

/// The REST endpoint a transport is bound to.
pub open spec fn spec_base_url(sandbox: bool) -> Seq<char> {
    if sandbox {
        "https://api-public.sandbox.pro.coinbase.com"@
    } else {
        "https://api.pro.coinbase.com"@
    }
}

/// Builds authenticated requests against one base URL. Immutable once
/// constructed; performs no retry of its own: one request, one typed
/// outcome.
pub struct Transport {
    pub base_url: String,
    pub credentials: Option<Credentials>,
}

/// The signature headers attached to an authenticated request.
pub struct AuthHeaders {
    pub key: String,
    pub passphrase: String,
    pub timestamp: u64,
    pub signature: String,
}

/// One fully built outbound request: everything the HTTP layer needs to
/// send it, computed and signed ahead of the send.
pub struct SignedRequest {
    pub method: String,
    pub path: String,
    pub body: String,
    pub headers: Option<AuthHeaders>,
}

/// The string that is signed: wall-clock seconds, the method, the path with
/// its query, and the body, in that order, with nothing between them.
pub open spec fn spec_prehash(
    timestamp: u64,
    method: Seq<char>,
    path: Seq<char>,
    body: Seq<char>,
) -> Seq<char> {
    spec_dec(timestamp as nat) + method + path + body
}

/// The signature header value: the base64 encoding of the HMAC-SHA256
/// digest of the prehash string, keyed by the decoded API secret.
pub open spec fn spec_signature(
    secret: Seq<u8>,
    timestamp: u64,
    method: Seq<char>,
    path: Seq<char>,
    body: Seq<char>,
) -> Seq<char> {
    b64_encode_of(hmac_sha256_of(secret, spec_prehash(timestamp, method, path, body)))
}

impl Transport {
    /// A transport without credentials, restricted to public endpoints.
    pub fn new(sandbox: bool) -> (r: Transport)
        ensures
            r.base_url@ == spec_base_url(sandbox),
            r.credentials is None,
    {
        Transport {
            base_url: if sandbox {
                String::from_str("https://api-public.sandbox.pro.coinbase.com")
            } else {
                String::from_str("https://api.pro.coinbase.com")
            },
            credentials: None,
        }
    }

    /// A transport bound to credential material. The API secret must be
    /// valid base64; anything else is malformed credential material and
    /// fails with `ConfigError` before any request is built.
    pub fn with_credential(api_key: &str, api_secret: &str, passphrase: &str, sandbox: bool) -> (r:
        Result<Transport, OpenLimitError>)
        ensures
            match r {
                Ok(t) => b64_decode_of(api_secret@) matches Some(secret) && t.base_url@
                    == spec_base_url(sandbox) && (t.credentials matches Some(c) && c.api_key@
                    == api_key@ && c.api_secret@ == secret && c.passphrase@ == passphrase@),
                Err(e) => b64_decode_of(api_secret@) is None && (e matches
                    OpenLimitError::ConfigError(m) && m@
                    == "api secret is not valid base64"@),
            },
    {
        match b64_decode(api_secret) {
            Some(secret) => {
                let t = Transport::new(sandbox);
                Ok(
                    Transport {
                        base_url: t.base_url,
                        credentials: Some(
                            Credentials {
                                api_key: api_key.to_owned(),
                                api_secret: secret,
                                passphrase: passphrase.to_owned(),
                            },
                        ),
                    },
                )
            },
            None => Err(
                OpenLimitError::ConfigError(String::from_str("api secret is not valid base64")),
            ),
        }
    }

    /// Build one outbound request. When the transport holds credentials the
    /// request is signed over timestamp, method, path and body; without
    /// credentials an authenticated endpoint is refused up front with
    /// `AuthenticationError`, and a public one goes out unsigned.
    pub fn build_request(
        &self,
        method: &str,
        path: &str,
        body: &str,
        timestamp: u64,
        authenticated: bool,
    ) -> (r: Result<SignedRequest, OpenLimitError>)
        ensures
            match r {
                Ok(req) => req.method@ == method@ && req.path@ == path@ && req.body@ == body@
                    && match self.credentials {
                    Some(c) => req.headers matches Some(h) && h.key@ == c.api_key@ && h.passphrase@
                        == c.passphrase@ && h.timestamp == timestamp && h.signature@
                        == spec_signature(c.api_secret@, timestamp, method@, path@, body@),
                    None => !authenticated && req.headers is None,
                },
                Err(e) => authenticated && self.credentials is None && (e matches
                    OpenLimitError::AuthenticationError(m) && m@
                    == "this endpoint needs credentials, and the transport holds none"@),
            },
    {
        match &self.credentials {
            Some(c) => {
                let mut prehash = u64_to_dec_string(timestamp);
                prehash.append(method);
                prehash.append(path);
                prehash.append(body);
                let digest = hmac_sha256(c.api_secret.as_slice(), prehash.as_str());
                let signature = b64_encode(digest.as_slice());
                Ok(
                    SignedRequest {
                        method: method.to_owned(),
                        path: path.to_owned(),
                        body: body.to_owned(),
                        headers: Some(
                            AuthHeaders {
                                key: c.api_key.clone(),
                                passphrase: c.passphrase.clone(),
                                timestamp,
                                signature,
                            },
                        ),
                    },
                )
            },
            None => {
                if authenticated {
                    Err(
                        OpenLimitError::AuthenticationError(
                            String::from_str(
                                "this endpoint needs credentials, and the transport holds none",
                            ),
                        ),
                    )
                } else {
                    Ok(
                        SignedRequest {
                            method: method.to_owned(),
                            path: path.to_owned(),
                            body: body.to_owned(),
                            headers: None,
                        },
                    )
                }
            },
        }
    }
}

/// What came back from one attempted HTTP exchange: a response with its
/// status and body, or no response at all.
pub enum HttpOutcome {
    Response { status: u16, body: String },
    NetworkFailure { message: String },
}

/// The message an `ExchangeError` carries for a rejected request: the
/// backend's own `message` field when the body is such a JSON document, the
/// raw body otherwise.
pub open spec fn spec_exchange_message(body: Seq<char>) -> Seq<char> {
    match json_string_field_of(body, "message"@) {
        Some(m) => m,
        None => body,
    }
}

/// Classify one HTTP outcome into the typed error taxonomy: no response is
/// a retryable `NetworkError`; a 2xx response hands its body on; 401 and
/// 403 are `AuthenticationError`; any other status is the backend's own
/// semantic rejection, surfaced as `ExchangeError` with the backend's
/// message.
pub fn classify_response(outcome: HttpOutcome) -> (r: Result<String, OpenLimitError>)
    ensures
        match outcome {
            HttpOutcome::NetworkFailure { message } => r == Err::<String, OpenLimitError>(
                OpenLimitError::NetworkError(message),
            ),
            HttpOutcome::Response { status, body } => {
                if 200 <= status < 300 {
                    r == Ok::<String, OpenLimitError>(body)
                } else if status == 401 || status == 403 {
                    r matches Err(e) && (e matches OpenLimitError::AuthenticationError(m) && m@
                        == "the exchange rejected the request as unauthorized"@)
                } else {
                    r matches Err(e) && (e matches OpenLimitError::ExchangeError { code, message }
                        && code == status && message@ == spec_exchange_message(body@))
                }
            },
        },
{
    match outcome {
        HttpOutcome::NetworkFailure { message } => Err(OpenLimitError::NetworkError(message)),
        HttpOutcome::Response { status, body } => {
            if 200 <= status && status < 300 {
                Ok(body)
            } else if status == 401 || status == 403 {
                Err(
                    OpenLimitError::AuthenticationError(
                        String::from_str("the exchange rejected the request as unauthorized"),
                    ),
                )
            } else {
                let message = match json_string_field(body.as_str(), "message") {
                    Some(m) => m,
                    None => body,
                };
                Err(OpenLimitError::ExchangeError { code: status, message })
            }
        },
    }
}

} // verus!
