//! Webhook deliveries: the three body kinds on the wire, the HMAC-SHA256
//! body signature, and the preparation of one ready-to-post request per
//! configured endpoint.
//!
//! Sending is network work and stays at the process edge; everything that
//! determines the bytes of a delivery — the serialized body, the signature
//! header, the target — is built and proved here.

use vstd::prelude::*;

use crate::config::{WebhooksConfig, WebhooksHookConfig, WebhooksHookConfigIntervalMetrics};
use crate::encode::{append_json_escaped, append_hex, spec_escape, spec_hex_str};
use crate::json::{append_json_metrics, spec_json_metrics};
use crate::metrics::{CapturedMetrics, Metrics, MetricsView, Millis};
use crate::rfc3339::{rfc3339_millis, spec_rfc3339_millis, MAX_RFC3339_MILLIS};

verus! {

/// The closed set of hook kinds, serialized to their fixed wire names: a
/// delivery is one of these and nothing else.
#[derive(Clone, Copy, PartialEq, Eq, Structural, Debug)]
pub enum HookTypes {
    OnStart,
    Ping,
    Metrics,
}

/// The wire name of a hook kind.
pub open spec fn spec_wire_hook(h: HookTypes) -> Seq<char> {
    match h {
        HookTypes::OnStart => "on_start"@,
        HookTypes::Ping => "ping"@,
        HookTypes::Metrics => "metrics"@,
    }
}

impl HookTypes {
    /// The wire name of this hook kind.
    pub fn wire_str(&self) -> (r: &'static str)
        ensures
            r@ == spec_wire_hook(*self),
    {
        match self {
            HookTypes::OnStart => "on_start",
            HookTypes::Ping => "ping",
            HookTypes::Metrics => "metrics",
        }
    }
}

/// The body of an `on_start` or `ping` delivery: who sends, when it was
/// sent, and which kind of hook fired.
pub struct BaseBody {
    pub agent_id: String,
    pub sent_at: Millis,
    pub hook_type: HookTypes,
}

/// The body of a `metrics` delivery: the base fields plus the metrics set
/// of the snapshot that the tick read.
pub struct MetricsBody {
    pub agent_id: String,
    pub sent_at: Millis,
    pub hook_type: HookTypes,
    pub metrics: Metrics,
}

/// The serialized form of a base body: a JSON object with the agent id
/// escaped, the send time as an RFC 3339 string, and the hook kind's wire
/// name.
pub open spec fn spec_json_base_body(agent_id: Seq<char>, sent_at: int, hook: HookTypes) -> Seq<
    char,
> {
    "{\"agent_id\":\""@ + spec_escape(agent_id) + "\",\"sent_at\":\""@ + spec_rfc3339_millis(
        sent_at,
    ) + "\",\"hook_type\":\""@ + spec_wire_hook(hook) + "\"}"@
}

/// The serialized form of a metrics body: the base fields followed by the
/// rendered metrics set.
pub open spec fn spec_json_metrics_body(
    agent_id: Seq<char>,
    sent_at: int,
    hook: HookTypes,
    m: MetricsView,
) -> Seq<char> {
    "{\"agent_id\":\""@ + spec_escape(agent_id) + "\",\"sent_at\":\""@ + spec_rfc3339_millis(
        sent_at,
    ) + "\",\"hook_type\":\""@ + spec_wire_hook(hook) + "\",\"metrics\":"@ + spec_json_metrics(m)
        + seq!['}']
}

impl BaseBody {
    /// Serialize this body to its exact wire bytes.
    pub fn to_json(&self) -> (r: String)
        requires
            self.sent_at < MAX_RFC3339_MILLIS,
        ensures
            r@ == spec_json_base_body(self.agent_id@, self.sent_at as int, self.hook_type),
    {
        let mut out = String::new();
        out.append("{\"agent_id\":\"");
        append_json_escaped(&mut out, self.agent_id.as_str());
        out.append("\",\"sent_at\":\"");
        let ts = rfc3339_millis(self.sent_at);
        out.append(ts.as_str());
        out.append("\",\"hook_type\":\"");
        out.append(self.hook_type.wire_str());
        out.append("\"}");
        proof {
            assert(out@ =~= spec_json_base_body(
                self.agent_id@,
                self.sent_at as int,
                self.hook_type,
            ));
        }
        out
    }
}

impl MetricsBody {
    /// Serialize this body to its exact wire bytes.
    pub fn to_json(&self) -> (r: String)
        requires
            self.sent_at < MAX_RFC3339_MILLIS,
        ensures
            r@ == spec_json_metrics_body(
                self.agent_id@,
                self.sent_at as int,
                self.hook_type,
                self.metrics@,
            ),
    {
        let mut out = String::new();
        out.append("{\"agent_id\":\"");
        append_json_escaped(&mut out, self.agent_id.as_str());
        out.append("\",\"sent_at\":\"");
        let ts = rfc3339_millis(self.sent_at);
        out.append(ts.as_str());
        out.append("\",\"hook_type\":\"");
        out.append(self.hook_type.wire_str());
        out.append("\",\"metrics\":");
        append_json_metrics(&mut out, &self.metrics);
        out.append("}");
        proof {
            reveal_strlit("}");
            assert("}"@ =~= seq!['}']);
            assert(out@ =~= spec_json_metrics_body(
                self.agent_id@,
                self.sent_at as int,
                self.hook_type,
                self.metrics@,
            ));
        }
        out
    }
}

/// The longest HMAC key the TLS library accepts: the key length is passed
/// down as a C `int`, and a longer key makes the call panic rather than
/// return.
pub const MAX_HMAC_KEY_BYTES: u64 = 0x7FFF_FFFF;

/// A secret that can be used for signing: its UTF-8 encoding stays within
/// the largest HMAC key the TLS library accepts.
pub open spec fn spec_secret_fits(s: Seq<char>) -> bool {
    vstd::utf8::encode_utf8(s).len() <= MAX_HMAC_KEY_BYTES
}

/// The HMAC-SHA256 digest of a message under a key: a fixed function of
/// the two byte strings, computed by the TLS library.
pub uninterp spec fn spec_hmac_sha256(key: Seq<u8>, message: Seq<u8>) -> Seq<u8>;

/// Relies on openssl's HMAC-SHA256 — PKey::hmac, then a Signer over
/// MessageDigest::sha256 — whose digest is a 32-byte function of the key
/// and message bytes alone. PKey::hmac asserts that the key length fits a
/// C `int` and panics on anything longer, so that bound is required here.
#[verifier::external_body]
fn hmac_sha256(secret: &[u8], message: &[u8]) -> (r: Vec<u8>)
    requires
        secret@.len() <= MAX_HMAC_KEY_BYTES,
    ensures
        r@ == spec_hmac_sha256(secret@, message@),
        r@.len() == 32,
{
    let key = openssl::pkey::PKey::hmac(secret).unwrap();
    let mut signer =
        openssl::sign::Signer::new(openssl::hash::MessageDigest::sha256(), &key).unwrap();
    signer.update(message).unwrap();
    signer.sign_to_vec().unwrap()
}

/// The signature of a body under a secret: the lowercase hexadecimal
/// rendering of the HMAC-SHA256 digest of the body's UTF-8 bytes under the
/// secret's UTF-8 bytes.
pub open spec fn spec_sign_body(body: Seq<char>, secret: Seq<char>) -> Seq<char> {
    spec_hex_str(
        spec_hmac_sha256(vstd::utf8::encode_utf8(secret), vstd::utf8::encode_utf8(body)),
    )
}

/// Sign a webhook body with HMAC-SHA256 under `secret`, rendered as 64
/// lowercase hexadecimal digits: the value of the `X-Hub-Signature-256`
/// header. The secret must fit the TLS library's key-length limit.
pub fn sign_body(body: &String, secret: String) -> (r: String)
    requires
        spec_secret_fits(secret@),
    ensures
        r@ == spec_sign_body(body@, secret@),
        r@.len() == 64,
{
    let mac = hmac_sha256(secret.as_str().as_bytes(), body.as_str().as_bytes());
    let mut out = String::new();
    proof {
        crate::encode::lemma_hex_str_len(mac@);
    }
    append_hex(&mut out, mac.as_slice());
    proof {
        assert(Seq::<char>::empty() + spec_hex_str(mac@) =~= spec_hex_str(mac@));
    }
    out
}

/// One delivery, ready to post: where it goes, the exact body bytes, and
/// the signature header value when the endpoint holds a secret.
pub struct WebhookRequest {
    pub url: String,
    pub body: String,
    pub signature: Option<String>,
}

/// What a prepared request must be for an endpoint at `url` holding
/// `secret`, delivering `body`: the body is carried byte for byte, and the
/// signature header is present under exactly the endpoints with a secret,
/// holding the body's signature under that secret.
pub open spec fn spec_prepared(
    r: WebhookRequest,
    url: Seq<char>,
    secret: Option<String>,
    body: Seq<char>,
) -> bool {
    &&& r.url@ == url
    &&& r.body@ == body
    &&& (r.signature is Some) == (secret is Some)
    &&& (secret matches Some(s) ==> (r.signature matches Some(sig) && sig@ == spec_sign_body(
        body,
        s@,
    )))
}

/// Whether an endpoint's secret, if it holds one, can be used for
/// signing.
pub open spec fn spec_endpoint_secret_fits(c: WebhooksHookConfig) -> bool {
    c.secret matches Some(s) ==> spec_secret_fits(s@)
}

/// Whether every endpoint in a list holds a usable secret, if any.
pub open spec fn spec_secrets_fit(clients: Seq<WebhooksHookConfig>) -> bool {
    forall|i: int| 0 <= i < clients.len() ==> spec_endpoint_secret_fits(#[trigger] clients[i])
}

/// Whether an interval endpoint's secret, if it holds one, can be used
/// for signing.
pub open spec fn spec_interval_secret_fits(c: WebhooksHookConfigIntervalMetrics) -> bool {
    c.secret matches Some(s) ==> spec_secret_fits(s@)
}

/// Prepare one delivery of the serialized body `raw_body` to `client`:
/// sign it exactly when the endpoint holds a secret.
pub fn prepare_to_client(raw_body: &String, client: &WebhooksHookConfig) -> (r: WebhookRequest)
    requires
        spec_endpoint_secret_fits(*client),
    ensures
        spec_prepared(r, client.url@, client.secret, raw_body@),
{
    let signature = match &client.secret {
        Some(s) => Some(sign_body(raw_body, s.clone())),
        None => None,
    };
    WebhookRequest { url: client.url.clone(), body: raw_body.clone(), signature }
}

/// Prepare one delivery of `raw_body` to every endpoint of `clients`, in
/// their configured order.
pub fn prepare_to_clients(raw_body: &String, clients: &Vec<WebhooksHookConfig>) -> (r: Vec<
    WebhookRequest,
>)
    requires
        spec_secrets_fit(clients@),
    ensures
        r@.len() == clients@.len(),
        forall|i: int| 0 <= i < r@.len() ==> spec_prepared(
            #[trigger] r@[i],
            clients@[i].url@,
            clients@[i].secret,
            raw_body@,
        ),
{
    let n = clients.len();
    let mut out: Vec<WebhookRequest> = Vec::new();
    let mut i: usize = 0;
    while i < n
        invariant
            n == clients@.len(),
            i <= n,
            spec_secrets_fit(clients@),
            out@.len() == i,
            forall|j: int| 0 <= j < i ==> spec_prepared(
                #[trigger] out@[j],
                clients@[j].url@,
                clients@[j].secret,
                raw_body@,
            ),
        decreases n - i,
    {
        out.push(prepare_to_client(raw_body, &clients[i]));
        i += 1;
    }
    out
}

/// Builds webhook deliveries: the configured endpoints, the agent's
/// identity carried in every body, and the per-request timeout the sender
/// applies.
pub struct WebhookManager {
    pub webhooks: WebhooksConfig,
    pub agent_id: String,
    pub timeout: u64,
}

impl WebhookManager {
    /// A manager for the given endpoints, delivering under `agent_id`,
    /// with `timeout` seconds per request.
    pub fn new(webhooks: WebhooksConfig, agent_id: String, timeout: u64) -> (r: WebhookManager)
        ensures
            r.webhooks == webhooks,
            r.agent_id == agent_id,
            r.timeout == timeout,
    {
        WebhookManager { webhooks, agent_id, timeout }
    }

    /// The startup fan-out: one `on_start` delivery per configured
    /// startup endpoint, all carrying the same body stamped `now`.
    pub fn on_start_requests(&self, now: Millis) -> (r: Vec<WebhookRequest>)
        requires
            now < MAX_RFC3339_MILLIS,
            spec_secrets_fit(self.webhooks.on_start@),
        ensures
            r@.len() == self.webhooks.on_start@.len(),
            forall|i: int| 0 <= i < r@.len() ==> spec_prepared(
                #[trigger] r@[i],
                self.webhooks.on_start@[i].url@,
                self.webhooks.on_start@[i].secret,
                spec_json_base_body(self.agent_id@, now as int, HookTypes::OnStart),
            ),
    {
        let body = BaseBody {
            agent_id: self.agent_id.clone(),
            sent_at: now,
            hook_type: HookTypes::OnStart,
        };
        let raw = body.to_json();
        prepare_to_clients(&raw, &self.webhooks.on_start)
    }

    /// One `ping` delivery for a tick of `client`'s timer at `now`.
    pub fn ping_request(&self, client: &WebhooksHookConfigIntervalMetrics, now: Millis) -> (r:
        WebhookRequest)
        requires
            now < MAX_RFC3339_MILLIS,
            spec_interval_secret_fits(*client),
        ensures
            spec_prepared(
                r,
                client.url@,
                client.secret,
                spec_json_base_body(self.agent_id@, now as int, HookTypes::Ping),
            ),
    {
        let body = BaseBody {
            agent_id: self.agent_id.clone(),
            sent_at: now,
            hook_type: HookTypes::Ping,
        };
        let raw = body.to_json();
        prepare_to_client(&raw, &client.into_base())
    }

    /// One `metrics` delivery for a tick of `client`'s timer at `now`,
    /// embedding the metrics of the snapshot `captured` that the tick read
    /// from the cache.
    pub fn metrics_request(
        &self,
        client: &WebhooksHookConfigIntervalMetrics,
        now: Millis,
        captured: &CapturedMetrics,
    ) -> (r: WebhookRequest)
        requires
            now < MAX_RFC3339_MILLIS,
            spec_interval_secret_fits(*client),
        ensures
            spec_prepared(
                r,
                client.url@,
                client.secret,
                spec_json_metrics_body(
                    self.agent_id@,
                    now as int,
                    HookTypes::Metrics,
                    captured.metrics@,
                ),
            ),
    {
        let body = MetricsBody {
            agent_id: self.agent_id.clone(),
            sent_at: now,
            hook_type: HookTypes::Metrics,
            metrics: captured.metrics.clone(),
        };
        let raw = body.to_json();
        prepare_to_client(&raw, &client.into_base())
    }
}

} // verus!
