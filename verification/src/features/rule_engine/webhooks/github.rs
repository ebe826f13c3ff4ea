//! GitHub webhooks: the `workflow_run` payload, the context that rules see, and the
//! `X-Hub-Signature-256` check.
use vstd::prelude::*;
use vstd::string::StringSliceAdditionalSpecFns;
use hmac::{Hmac, Mac};
use sha2::Sha256;
use crate::shared::hex::{
    decode_hex_bytes, decode_hex_spec, decode_hex_splits_a_char, hex_text,
    law_decode_hex_inverts_encode_hex,
};
use vstd::utf8::encode_utf8;
use crate::shared::json::JsonValue;

verus! {

/// The part of a `workflow_run` webhook payload that rules can see.
#[derive(Debug)]
pub struct WorkflowRunPayload {
    pub action: String,
    pub workflow_run: WorkflowRun,
    pub repository: Repository,
}

#[derive(Debug)]
pub struct WorkflowRun {
    pub name: String,
    pub conclusion: Option<String>,
    pub html_url: String,
}

#[derive(Debug)]
pub struct Repository {
    pub name: String,
    pub full_name: String,
}

pub open spec fn is_string(v: JsonValue, s: Seq<char>) -> bool {
    v matches JsonValue::String(x) && x@ == s
}

/// The `repository` member of a context: `full_name` and `name`.
pub open spec fn is_repository_of(v: JsonValue, r: Repository) -> bool {
    &&& v matches JsonValue::Object(rs)
    &&& rs@.len() == 2
    &&& rs@[0].0@ == "full_name"@ && is_string(rs@[0].1, r.full_name@)
    &&& rs@[1].0@ == "name"@ && is_string(rs@[1].1, r.name@)
}

/// The `workflow_run` member of a context: `conclusion` (null when missing),
/// `html_url` and `name`.
pub open spec fn is_workflow_run_of(v: JsonValue, w: WorkflowRun) -> bool {
    &&& v matches JsonValue::Object(ws)
    &&& ws@.len() == 3
    &&& ws@[0].0@ == "conclusion"@
    &&& match w.conclusion {
        Some(c) => is_string(ws@[0].1, c@),
        None => ws@[0].1 is Null,
    }
    &&& ws@[1].0@ == "html_url"@ && is_string(ws@[1].1, w.html_url@)
    &&& ws@[2].0@ == "name"@ && is_string(ws@[2].1, w.name@)
}

/// The context built from a payload: an object with the members `action`,
/// `repository` and `workflow_run`, keys in sorted order as `serde_json` keeps them.
pub open spec fn is_context_of(v: JsonValue, p: WorkflowRunPayload) -> bool {
    &&& v matches JsonValue::Object(fs)
    &&& fs@.len() == 3
    &&& fs@[0].0@ == "action"@ && is_string(fs@[0].1, p.action@)
    &&& fs@[1].0@ == "repository"@ && is_repository_of(fs@[1].1, p.repository)
    &&& fs@[2].0@ == "workflow_run"@ && is_workflow_run_of(fs@[2].1, p.workflow_run)
}

fn text(s: &str) -> (r: String)
    ensures
        r@ == s@,
{
    String::from_str(s)
}

/// The JSON context that a rule's filters and templates are evaluated against.
pub fn build_context(payload: &WorkflowRunPayload) -> (r: JsonValue)
    ensures
        is_context_of(r, *payload),
{
    let conclusion = match &payload.workflow_run.conclusion {
        Some(c) => JsonValue::String(c.clone()),
        None => JsonValue::Null,
    };
    let mut run: Vec<(String, JsonValue)> = Vec::new();
    run.push((text("conclusion"), conclusion));
    run.push((text("html_url"), JsonValue::String(payload.workflow_run.html_url.clone())));
    run.push((text("name"), JsonValue::String(payload.workflow_run.name.clone())));
    let mut repo: Vec<(String, JsonValue)> = Vec::new();
    repo.push((text("full_name"), JsonValue::String(payload.repository.full_name.clone())));
    repo.push((text("name"), JsonValue::String(payload.repository.name.clone())));
    let mut fields: Vec<(String, JsonValue)> = Vec::new();
    fields.push((text("action"), JsonValue::String(payload.action.clone())));
    fields.push((text("repository"), JsonValue::Object(repo)));
    fields.push((text("workflow_run"), JsonValue::Object(run)));
    JsonValue::Object(fields)
}

/// The HMAC-SHA256 tag of `msg` under `key`.
pub uninterp spec fn hmac_sha256(key: Seq<u8>, msg: Seq<u8>) -> Seq<u8>;

/// Calls `hmac::Mac::new_from_slice` (which accepts keys of every length for HMAC),
/// `update` and `verify_slice` (a constant-time comparison that also fails on a tag
/// of the wrong length). The contract claims that the result says whether `tag` is
/// the HMAC-SHA256 tag of `msg` under `key`.
#[verifier::external_body]
fn hmac_sha256_verify(key: &[u8], msg: &[u8], tag: &[u8]) -> (r: bool)
    ensures
        r == (tag@ == hmac_sha256(key@, msg@)),
{
    match <Hmac<Sha256> as Mac>::new_from_slice(key) {
        Ok(mut mac) => {
            mac.update(msg);
            mac.verify_slice(tag).is_ok()
        },
        Err(_) => false,
    }
}

/// The bytes of `sha256=`.
pub open spec fn signature_prefix() -> Seq<u8> {
    seq![115u8, 104u8, 97u8, 50u8, 53u8, 54u8, 61u8]
}

pub open spec fn has_signature_prefix(sig: Seq<u8>) -> bool {
    sig.len() >= 7 && sig.subrange(0, 7) == signature_prefix()
}

/// The signature headers whose hex part would be sliced inside a character.
pub open spec fn signature_splits_a_char(sig: Seq<u8>) -> bool {
    has_signature_prefix(sig) && decode_hex_splits_a_char(sig.subrange(7, sig.len() as int))
}

/// Whether `sig` is `sha256=` followed by the hex of the HMAC-SHA256 of `body` under `secret`.
pub open spec fn signature_valid(secret: Seq<u8>, body: Seq<u8>, sig: Seq<u8>) -> bool {
    has_signature_prefix(sig) && match decode_hex_spec(sig.subrange(7, sig.len() as int)) {
        Some(tag) => tag == hmac_sha256(secret, body),
        None => false,
    }
}

/// Checks a GitHub `X-Hub-Signature-256` header against the body and the rule's secret.
pub fn verify_signature(secret: &[u8], body: &[u8], signature_header: &str) -> (r: bool)
    requires
        !signature_splits_a_char(signature_header.spec_bytes()),
    ensures
        r == signature_valid(secret@, body@, signature_header.spec_bytes()),
{
    let sig = signature_header.as_bytes();
    if sig.len() < 7 || sig[0] != 115 || sig[1] != 104 || sig[2] != 97 || sig[3] != 50 || sig[4]
        != 53 || sig[5] != 54 || sig[6] != 61 {
        proof {
            if sig@.len() >= 7 && sig@.subrange(0, 7) == signature_prefix() {
                assert(sig@.subrange(0, 7)[0] == sig@[0]);
                assert(sig@.subrange(0, 7)[1] == sig@[1]);
                assert(sig@.subrange(0, 7)[2] == sig@[2]);
                assert(sig@.subrange(0, 7)[3] == sig@[3]);
                assert(sig@.subrange(0, 7)[4] == sig@[4]);
                assert(sig@.subrange(0, 7)[5] == sig@[5]);
                assert(sig@.subrange(0, 7)[6] == sig@[6]);
            }
        }
        return false;
    }
    assert(sig@.subrange(0, 7) =~= signature_prefix());
    let expected = decode_hex_bytes(sig, 7);
    match expected {
        None => false,
        Some(tag) => hmac_sha256_verify(secret, body, tag.as_slice()),
    }
}

/// A header made of `sha256=` and the lowercase hex of the body's HMAC-SHA256 under
/// the secret (what GitHub sends) is accepted, and checking it never slices a character.
pub proof fn law_signed_body_is_accepted(secret: Seq<u8>, body: Seq<u8>)
    ensures
        !signature_splits_a_char(signature_prefix() + encode_utf8(hex_text(hmac_sha256(secret, body)))),
        signature_valid(
            secret,
            body,
            signature_prefix() + encode_utf8(hex_text(hmac_sha256(secret, body))),
        ),
{
    let tag = hmac_sha256(secret, body);
    let sig = signature_prefix() + encode_utf8(hex_text(tag));
    law_decode_hex_inverts_encode_hex(tag);
    assert(sig.subrange(0, 7) =~= signature_prefix());
    assert(sig.subrange(7, sig.len() as int) =~= encode_utf8(hex_text(tag)));
}

} // verus!
