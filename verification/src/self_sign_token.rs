//! Signing a meeting token without a round trip to the service.
use crate::json::{to_value, value_view, JsonView};
use crate::meeting_token::CreateMeetingToken;
use vstd::prelude::*;

verus! {

/// The compact token that `jsonwebtoken` makes of a set of claims with its
/// default header, signed with a secret.
pub uninterp spec fn signed_token(claims: JsonView, secret: Seq<char>) -> Seq<char>;

/// `jsonwebtoken::encode` with `Header::default()` and an
/// `EncodingKey::from_secret` over the bytes of the secret: the token of these
/// claims under this secret. With that header and such a key the call signs by
/// HMAC, and with claims held in a `serde_json::Value` nothing in it fails.
#[verifier::external_body]
fn sign(claims: &serde_json::Value, secret: &str) -> (token: String)
    ensures
        token@ == signed_token(value_view(*claims), secret@),
{
    jsonwebtoken::encode(
        &jsonwebtoken::Header::default(),
        claims,
        &jsonwebtoken::EncodingKey::from_secret(secret.as_ref()),
    ).expect("Could not construct token")
}

/// Signs a token over the claims of a builder for a domain.
pub fn self_sign_token(config: &CreateMeetingToken, domain_id: &str, secret_key: &str) -> (token:
    String)
    ensures
        token@ == signed_token(config@.claims(domain_id@), secret_key@),
{
    let claims = config.claims(domain_id);
    let value = to_value(&claims);
    sign(&value, secret_key)
}

} // verus!
