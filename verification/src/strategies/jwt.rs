//! The two calls into `jsonwebtoken`, and what is taken on trust of them.

use vstd::prelude::*;

verus! {

#[verifier::external_type_specification]
#[verifier::external_body]
pub struct ExTokenError(jsonwebtoken::errors::Error);

/// The signed token for three claims and a secret, or `None` where signing
/// fails. It depends on these four values alone.
pub uninterp spec fn jwt_encoding(
    sub: Seq<char>,
    com: Seq<char>,
    iat: u64,
    secret: Seq<u8>,
) -> Option<Seq<char>>;

/// What a token carries if it is well formed and its signature is good under
/// the secret, and `None` where it is refused. Of a token that is let through
/// this gives the text of its members `sub` and `com` and the number of its
/// member `iat`, each `None` where the token has no such member. No clock is
/// read: the answer depends on the token and the secret alone.
pub uninterp spec fn jwt_claims(token: Seq<char>, secret: Seq<u8>) -> Option<
    (Option<Seq<char>>, Option<Seq<char>>, Option<u64>),
>;

/// The three members as the decoder hands them out.
pub type Decoded = Option<(Option<String>, Option<String>, Option<u64>)>;

/// The text that an optional string holds.
pub open spec fn text(member: Option<String>) -> Option<Seq<char>> {
    match member {
        Some(s) => Some(s@),
        None => None,
    }
}

/// What the decoder handed out, as plain values.
pub open spec fn decoded_view(decoded: Decoded) -> Option<
    (Option<Seq<char>>, Option<Seq<char>>, Option<u64>),
> {
    match decoded {
        Some((sub, com, iat)) => Some((text(sub), text(com), iat)),
        None => None,
    }
}

/// `jsonwebtoken::encode` with the default header (HS256) and a key made
/// with `EncodingKey::from_secret`; the claims are handed over as a JSON
/// object with the members `sub`, `com` and `iat`. Trusted: the token
/// depends on the four arguments alone, and `jsonwebtoken::decode` under the
/// same secret reads the same three members back from it.
#[verifier::external_body]
pub(crate) fn encode(sub: &str, com: &str, iat: u64, secret: &[u8]) -> (res: Result<
    String,
    jsonwebtoken::errors::Error,
>)
    ensures
        res matches Ok(token) ==> jwt_encoding(sub@, com@, iat, secret@) == Some(token@),
        res matches Ok(token) ==> jwt_claims(token@, secret@) == Some(
            (Some(sub@), Some(com@), Some(iat)),
        ),
        res is Err ==> jwt_encoding(sub@, com@, iat, secret@) is None,
{
    let mut claims = serde_json::Map::new();
    claims.insert("sub".to_string(), serde_json::Value::from(sub));
    claims.insert("com".to_string(), serde_json::Value::from(com));
    claims.insert("iat".to_string(), serde_json::Value::from(iat));
    let key = jsonwebtoken::EncodingKey::from_secret(secret);
    jsonwebtoken::encode(&jsonwebtoken::Header::default(), &claims, &key)
}

/// `jsonwebtoken::decode` for HS256 with a key made with
/// `DecodingKey::from_secret`, and with its own expiry check and its demand
/// for an `exp` claim switched off, so that it reads no clock. From the JSON
/// value that it returns the members `sub`, `com` and `iat` are picked with
/// `Value::get`, `Value::as_str` and `Value::as_u64`. Trusted: the answer
/// depends on the token and the secret alone.
#[verifier::external_body]
pub(crate) fn decode(token: &str, secret: &[u8]) -> (res: Decoded)
    ensures
        decoded_view(res) == jwt_claims(token@, secret@),
{
    let mut rules = jsonwebtoken::Validation::default();
    rules.required_spec_claims.clear();
    rules.validate_exp = false;
    let key = jsonwebtoken::DecodingKey::from_secret(secret);
    let claims = jsonwebtoken::decode::<serde_json::Value>(token, &key, &rules).ok()?.claims;
    let sub = claims.get("sub").and_then(serde_json::Value::as_str).map(String::from);
    let com = claims.get("com").and_then(serde_json::Value::as_str).map(String::from);
    let iat = claims.get("iat").and_then(serde_json::Value::as_u64);
    Some((sub, com, iat))
}

} // verus!
