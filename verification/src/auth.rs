use vstd::prelude::*;

use crate::claims::Assertion;
use crate::claims::ServiceIdentity;
use crate::claims::TOKEN_LIFETIME_SECS;
use crate::claims::assertion_view_of;
use crate::claims::build_assertion;
use crate::claims::claims_json;
use crate::errors::AuthError;
use crate::json::json_as_str;
use crate::json::json_get;
use crate::json::json_text_ok;
use crate::json::parse_json;

verus! {

/// A bearer credential for one run, together with when it was obtained.
pub struct AccessToken {
    pub token: String,
    pub obtained_at: u64,
}

/// The mathematical value of an `AccessToken`.
pub struct AccessTokenView {
    pub token: Seq<char>,
    pub obtained_at: u64,
}

impl View for AccessToken {
    type V = AccessTokenView;

    open spec fn view(&self) -> AccessTokenView {
        AccessTokenView { token: self.token@, obtained_at: self.obtained_at }
    }
}

/// An assertion together with its compact signed form, ready to be exchanged
/// for a token.
pub struct SignedAssertion {
    pub assertion: Assertion,
    pub jwt: String,
}

/// Whether jsonwebtoken accepts the text as a PEM-encoded RSA private key;
/// this names that decision, which depends on the text alone.
pub uninterp spec fn rsa_pem_ok(key: Seq<char>) -> bool;

#[verifier::external_type_specification]
#[verifier::external_body]
pub struct ExEncodingKey(jsonwebtoken::EncodingKey);

#[verifier::external_type_specification]
#[verifier::external_body]
pub struct ExJwtHeader(jsonwebtoken::Header);

#[verifier::external_type_specification]
#[verifier::external_body]
pub struct ExJwtError(jsonwebtoken::errors::Error);

/// Relies on jsonwebtoken::EncodingKey::from_rsa_pem: succeeds exactly when
/// the text is a PEM-encoded RSA private key.
#[verifier::external_body]
fn rsa_key_from_pem(key: &str) -> (r: Result<jsonwebtoken::EncodingKey, jsonwebtoken::errors::Error>)
    ensures
        r is Ok <==> rsa_pem_ok(key@),
{
    jsonwebtoken::EncodingKey::from_rsa_pem(key.as_bytes())
}

/// Relies on jsonwebtoken::Header::new: a header naming the RS256 signature
/// scheme.
#[verifier::external_body]
fn rs256_header() -> jsonwebtoken::Header {
    jsonwebtoken::Header::new(jsonwebtoken::Algorithm::RS256)
}

/// Relies on jsonwebtoken::encode: signs the claims document with the key,
/// or reports a signing failure.
#[verifier::external_body]
fn jwt_encode(
    header: &jsonwebtoken::Header,
    claims: &serde_json::Value,
    key: &jsonwebtoken::EncodingKey,
) -> Result<String, jsonwebtoken::errors::Error> {
    jsonwebtoken::encode(header, claims, key)
}

/// Builds and signs a fresh assertion for one token request. The key is
/// parsed before anything else; malformed key material is rejected here,
/// before any exchange could be attempted.
pub fn sign_assertion(identity: &ServiceIdentity, scope: &str, audience: &str, now: u64) -> (r:
    Result<SignedAssertion, AuthError>)
    requires
        now + TOKEN_LIFETIME_SECS <= u64::MAX,
        scope@.len() > 0,
        audience@.len() > 0,
    ensures
        (r matches Err(e) && e == AuthError::BadCredential) <==> !rsa_pem_ok(
            identity.signing_key_pem@,
        ),
        r matches Ok(sa) ==> sa.assertion@ == assertion_view_of(
            identity.principal_id@,
            scope@,
            audience@,
            now,
        ),
        r matches Err(e) ==> (e == AuthError::BadCredential || e == AuthError::SignFailure),
{
    let key = match rsa_key_from_pem(identity.signing_key_pem.as_str()) {
        Ok(k) => k,
        Err(_) => {
            return Err(AuthError::BadCredential);
        },
    };
    let assertion = build_assertion(identity, scope, audience, now);
    let claims_text = claims_json(&assertion);
    let claims_doc = match parse_json(claims_text.as_str()) {
        Some(v) => v,
        None => {
            return Err(AuthError::SignFailure);
        },
    };
    let header = rs256_header();
    let jwt = match jwt_encode(&header, &claims_doc, &key) {
        Ok(j) => j,
        Err(_) => {
            return Err(AuthError::SignFailure);
        },
    };
    Ok(SignedAssertion { assertion, jwt })
}

/// Decides the outcome of a token exchange from the extracted token field:
/// a present field becomes the access token, an absent one is the missing
/// token error.
pub fn token_from_field(field: Option<&str>, now: u64) -> (r: Result<AccessToken, AuthError>)
    ensures
        field matches Some(s) ==> r matches Ok(t) && t@.token == s@ && t@.obtained_at == now,
        field is None ==> r == Err::<AccessToken, AuthError>(AuthError::TokenMissing),
{
    match field {
        Some(s) => Ok(AccessToken { token: s.to_owned(), obtained_at: now }),
        None => Err(AuthError::TokenMissing),
    }
}

/// Extracts the access token from the token endpoint's response body. A
/// body that is not JSON, or that carries no access token string, is the
/// missing token error; nothing else can go wrong here.
pub fn parse_token_response(body: &str, now: u64) -> (r: Result<AccessToken, AuthError>)
    ensures
        !json_text_ok(body@) ==> r == Err::<AccessToken, AuthError>(AuthError::TokenMissing),
        r matches Err(e) ==> e == AuthError::TokenMissing,
        r matches Ok(t) ==> t@.obtained_at == now && json_text_ok(body@),
{
    let doc = match parse_json(body) {
        Some(v) => v,
        None => {
            return Err(AuthError::TokenMissing);
        },
    };
    let field = match json_get(&doc, "access_token") {
        Some(f) => json_as_str(f),
        None => None,
    };
    token_from_field(field, now)
}

/// Decides the outcome of one token exchange: an unreachable endpoint is a
/// transport failure; a response body either carries the token or lacks it.
pub fn acquire_outcome(body: Option<&str>, now: u64) -> (r: Result<AccessToken, AuthError>)
    ensures
        body is None ==> r == Err::<AccessToken, AuthError>(AuthError::TransportFailure),
        body matches Some(b) && !json_text_ok(b@) ==> r == Err::<AccessToken, AuthError>(
            AuthError::TokenMissing,
        ),
        body is Some ==> (r matches Err(e) ==> e == AuthError::TokenMissing),
        r matches Ok(t) ==> t@.obtained_at == now,
{
    match body {
        None => Err(AuthError::TransportFailure),
        Some(b) => parse_token_response(b, now),
    }
}

/// The fixed endpoint at which a signed assertion is exchanged for a token.
pub fn token_endpoint() -> (r: &'static str)
    ensures
        r@ == "https://oauth2.googleapis.com/token"@,
{
    "https://oauth2.googleapis.com/token"
}

/// The grant type named in the exchange's form body.
pub fn grant_type_jwt_bearer() -> (r: &'static str)
    ensures
        r@ == "urn:ietf:params:oauth:grant-type:jwt-bearer"@,
{
    "urn:ietf:params:oauth:grant-type:jwt-bearer"
}

/// The scope that full read/write table access requires.
pub fn sheets_scope() -> (r: &'static str)
    ensures
        r@ == "https://www.googleapis.com/auth/spreadsheets"@,
{
    "https://www.googleapis.com/auth/spreadsheets"
}

/// Whether the token's validity window has ended at clock reading `now`.
pub open spec fn spec_token_expired(t: AccessTokenView, now: u64) -> bool {
    now >= t.obtained_at + TOKEN_LIFETIME_SECS
}

/// A run that outlives the token's validity window must re-acquire a token
/// before further calls; this is the check to make before each one.
pub fn token_expired(token: &AccessToken, now: u64) -> (b: bool)
    ensures
        b == spec_token_expired(token@, now),
{
    now >= token.obtained_at && now - token.obtained_at >= TOKEN_LIFETIME_SECS
}

} // verus!
