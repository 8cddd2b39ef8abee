use vstd::prelude::*;

use crate::textfmt::dec_digits;
use crate::textfmt::json_quoted;
use crate::textfmt::push_dec;
use crate::textfmt::push_json_string;
use crate::textfmt::push_str_chars;
use crate::textfmt::string_of_chars;

verus! {

/// How long a signed assertion (and the token obtained with it) stays valid.
pub const TOKEN_LIFETIME_SECS: u64 = 3600;

/// The non-interactive principal on whose behalf tokens are requested.
/// Loaded once at startup; the key material is PEM text.
pub struct ServiceIdentity {
    pub principal_id: String,
    pub signing_key_pem: String,
}

/// A time-bounded identity claim, built fresh for every token request and
/// never reused after signing.
pub struct Assertion {
    pub issuer: String,
    pub scope: String,
    pub audience: String,
    pub issued_at: u64,
    pub expires_at: u64,
}

/// The mathematical value of an `Assertion`.
pub struct AssertionView {
    pub issuer: Seq<char>,
    pub scope: Seq<char>,
    pub audience: Seq<char>,
    pub issued_at: u64,
    pub expires_at: u64,
}

impl View for Assertion {
    type V = AssertionView;

    open spec fn view(&self) -> AssertionView {
        AssertionView {
            issuer: self.issuer@,
            scope: self.scope@,
            audience: self.audience@,
            issued_at: self.issued_at,
            expires_at: self.expires_at,
        }
    }
}

/// The assertion that a well-formed build produces at time `now`.
pub open spec fn assertion_view_of(
    issuer: Seq<char>,
    scope: Seq<char>,
    audience: Seq<char>,
    now: u64,
) -> AssertionView
    recommends
        now + TOKEN_LIFETIME_SECS <= u64::MAX,
{
    AssertionView {
        issuer: issuer,
        scope: scope,
        audience: audience,
        issued_at: now,
        expires_at: (now + TOKEN_LIFETIME_SECS) as u64,
    }
}

/// Builds the identity assertion for one token request: issued now, expiring
/// a fixed lifetime later. Pure in its inputs and the supplied clock reading.
pub fn build_assertion(identity: &ServiceIdentity, scope: &str, audience: &str, now: u64) -> (a:
    Assertion)
    requires
        now + TOKEN_LIFETIME_SECS <= u64::MAX,
        scope@.len() > 0,
        audience@.len() > 0,
    ensures
        a@ == assertion_view_of(identity.principal_id@, scope@, audience@, now),
        a@.expires_at > a@.issued_at,
{
    Assertion {
        issuer: identity.principal_id.clone(),
        scope: scope.to_owned(),
        audience: audience.to_owned(),
        issued_at: now,
        expires_at: now + TOKEN_LIFETIME_SECS,
    }
}

/// Token freshness: with a non-decreasing clock, assertions built by two
/// sequential requests carry non-decreasing issue times, and each one's
/// expiry is recomputed as its own issue time plus the fixed lifetime.
pub proof fn lemma_assertion_freshness(
    issuer: Seq<char>,
    scope: Seq<char>,
    audience: Seq<char>,
    now1: u64,
    now2: u64,
)
    requires
        now1 <= now2,
        now2 + TOKEN_LIFETIME_SECS <= u64::MAX,
    ensures
        assertion_view_of(issuer, scope, audience, now1).issued_at <= assertion_view_of(
            issuer,
            scope,
            audience,
            now2,
        ).issued_at,
        assertion_view_of(issuer, scope, audience, now1).expires_at == assertion_view_of(
            issuer,
            scope,
            audience,
            now1,
        ).issued_at + TOKEN_LIFETIME_SECS,
        assertion_view_of(issuer, scope, audience, now2).expires_at == assertion_view_of(
            issuer,
            scope,
            audience,
            now2,
        ).issued_at + TOKEN_LIFETIME_SECS,
{
}

/// The claims document that is signed: the assertion's fields as one JSON
/// object, in the fixed field order the token endpoint is given.
pub open spec fn claims_json_view(a: AssertionView) -> Seq<char> {
    "{\"iss\":"@ + json_quoted(a.issuer) + ",\"scope\":"@ + json_quoted(a.scope) + ",\"aud\":"@
        + json_quoted(a.audience) + ",\"exp\":"@ + dec_digits(a.expires_at as nat) + ",\"iat\":"@
        + dec_digits(a.issued_at as nat) + "}"@
}

/// Renders the claims document for `a`.
pub fn claims_json(a: &Assertion) -> (r: String)
    ensures
        r@ == claims_json_view(a@),
{
    let mut out: Vec<char> = Vec::new();
    push_str_chars(&mut out, "{\"iss\":");
    push_json_string(&mut out, a.issuer.as_str());
    push_str_chars(&mut out, ",\"scope\":");
    push_json_string(&mut out, a.scope.as_str());
    push_str_chars(&mut out, ",\"aud\":");
    push_json_string(&mut out, a.audience.as_str());
    push_str_chars(&mut out, ",\"exp\":");
    push_dec(&mut out, a.expires_at);
    push_str_chars(&mut out, ",\"iat\":");
    push_dec(&mut out, a.issued_at);
    push_str_chars(&mut out, "}");
    proof {
        assert(out@ =~= claims_json_view(a@));
    }
    string_of_chars(out)
}

} // verus!
