//! Authentication: a bearer credential checked against a shared
//! secret, with authentication disabled outright when the secret is empty.

use vstd::prelude::*;

verus! {

/// The Authorization material of one request, as the transport hands it
/// over: absent, present but not readable as text, or its text.
pub enum Credential {
    Absent,
    Unreadable,
    Present(String),
}

/// Why the credential check refused a request.
pub enum AuthError {
    /// No Authorization header was sent.
    MissingCredential,
    /// The header was present but not readable as text.
    UnreadableCredential,
    /// The header did not split into a scheme and a token.
    MalformedCredential,
    /// The token failed verification; carries the verifier's message.
    InvalidCredential(String),
}

/// The message each refusal carries to the client.
pub open spec fn auth_error_message(e: AuthError) -> Seq<char> {
    match e {
        AuthError::MissingCredential => "JWT is required"@,
        AuthError::UnreadableCredential => "Missing or invalid JWT"@,
        AuthError::MalformedCredential => "Missing or invalid JWT (Bearer)"@,
        AuthError::InvalidCredential(m) => m@,
    }
}

impl AuthError {
    /// The human-readable message for this refusal.
    pub fn message(&self) -> (r: String)
        ensures
            r@ == auth_error_message(*self),
    {
        match self {
            AuthError::MissingCredential => String::from_str("JWT is required"),
            AuthError::UnreadableCredential => String::from_str("Missing or invalid JWT"),
            AuthError::MalformedCredential => String::from_str("Missing or invalid JWT (Bearer)"),
            AuthError::InvalidCredential(m) => m.clone(),
        }
    }
}

/// The index of the first space at or after `from`, or the length of `s`
/// if no space follows.
pub open spec fn space_index(s: Seq<char>, from: int) -> int
    decreases s.len() - from,
{
    if from < 0 || from >= s.len() {
        s.len() as int
    } else if s[from] == ' ' {
        from
    } else {
        space_index(s, from + 1)
    }
}

/// The token part of a header value: the piece between the first space
/// and the next space (or the end). A value with no space at all carries
/// no token.
pub open spec fn bearer_token(s: Seq<char>) -> Option<Seq<char>> {
    let i = space_index(s, 0);
    if i == s.len() {
        Option::None
    } else {
        Option::Some(s.subrange(i + 1, space_index(s, i + 1)))
    }
}

proof fn lemma_space_index_skip(s: Seq<char>, from: int, upto: int)
    requires
        0 <= from <= upto <= s.len(),
        forall|k: int| from <= k < upto ==> s[k] != ' ',
    ensures
        space_index(s, from) == space_index(s, upto),
    decreases upto - from,
{
    if from < upto {
        lemma_space_index_skip(s, from + 1, upto);
    }
}

/// Finds the first space of `h` at or after `from`.
fn find_space_from(h: &str, from: usize) -> (r: usize)
    requires
        from <= h@.len(),
    ensures
        r == space_index(h@, from as int),
        from <= r <= h@.len(),
        r < h@.len() ==> h@[r as int] == ' ',
{
    let n = h.unicode_len();
    let mut i: usize = from;
    while i < n
        invariant
            n == h@.len(),
            from <= i <= n,
            forall|k: int| from <= k < i ==> h@[k] != ' ',
        decreases n - i,
    {
        if h.get_char(i) == ' ' {
            proof {
                lemma_space_index_skip(h@, from as int, i as int);
            }
            return i;
        }
        i += 1;
    }
    proof {
        lemma_space_index_skip(h@, from as int, n as int);
    }
    n
}

/// Extracts the bearer token from a header value: the piece after the
/// first space, up to the next space or the end.
pub fn extract_bearer<'a>(h: &'a str) -> (r: Option<&'a str>)
    ensures
        match r {
            Option::None => bearer_token(h@) is None,
            Option::Some(t) => bearer_token(h@) == Option::Some(t@),
        },
{
    let n = h.unicode_len();
    let i = find_space_from(h, 0);
    if i == n {
        return Option::None;
    }
    let j = find_space_from(h, i + 1);
    Option::Some(h.substring_char(i + 1, j))
}

#[verifier::external_type_specification]
#[verifier::external_body]
pub struct ExValue(serde_json::Value);

/// Relies on `jsonwebtoken::decode` over `serde_json::Value` claims, with
/// `jsonwebtoken::DecodingKey::from_secret` and
/// `jsonwebtoken::Validation::default`: verifies the token's signature
/// against the secret and its required `exp` claim against the clock,
/// returning the decoded claims, or the verifier's display text. The
/// verdict depends on the clock, so neither arm is promised.
#[verifier::external_body]
fn decode_claims(token: &str, secret: &str) -> Result<serde_json::Value, String> {
    let key = jsonwebtoken::DecodingKey::from_secret(secret.as_bytes());
    match jsonwebtoken::decode::<serde_json::Value>(token, &key, &jsonwebtoken::Validation::default()) {
        Ok(data) => Ok(data.claims),
        Err(e) => Err(e.to_string()),
    }
}

/// Relies on `serde_json::Value::get`: the value under key `name` if the
/// claims are an object holding that key.
#[verifier::external_body]
fn claim_field<'a>(claims: &'a serde_json::Value, name: &str) -> Option<&'a serde_json::Value> {
    claims.get(name)
}

/// Relies on `serde_json::Value::is_string`: whether the value is a
/// JSON string.
#[verifier::external_body]
fn value_is_string(v: &serde_json::Value) -> bool {
    v.is_string()
}

fn claim_is_string(claims: &serde_json::Value, name: &str) -> bool {
    match claim_field(claims, name) {
        Option::Some(v) => value_is_string(v),
        Option::None => false,
    }
}

/// The verdict on a decoded payload, given whether each required claim is
/// present as a string: accepted exactly when both are, refused with the
/// fixed message otherwise.
pub fn claims_verdict(origin_ok: bool, gendate_ok: bool) -> (r: Result<(), String>)
    ensures
        r is Ok <==> origin_ok && gendate_ok,
        r matches Result::Err(m) ==> m@ == "missing origin or gendate claim"@,
{
    if origin_ok && gendate_ok {
        Result::Ok(())
    } else {
        Result::Err(String::from_str("missing origin or gendate claim"))
    }
}

/// Verifies a bearer token against the shared secret: signature and
/// default expiry policy, and the presence of the `origin` and `gendate`
/// string claims the token's payload is required to carry. The decode's
/// outcome rests on the token, the secret and the clock; what is made of
/// the decoded claims is `claims_verdict` on the two membership facts.
pub fn verify_jwt(token: &str, secret: &str) -> Result<(), String> {
    match decode_claims(token, secret) {
        Result::Err(e) => Result::Err(e),
        Result::Ok(claims) => claims_verdict(
            claim_is_string(&claims, "origin"),
            claim_is_string(&claims, "gendate"),
        ),
    }
}

/// The credential check itself. An empty secret disables authentication: every
/// request passes. Otherwise the credential must be present, readable,
/// split into scheme and token, and the token must verify.
pub fn verify_auth(secret: &str, credential: &Credential) -> (r: Result<(), AuthError>)
    ensures
        secret@.len() == 0 ==> r is Ok,
        secret@.len() > 0 ==> match credential {
            Credential::Absent => r matches Result::Err(AuthError::MissingCredential),
            Credential::Unreadable => r matches Result::Err(AuthError::UnreadableCredential),
            Credential::Present(h) => {
                if bearer_token(h@) is None {
                    r matches Result::Err(AuthError::MalformedCredential)
                } else {
                    r is Ok || r matches Result::Err(AuthError::InvalidCredential(_))
                }
            },
        },
{
    if secret.is_empty() {
        return Result::Ok(());
    }
    match credential {
        Credential::Absent => Result::Err(AuthError::MissingCredential),
        Credential::Unreadable => Result::Err(AuthError::UnreadableCredential),
        Credential::Present(h) => match extract_bearer(h.as_str()) {
            Option::None => Result::Err(AuthError::MalformedCredential),
            Option::Some(token) => match verify_jwt(token, secret) {
                Result::Ok(()) => Result::Ok(()),
                Result::Err(m) => Result::Err(AuthError::InvalidCredential(m)),
            },
        },
    }
}

/// The body answered when the credential check refuses a request.
pub open spec fn auth_error_reply(e: AuthError) -> Seq<char> {
    crate::envelope::envelope_json("0"@, "error"@, Option::Some(auth_error_message(e)))
}

/// The reply of the authentication test endpoint: the status line and
/// the envelope body.
pub fn auth_test(secret: &str, credential: &Credential) -> (r: (u16, String))
    ensures
        secret@.len() == 0 ==> r.0 == 200,
        r.0 == 200 ==> r.1@ == crate::envelope::envelope_json(
            "0"@,
            "ok"@,
            Option::Some("Authentication successful"@),
        ),
        r.0 != 200 ==> r.0 == 401 && exists|e: AuthError| r.1@ == #[trigger] auth_error_reply(e),
        secret@.len() > 0 ==> match credential {
            Credential::Absent => r.0 == 401 && r.1@ == auth_error_reply(
                AuthError::MissingCredential,
            ),
            Credential::Unreadable => r.0 == 401 && r.1@ == auth_error_reply(
                AuthError::UnreadableCredential,
            ),
            Credential::Present(h) => {
                if bearer_token(h@) is None {
                    r.0 == 401 && r.1@ == auth_error_reply(AuthError::MalformedCredential)
                } else {
                    r.0 == 200 || r.0 == 401
                }
            },
        },
{
    match verify_auth(secret, credential) {
        Result::Ok(()) => {
            let body = crate::envelope::generate_answer(
                "ok",
                "0",
                Option::Some(String::from_str("Authentication successful")),
            );
            (200, body)
        },
        Result::Err(e) => {
            let body = crate::envelope::generate_answer("error", "0", Option::Some(e.message()));
            proof {
                assert(body@ == auth_error_reply(e));
            }
            (401, body)
        },
    }
}

} // verus!
