use std::io::Write;

use kcidb_restd_rs::auth::{auth_test, extract_bearer, verify_auth, AuthError, Credential};
use kcidb_restd_rs::status::{classify, probe_location, submission_status, Location};

#[test]
fn empty_identifier_is_bad_request() {
    let (code, body) = submission_status("", &Credential::Absent, "/tmp", "");
    assert_eq!(code, 400);
    assert_eq!(body, "{\"id\":\"0\",\"status\":\"error\",\"message\":\"Empty id\"}");
}

#[test]
fn non_alphanumeric_identifier_is_bad_request() {
    for id in ["../etc/passwd", "a/b", "abc.", "a b", "abc-def"] {
        let (code, body) = submission_status("", &Credential::Absent, "/tmp", id);
        assert_eq!(code, 400);
        assert_eq!(body, "{\"id\":\"0\",\"status\":\"error\",\"message\":\"Invalid id\"}");
    }
}

#[test]
fn unknown_identifier_is_not_found() {
    let dir = tempfile::tempdir().unwrap();
    let spool = dir.path().to_str().unwrap();
    let (code, body) = submission_status("", &Credential::Absent, spool, "deadbeef01");
    assert_eq!(code, 404);
    assert_eq!(
        body,
        "{\"id\":\"deadbeef01\",\"status\":\"notfound\",\"message\":\"File not found\"}"
    );
}

#[test]
fn unicode_alphanumeric_identifier_reaches_the_probe() {
    let dir = tempfile::tempdir().unwrap();
    let spool = dir.path().to_str().unwrap();
    let (code, _) = submission_status("", &Credential::Absent, spool, "é1ß");
    assert_eq!(code, 404);
}

#[test]
fn lookup_is_idempotent() {
    let dir = tempfile::tempdir().unwrap();
    let spool = dir.path().to_str().unwrap();
    let first = submission_status("", &Credential::Absent, spool, "deadbeef01");
    let second = submission_status("", &Credential::Absent, spool, "deadbeef01");
    assert_eq!(first, second);
}

fn place(spool: &std::path::Path, name: &str, content: &str) {
    let mut file = tempfile::NamedTempFile::new_in(spool).unwrap();
    file.write_all(content.as_bytes()).unwrap();
    file.persist(spool.join(name)).unwrap();
}

fn make_dir(p: &std::path::Path) {
    tokio::runtime::Builder::new_current_thread()
        .build()
        .unwrap()
        .block_on(tokio::fs::create_dir(p))
        .unwrap();
}

#[test]
fn probe_order_and_states() {
    let dir = tempfile::tempdir().unwrap();
    let spool = dir.path().to_str().unwrap();

    place(dir.path(), "submission-aa11.json.temp", "{}");
    let (code, body) = submission_status("", &Credential::Absent, spool, "aa11");
    assert_eq!(code, 200);
    assert_eq!(
        body,
        "{\"id\":\"aa11\",\"status\":\"inprogress\",\"message\":\"File still in progress\"}"
    );

    place(dir.path(), "submission-bb22.json", "{}");
    let (code, body) = submission_status("", &Credential::Absent, spool, "bb22");
    assert_eq!(code, 200);
    assert_eq!(
        body,
        "{\"id\":\"bb22\",\"status\":\"ready\",\"message\":\"File waiting for processing\"}"
    );

    make_dir(&dir.path().join("archive"));
    place(&dir.path().join("archive"), "submission-cc33.json", "{}");
    let (code, body) = submission_status("", &Credential::Absent, spool, "cc33");
    assert_eq!(code, 200);
    assert_eq!(
        body,
        "{\"id\":\"cc33\",\"status\":\"processed\",\"message\":\"File archived\"}"
    );

    make_dir(&dir.path().join("failed"));
    place(&dir.path().join("failed"), "submission-dd44.json", "{}");
    let (code, body) = submission_status("", &Credential::Absent, spool, "dd44");
    assert_eq!(code, 200);
    assert_eq!(
        body,
        "{\"id\":\"dd44\",\"status\":\"failed\",\"message\":\"File failed to pass validation\"}"
    );

    assert_eq!(probe_location(spool, "bb22"), Location::Ready);
    assert_eq!(probe_location(spool, "nothere"), Location::NotFound);
}

#[test]
fn classification_honours_probe_order() {
    assert_eq!(classify(true, true, true, true), Location::InProgress);
    assert_eq!(classify(false, true, true, true), Location::Ready);
    assert_eq!(classify(false, false, true, true), Location::Archived);
    assert_eq!(classify(false, false, false, true), Location::Failed);
    assert_eq!(classify(false, false, false, false), Location::NotFound);
}

#[test]
fn bearer_extraction() {
    assert_eq!(extract_bearer("Bearer abc"), Some("abc"));
    assert_eq!(extract_bearer("Bearer abc def"), Some("abc"));
    assert_eq!(extract_bearer(" abc"), Some("abc"));
    assert_eq!(extract_bearer("Bearer "), Some(""));
    assert_eq!(extract_bearer("Bearer"), None);
    assert_eq!(extract_bearer(""), None);
}

#[test]
fn credential_check_verdicts() {
    assert!(verify_auth("", &Credential::Absent).is_ok());
    assert!(verify_auth("", &Credential::Unreadable).is_ok());
    assert!(matches!(
        verify_auth("s", &Credential::Absent),
        Err(AuthError::MissingCredential)
    ));
    assert!(matches!(
        verify_auth("s", &Credential::Unreadable),
        Err(AuthError::UnreadableCredential)
    ));
    assert!(matches!(
        verify_auth("s", &Credential::Present(String::from("nospace"))),
        Err(AuthError::MalformedCredential)
    ));
    assert!(matches!(
        verify_auth("s", &Credential::Present(String::from("Bearer junk"))),
        Err(AuthError::InvalidCredential(_))
    ));
}

fn signed_token(secret: &str, with_claims: bool) -> String {
    let mut claims = serde_json::Map::new();
    if with_claims {
        claims.insert(
            String::from("origin"),
            serde_json::Value::String(String::from("lab")),
        );
        claims.insert(
            String::from("gendate"),
            serde_json::Value::String(String::from("2024-01-01")),
        );
    }
    let now = std::time::SystemTime::now()
        .duration_since(std::time::UNIX_EPOCH)
        .unwrap()
        .as_secs();
    claims.insert(
        String::from("exp"),
        serde_json::Value::Number(serde_json::Number::from(now + 3600)),
    );
    jsonwebtoken::encode(
        &jsonwebtoken::Header::default(),
        &serde_json::Value::Object(claims),
        &jsonwebtoken::EncodingKey::from_secret(secret.as_bytes()),
    )
    .unwrap()
}

#[test]
fn token_without_required_claims_is_refused() {
    let token = signed_token("s", false);
    assert_eq!(
        kcidb_restd_rs::auth::verify_jwt(&token, "s"),
        Err(String::from("missing origin or gendate claim"))
    );
    let token = signed_token("s", true);
    assert_eq!(kcidb_restd_rs::auth::verify_jwt(&token, "s"), Ok(()));
}

#[test]
fn claims_verdict_requires_both_claims() {
    assert_eq!(kcidb_restd_rs::auth::claims_verdict(true, true), Ok(()));
    for (origin_ok, gendate_ok) in [(false, true), (true, false), (false, false)] {
        assert_eq!(
            kcidb_restd_rs::auth::claims_verdict(origin_ok, gendate_ok),
            Err(String::from("missing origin or gendate claim"))
        );
    }
}

#[test]
fn auth_test_endpoint() {
    let (code, body) = auth_test("", &Credential::Absent);
    assert_eq!(code, 200);
    assert_eq!(
        body,
        "{\"id\":\"0\",\"status\":\"ok\",\"message\":\"Authentication successful\"}"
    );
    let (code, body) = auth_test("s", &Credential::Absent);
    assert_eq!(code, 401);
    assert_eq!(body, "{\"id\":\"0\",\"status\":\"error\",\"message\":\"JWT is required\"}");
    let (code, body) = auth_test("s", &Credential::Present(String::from("Bearer junk")));
    assert_eq!(code, 401);
    assert!(body.starts_with("{\"id\":\"0\",\"status\":\"error\",\"message\":\""));
}

#[test]
fn status_requires_credential_when_secret_is_set() {
    let (code, body) = submission_status("s", &Credential::Absent, "/tmp", "abc");
    assert_eq!(code, 401);
    assert_eq!(body, "{\"id\":\"0\",\"status\":\"error\",\"message\":\"JWT is required\"}");
}
