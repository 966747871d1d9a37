use std::io::Write;

use kcidb_restd_rs::auth::Credential;
use kcidb_restd_rs::ident::random_string;
use kcidb_restd_rs::submit::{receive_submission, storage_failure_answer, SubmitOutcome};

fn make_token(secret: &str) -> String {
    let mut claims = serde_json::Map::new();
    claims.insert(
        String::from("origin"),
        serde_json::Value::String(String::from("test-origin")),
    );
    claims.insert(
        String::from("gendate"),
        serde_json::Value::String(String::from("2024-01-01")),
    );
    let now = std::time::SystemTime::now()
        .duration_since(std::time::UNIX_EPOCH)
        .unwrap()
        .as_secs();
    claims.insert(
        String::from("exp"),
        serde_json::Value::Number(serde_json::Number::from(now + 3600)),
    );
    jsonwebtoken::encode(
        &jsonwebtoken::Header::default(),
        &serde_json::Value::Object(claims),
        &jsonwebtoken::EncodingKey::from_secret(secret.as_bytes()),
    )
    .unwrap()
}

#[test]
fn generated_identifiers_are_alphanumeric() {
    let a = random_string(32);
    let b = random_string(32);
    assert_eq!(a.len(), 32);
    assert_eq!(b.len(), 32);
    assert!(a.chars().all(|c| c.is_ascii_alphanumeric()));
    assert!(b.chars().all(|c| c.is_ascii_alphanumeric()));
    assert_ne!(a, b);
}

#[test]
fn accepted_submission_plans_temp_then_final() {
    let dir = tempfile::tempdir().unwrap();
    let spool = dir.path().to_str().unwrap();
    let body = "{\"kernel\":\"v6.1\",\"result\":\"pass\"}";
    let outcome = receive_submission("", &Credential::Absent, spool, body);
    match outcome {
        SubmitOutcome::Store { id, temp_path, final_path, content, response } => {
            assert_eq!(id.len(), 32);
            assert!(id.chars().all(|c| c.is_ascii_alphanumeric()));
            assert_eq!(temp_path, format!("{}/submission-{}.json.temp", spool, id));
            assert_eq!(final_path, format!("{}/submission-{}.json", spool, id));
            assert_eq!(content, body);
            assert_eq!(
                response,
                format!(
                    "{{\"id\":\"{}\",\"status\":\"ok\",\"message\":\"Received submission {} with size {} bytes\"}}",
                    id,
                    id,
                    body.len()
                )
            );
        },
        _ => panic!("well-formed submission was not accepted"),
    }
}

#[test]
fn malformed_body_is_rejected_without_a_write() {
    let dir = tempfile::tempdir().unwrap();
    let spool = dir.path().to_str().unwrap();
    let outcome = receive_submission("", &Credential::Absent, spool, "not json");
    let parser_message = serde_json::from_str::<serde_json::Value>("not json")
        .unwrap_err()
        .to_string();
    match outcome {
        SubmitOutcome::BadJson { response } => {
            assert_eq!(
                response,
                format!(
                    "{{\"id\":\"0\",\"status\":\"error\",\"message\":\"{}\"}}",
                    parser_message
                )
            );
        },
        _ => panic!("malformed submission was not rejected"),
    }
    assert_eq!(std::path::Path::new(spool).read_dir().unwrap().count(), 0);
}

#[test]
fn submission_round_trip_reports_ready() {
    let dir = tempfile::tempdir().unwrap();
    let spool = dir.path().to_str().unwrap();
    let secret = "round-trip-secret";
    let credential = Credential::Present(format!("Bearer {}", make_token(secret)));
    let body = "{\"a\":1}";
    let outcome = receive_submission(secret, &credential, spool, body);
    let (id, response) = match outcome {
        SubmitOutcome::Store { id, temp_path: _, final_path, content, response } => {
            let mut file = tempfile::NamedTempFile::new_in(dir.path()).unwrap();
            file.write_all(content.as_bytes()).unwrap();
            file.persist(&final_path).unwrap();
            (id, response)
        },
        _ => panic!("submission with a valid token was not accepted"),
    };
    assert_eq!(
        response,
        format!(
            "{{\"id\":\"{}\",\"status\":\"ok\",\"message\":\"Received submission {} with size 7 bytes\"}}",
            id, id
        )
    );
    let (code, reply) = kcidb_restd_rs::status::submission_status(secret, &credential, spool, &id);
    assert_eq!(code, 200);
    assert_eq!(
        reply,
        format!(
            "{{\"id\":\"{}\",\"status\":\"ready\",\"message\":\"File waiting for processing\"}}",
            id
        )
    );
}

#[test]
fn wrong_token_is_unauthorized() {
    let dir = tempfile::tempdir().unwrap();
    let spool = dir.path().to_str().unwrap();
    let credential = Credential::Present(format!("Bearer {}", make_token("other-secret")));
    let outcome = receive_submission("right-secret", &credential, spool, "{\"a\":1}");
    match outcome {
        SubmitOutcome::Unauthorized { response } => {
            assert!(response.starts_with("{\"id\":\"0\",\"status\":\"error\",\"message\":\""));
        },
        _ => panic!("submission with a wrong token was accepted"),
    }
    assert_eq!(std::path::Path::new(spool).read_dir().unwrap().count(), 0);
}

#[test]
fn missing_credential_is_unauthorized() {
    let outcome = receive_submission("secret", &Credential::Absent, "/tmp", "{\"a\":1}");
    match outcome {
        SubmitOutcome::Unauthorized { response } => {
            assert_eq!(
                response,
                "{\"id\":\"0\",\"status\":\"error\",\"message\":\"JWT is required\"}"
            );
        },
        _ => panic!("submission without a credential was accepted"),
    }
}

#[test]
fn header_without_token_is_unauthorized() {
    let outcome = receive_submission(
        "secret",
        &Credential::Present(String::from("Bearer")),
        "/tmp",
        "{\"a\":1}",
    );
    match outcome {
        SubmitOutcome::Unauthorized { response } => {
            assert_eq!(
                response,
                "{\"id\":\"0\",\"status\":\"error\",\"message\":\"Missing or invalid JWT (Bearer)\"}"
            );
        },
        _ => panic!("submission with a schemeless credential was accepted"),
    }
}

#[test]
fn empty_secret_accepts_any_credential() {
    let dir = tempfile::tempdir().unwrap();
    let spool = dir.path().to_str().unwrap();
    let credential = Credential::Present(String::from("Bearer complete-garbage"));
    let outcome = receive_submission("", &credential, spool, "{\"a\":1}");
    assert!(matches!(outcome, SubmitOutcome::Store { .. }));
    let outcome = receive_submission("", &Credential::Unreadable, spool, "{\"a\":1}");
    assert!(matches!(outcome, SubmitOutcome::Store { .. }));
}

#[test]
fn storage_failure_reply_shape() {
    let (code, body) = storage_failure_answer();
    assert_eq!(code, 500);
    assert_eq!(body, "{\"id\":\"0\",\"status\":\"error\",\"message\":\"Storage failure\"}");
}
