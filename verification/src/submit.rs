//! The intake pipeline: credential check, JSON well-formedness check, identifier
//! generation, and the two-phase write plan (temp name, then an atomic
//! rename to the final name) that makes a submission durable.

use vstd::prelude::*;
use crate::auth::{Credential, AuthError, auth_error_reply, bearer_token};
use crate::chars::ascii_alnum;
use crate::envelope::envelope_json;
use crate::numfmt::decimal;
use crate::spool::{temp_path_view, ready_path_view};
use crate::status::error_reply;
use vstd::string::StringSliceAdditionalSpecFns;

verus! {

/// The parser's verdict on a body: well-formed JSON, or its error text.
/// The verdict is a function of the text alone.
pub uninterp spec fn json_verdict(body: Seq<char>) -> Result<(), Seq<char>>;

/// Relies on `serde_json::from_str` over `serde_json::Value`: accepts
/// exactly the well-formed JSON texts, and reports the parser's message
/// otherwise; the verdict depends on the text alone.
#[verifier::external_body]
fn check_json(body: &str) -> (r: Result<(), String>)
    ensures
        r is Ok <==> json_verdict(body@) is Ok,
        r matches Result::Err(m) ==> json_verdict(body@) matches Result::Err(v) && m@ == v,
{
    match serde_json::from_str::<serde_json::Value>(body) {
        Ok(_) => Ok(()),
        Err(e) => Err(e.to_string()),
    }
}

/// The receipt message for an accepted submission of `size` bytes.
pub open spec fn submit_message(id: Seq<char>, size: nat) -> Seq<char> {
    "Received submission "@ + id + " with size "@ + decimal(size) + " bytes"@
}

/// The byte length of a request body, as `str::len` reports it.
pub open spec fn body_size(body: &str) -> nat {
    (body.spec_bytes().len() as usize) as nat
}

/// What the intake decides for one request. On `Store`, the caller must
/// write `content` to `temp_path`, atomically rename it to `final_path`,
/// and only then answer with `response`; the two counters (submissions
/// and cumulative bytes) are stepped only on that success, and the error
/// counter exactly when the outcome is `Unauthorized`.
pub enum SubmitOutcome {
    /// The credential check refused the request: answer 401 with `response`.
    Unauthorized { response: String },
    /// The body is not well-formed JSON: answer 400 with `response`,
    /// with no identifier drawn and nothing written.
    BadJson { response: String },
    /// The submission is accepted under the fresh identifier `id`.
    Store { id: String, temp_path: String, final_path: String, content: String, response: String },
}

/// The intake: the credential check first, then the well-formedness check — a body
/// that fails it draws no identifier and touches no file — then a fresh
/// identifier and the write plan for the two-phase durable write.
pub fn receive_submission(secret: &str, credential: &Credential, dir: &str, body: &str) -> (r:
    SubmitOutcome)
    ensures
        r matches SubmitOutcome::Store { id, temp_path, final_path, content, response } ==> {
            &&& json_verdict(body@) is Ok
            &&& id@.len() == 32
            &&& forall|i: int| 0 <= i < id@.len() ==> ascii_alnum(#[trigger] id@[i])
            &&& temp_path@ == temp_path_view(dir@, id@)
            &&& final_path@ == ready_path_view(dir@, id@)
            &&& content@ == body@
            &&& response@ == envelope_json(
                id@,
                "ok"@,
                Option::Some(submit_message(id@, body_size(body))),
            )
        },
        r matches SubmitOutcome::BadJson { response } ==> json_verdict(body@) matches Result::Err(
            m,
        ) && response@ == error_reply(m),
        r matches SubmitOutcome::Unauthorized { response } ==> secret@.len() > 0 && exists|e:
            AuthError| response@ == #[trigger] auth_error_reply(e),
        secret@.len() == 0 && json_verdict(body@) is Ok ==> r is Store,
        secret@.len() == 0 && json_verdict(body@) is Err ==> r is BadJson,
        secret@.len() > 0 ==> match credential {
            Credential::Absent => r matches SubmitOutcome::Unauthorized { response }
                && response@ == auth_error_reply(AuthError::MissingCredential),
            Credential::Unreadable => r matches SubmitOutcome::Unauthorized { response }
                && response@ == auth_error_reply(AuthError::UnreadableCredential),
            Credential::Present(h) => {
                if bearer_token(h@) is None {
                    r matches SubmitOutcome::Unauthorized { response } && response@
                        == auth_error_reply(AuthError::MalformedCredential)
                } else {
                    r is Unauthorized || (if json_verdict(body@) is Ok {
                        r is Store
                    } else {
                        r is BadJson
                    })
                }
            },
        },
{
    match crate::auth::verify_auth(secret, credential) {
        Result::Err(e) => {
            let response = crate::envelope::generate_answer("error", "0", Option::Some(e.message()));
            proof {
                assert(response@ == auth_error_reply(e));
            }
            return SubmitOutcome::Unauthorized { response };
        },
        Result::Ok(()) => {},
    }
    match check_json(body) {
        Result::Err(m) => {
            let response = crate::envelope::generate_answer("error", "0", Option::Some(m));
            return SubmitOutcome::BadJson { response };
        },
        Result::Ok(()) => {},
    }
    let id = crate::ident::random_string(32);
    let temp_path = crate::spool::temp_path(dir, id.as_str());
    let final_path = crate::spool::ready_path(dir, id.as_str());
    let size = body.len();
    let mut message = String::from_str("Received submission ");
    message.append(id.as_str());
    message.append(" with size ");
    let size_text = crate::numfmt::u64_to_decimal(size as u64);
    message.append(size_text.as_str());
    message.append(" bytes");
    proof {
        assert(message@ =~= submit_message(id@, body_size(body)));
    }
    let response = crate::envelope::generate_answer("ok", id.as_str(), Option::Some(message));
    let content = String::from_str(body);
    SubmitOutcome::Store { id, temp_path, final_path, content, response }
}

/// The reply for a request whose durable write failed: the one storage
/// fault is answered with a server error instead of ending the process,
/// so one client's disk trouble cannot take the service down.
pub fn storage_failure_answer() -> (r: (u16, String))
    ensures
        r.0 == 500,
        r.1@ == error_reply("Storage failure"@),
{
    (
        500,
        crate::envelope::generate_answer(
            "error",
            "0",
            Option::Some(String::from_str("Storage failure")),
        ),
    )
}

} // verus!
