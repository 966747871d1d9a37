//! The state resolver: a submission's state is derived from which of the
//! four spool locations currently holds its file, probed in a fixed order.

use vstd::prelude::*;
use crate::auth::{Credential, AuthError, auth_error_reply};
use crate::chars::identifier_char;
use crate::envelope::envelope_json;

verus! {

/// Where a submission currently stands, as the spool tells it.
#[derive(Clone, Copy, PartialEq, Eq, Structural, Debug)]
pub enum Location {
    InProgress,
    Ready,
    Archived,
    Failed,
    NotFound,
}

/// The state derived from the four existence probes, honouring the fixed
/// probe order: in-progress, then ready, then archived, then failed.
pub open spec fn classify_spec(temp: bool, ready: bool, archived: bool, failed: bool) -> Location {
    if temp {
        Location::InProgress
    } else if ready {
        Location::Ready
    } else if archived {
        Location::Archived
    } else if failed {
        Location::Failed
    } else {
        Location::NotFound
    }
}

/// Derives the state from the four existence probes.
pub fn classify(temp: bool, ready: bool, archived: bool, failed: bool) -> (l: Location)
    ensures
        l == classify_spec(temp, ready, archived, failed),
{
    if temp {
        Location::InProgress
    } else if ready {
        Location::Ready
    } else if archived {
        Location::Archived
    } else if failed {
        Location::Failed
    } else {
        Location::NotFound
    }
}

/// The status line answered for each state.
pub open spec fn status_code(loc: Location) -> int {
    match loc {
        Location::NotFound => 404,
        _ => 200,
    }
}

/// The status word answered for each state.
pub open spec fn status_label(loc: Location) -> Seq<char> {
    match loc {
        Location::InProgress => "inprogress"@,
        Location::Ready => "ready"@,
        Location::Archived => "processed"@,
        Location::Failed => "failed"@,
        Location::NotFound => "notfound"@,
    }
}

/// The message answered for each state.
pub open spec fn status_message(loc: Location) -> Seq<char> {
    match loc {
        Location::InProgress => "File still in progress"@,
        Location::Ready => "File waiting for processing"@,
        Location::Archived => "File archived"@,
        Location::Failed => "File failed to pass validation"@,
        Location::NotFound => "File not found"@,
    }
}

/// The full reply for a validated identifier found in state `loc`.
pub open spec fn status_reply_view(id: Seq<char>, loc: Location) -> (int, Seq<char>) {
    (status_code(loc), envelope_json(id, status_label(loc), Option::Some(status_message(loc))))
}

/// Builds the reply for a validated identifier found in state `loc`.
pub fn status_reply(id: &str, loc: Location) -> (r: (u16, String))
    ensures
        r.0 as int == status_reply_view(id@, loc).0,
        r.1@ == status_reply_view(id@, loc).1,
{
    match loc {
        Location::InProgress => (
            200,
            crate::envelope::generate_answer(
                "inprogress",
                id,
                Option::Some(String::from_str("File still in progress")),
            ),
        ),
        Location::Ready => (
            200,
            crate::envelope::generate_answer(
                "ready",
                id,
                Option::Some(String::from_str("File waiting for processing")),
            ),
        ),
        Location::Archived => (
            200,
            crate::envelope::generate_answer(
                "processed",
                id,
                Option::Some(String::from_str("File archived")),
            ),
        ),
        Location::Failed => (
            200,
            crate::envelope::generate_answer(
                "failed",
                id,
                Option::Some(String::from_str("File failed to pass validation")),
            ),
        ),
        Location::NotFound => (
            404,
            crate::envelope::generate_answer(
                "notfound",
                id,
                Option::Some(String::from_str("File not found")),
            ),
        ),
    }
}

/// Asks the filesystem about the four spool locations of `id`: the
/// in-progress, ready, archived and failed paths, in that order. Each
/// answer depends on the state of the disk at the moment of its probe.
fn probe_spool(dir: &str, id: &str) -> (bool, bool, bool, bool) {
    let temp = crate::spool::path_exists(crate::spool::temp_path(dir, id).as_str());
    let ready = crate::spool::path_exists(crate::spool::ready_path(dir, id).as_str());
    let archived = crate::spool::path_exists(crate::spool::archived_path(dir, id).as_str());
    let failed = crate::spool::path_exists(crate::spool::failed_path(dir, id).as_str());
    (temp, ready, archived, failed)
}

/// Probes the four spool locations for `id` and derives the state through
/// `classify`, which owns the fixed priority order. The existence bits
/// depend on the state of the disk; everything after them is `classify`.
pub fn probe_location(dir: &str, id: &str) -> Location {
    let (temp, ready, archived, failed) = probe_spool(dir, id);
    classify(temp, ready, archived, failed)
}

/// The body answered when a request is rejected before any probe.
pub open spec fn error_reply(msg: Seq<char>) -> Seq<char> {
    envelope_json("0"@, "error"@, Option::Some(msg))
}

/// What the status endpoint answers once the credential check has passed: an empty
/// identifier and a non-alphanumeric identifier are rejected without any
/// filesystem probe; a well-formed identifier is answered by classifying
/// four existence bits and rendering that state's reply — the answer
/// rests on existence alone, never on a file's content.
pub open spec fn resolved_status(id: Seq<char>, code: int, body: Seq<char>) -> bool {
    if id.len() == 0 {
        code == 400 && body == error_reply("Empty id"@)
    } else if !(forall|i: int| 0 <= i < id.len() ==> identifier_char(#[trigger] id[i])) {
        code == 400 && body == error_reply("Invalid id"@)
    } else {
        exists|temp: bool, ready: bool, archived: bool, failed: bool|
            code == status_reply_view(
                id,
                #[trigger] classify_spec(temp, ready, archived, failed),
            ).0 && body == status_reply_view(id, classify_spec(temp, ready, archived, failed)).1
    }
}

/// The status endpoint: the credential check first, then identifier validation, then
/// the probes in their fixed order.
pub fn submission_status(secret: &str, credential: &Credential, dir: &str, id: &str) -> (r: (
    u16,
    String,
))
    ensures
        secret@.len() == 0 ==> resolved_status(id@, r.0 as int, r.1@),
        r.0 == 401 ==> secret@.len() > 0 && exists|e: AuthError| r.1@ == #[trigger] auth_error_reply(e),
        secret@.len() > 0 ==> match credential {
            Credential::Absent => r.0 == 401 && r.1@ == auth_error_reply(
                AuthError::MissingCredential,
            ),
            Credential::Unreadable => r.0 == 401 && r.1@ == auth_error_reply(
                AuthError::UnreadableCredential,
            ),
            Credential::Present(h) => {
                if crate::auth::bearer_token(h@) is None {
                    r.0 == 401 && r.1@ == auth_error_reply(AuthError::MalformedCredential)
                } else {
                    r.0 == 401 || resolved_status(id@, r.0 as int, r.1@)
                }
            },
        },
{
    match crate::auth::verify_auth(secret, credential) {
        Result::Err(e) => {
            let body = crate::envelope::generate_answer("error", "0", Option::Some(e.message()));
            proof {
                assert(body@ == auth_error_reply(e));
            }
            return (401, body);
        },
        Result::Ok(()) => {},
    }
    if id.is_empty() {
        return (
            400,
            crate::envelope::generate_answer("error", "0", Option::Some(String::from_str("Empty id"))),
        );
    }
    if !crate::ident::all_chars_alphanumeric(id) {
        return (
            400,
            crate::envelope::generate_answer("error", "0", Option::Some(String::from_str("Invalid id"))),
        );
    }
    let (temp, ready, archived, failed) = probe_spool(dir, id);
    let loc = classify(temp, ready, archived, failed);
    let reply = status_reply(id, loc);
    proof {
        assert(reply.0 as int == status_reply_view(
            id@,
            classify_spec(temp, ready, archived, failed),
        ).0 && reply.1@ == status_reply_view(id@, classify_spec(temp, ready, archived, failed)).1);
    }
    reply
}

} // verus!
