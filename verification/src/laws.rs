//! The properties the pipeline is built around, stated and proved over
//! the same spec functions the executable contracts use.

use vstd::prelude::*;
use crate::chars::{ascii_alnum, identifier_char};
use crate::envelope::envelope_json;
use crate::ident::identifier_ok;
use crate::spool::{temp_path_view, ready_path_view, archived_path_view, failed_path_view};
use crate::status::{
    Location, classify_spec, status_reply_view, resolved_status, error_reply,
};

verus! {

/// A well-formed identifier can never steer a spool path outside the
/// spool: none of its characters is a path separator, a dot, a space or
/// the NUL character.
pub proof fn lemma_valid_identifier_path_safe(id: Seq<char>)
    requires
        identifier_ok(id),
    ensures
        forall|i: int|
            0 <= i < id.len() ==> #[trigger] id[i] != '/' && id[i] != '.' && id[i] != ' ' && id[i]
                != '\u{0}',
{
    assert forall|i: int| 0 <= i < id.len() implies #[trigger] id[i] != '/' && id[i] != '.'
        && id[i] != ' ' && id[i] != '\u{0}' by {
        assert(identifier_char(id[i]));
    }
}

/// The four locations of one identifier are four distinct paths, so no
/// two states of one submission can ever name the same file.
pub proof fn lemma_locations_distinct(dir: Seq<char>, id: Seq<char>)
    ensures
        temp_path_view(dir, id) != ready_path_view(dir, id),
        temp_path_view(dir, id) != archived_path_view(dir, id),
        temp_path_view(dir, id) != failed_path_view(dir, id),
        ready_path_view(dir, id) != archived_path_view(dir, id),
        ready_path_view(dir, id) != failed_path_view(dir, id),
        archived_path_view(dir, id) != failed_path_view(dir, id),
{
    reveal_strlit("/submission-");
    reveal_strlit("/archive/submission-");
    reveal_strlit("/failed/submission-");
    reveal_strlit(".json");
    reveal_strlit(".json.temp");
    assert(temp_path_view(dir, id).len() == dir.len() + 12 + id.len() + 10);
    assert(ready_path_view(dir, id).len() == dir.len() + 12 + id.len() + 5);
    assert(archived_path_view(dir, id).len() == dir.len() + 20 + id.len() + 5);
    assert(failed_path_view(dir, id).len() == dir.len() + 19 + id.len() + 5);
}

/// An identifier with no file in any of the four locations is answered
/// with not-found, the only reply that carries the 404 status.
pub proof fn lemma_lookup_not_found(id: Seq<char>)
    ensures
        classify_spec(false, false, false, false) == Location::NotFound,
        status_reply_view(id, Location::NotFound).0 == 404,
        status_reply_view(id, Location::NotFound).1 == envelope_json(
            id,
            "notfound"@,
            Option::Some("File not found"@),
        ),
        forall|loc: Location|
            #[trigger] status_reply_view(id, loc).0 == 404 ==> loc == Location::NotFound,
{
}

/// A freshly generated identifier — alphanumeric throughout, as the
/// generator draws it — passes validation, and once its file sits at the
/// ready location, the status endpoint reports it ready, never missing.
pub proof fn lemma_fresh_submission_reports_ready(id: Seq<char>)
    requires
        id.len() > 0,
        forall|i: int| 0 <= i < id.len() ==> ascii_alnum(#[trigger] id[i]),
    ensures
        identifier_ok(id),
        classify_spec(false, true, false, false) == Location::Ready,
        status_reply_view(id, Location::Ready).0 == 200,
        status_reply_view(id, Location::Ready).1 == envelope_json(
            id,
            "ready"@,
            Option::Some("File waiting for processing"@),
        ),
        resolved_status(id, 200, status_reply_view(id, Location::Ready).1),
{
    crate::ident::lemma_alnum_identifier_ok(id);
    // The ready existence bits witness the resolved-status disjunct.
    assert(classify_spec(false, true, false, false) == Location::Ready);
    assert(status_reply_view(id, classify_spec(false, true, false, false)).0 == 200);
}

/// The status reply is a function of the identifier and the resolved
/// location alone: two lookups over an unchanged spool answer alike.
pub proof fn lemma_lookup_idempotent(id: Seq<char>, first: Location, second: Location)
    requires
        first == second,
    ensures
        status_reply_view(id, first) == status_reply_view(id, second),
{
}

/// An empty or non-alphanumeric identifier is answered with a 400 reply
/// carrying the matching message — and, the probes being unreachable in
/// that branch, without the filesystem being consulted.
pub proof fn lemma_invalid_identifier_rejected(id: Seq<char>, code: int, body: Seq<char>)
    requires
        resolved_status(id, code, body),
        id.len() == 0 || exists|i: int| 0 <= i < id.len() && !identifier_char(#[trigger] id[i]),
    ensures
        code == 400,
        body == error_reply(
            if id.len() == 0 {
                "Empty id"@
            } else {
                "Invalid id"@
            },
        ),
{
}

} // verus!
