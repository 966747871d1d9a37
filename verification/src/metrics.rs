//! The metrics exposition: four counter values, a live gauge counting
//! `.json` entries in the spool root, and the uptime, rendered in the
//! fixed help/type/value text format scrapers depend on.

use vstd::prelude::*;
use crate::numfmt::decimal;

verus! {

/// Whether a directory entry name carries the `.json` extension: it ends
/// in `.json` and has a non-empty stem before it.
pub open spec fn is_json_name(name: Seq<char>) -> bool {
    name.len() > 5 && name.subrange(name.len() - 5, name.len() as int) == ".json"@
}

/// How many of the given entry names carry the `.json` extension.
pub open spec fn json_file_count(names: Seq<String>) -> nat
    decreases names.len(),
{
    if names.len() == 0 {
        0
    } else {
        json_file_count(names.drop_last()) + (if is_json_name(names.last()@) {
            1nat
        } else {
            0nat
        })
    }
}

/// Decides whether one entry name carries the `.json` extension.
fn is_json_file_name(name: &str) -> (r: bool)
    ensures
        r == is_json_name(name@),
{
    let n = name.unicode_len();
    if n <= 5 {
        proof {
            reveal_strlit(".json");
        }
        return false;
    }
    let r = name.get_char(n - 5) == '.' && name.get_char(n - 4) == 'j' && name.get_char(n - 3)
        == 's' && name.get_char(n - 2) == 'o' && name.get_char(n - 1) == 'n';
    proof {
        reveal_strlit(".json");
        let s = name@.subrange(n - 5, n as int);
        if r {
            assert(s =~= ".json"@);
        } else {
            if s == ".json"@ {
                assert(s[0] == '.' && s[1] == 'j' && s[2] == 's' && s[3] == 'o' && s[4] == 'n');
                assert(false);
            }
        }
    }
    r
}

/// Counts the entry names that carry the `.json` extension.
pub fn count_json_files(names: &Vec<String>) -> (n: usize)
    ensures
        n as nat == json_file_count(names@),
{
    let mut n: usize = 0;
    let mut i: usize = 0;
    while i < names.len()
        invariant
            i <= names@.len(),
            n <= i,
            n as nat == json_file_count(names@.subrange(0, i as int)),
        decreases names@.len() - i,
    {
        if is_json_file_name(names[i].as_str()) {
            n += 1;
        }
        proof {
            assert(names@.subrange(0, i as int + 1).drop_last() =~= names@.subrange(0, i as int));
            assert(names@.subrange(0, i as int + 1).last() == names@[i as int]);
        }
        i += 1;
    }
    proof {
        assert(names@.subrange(0, names@.len() as int) =~= names@);
    }
    n
}

/// The exposition text: one help line, one type line and one value line
/// per metric, in fixed order.
pub open spec fn metrics_text(
    submissions: nat,
    size_total: nat,
    errors: nat,
    json_files: nat,
    uptime_seconds: nat,
) -> Seq<char> {
    "# HELP kcidb_submissions_total Total number of submissions received\n"@
        + "# TYPE kcidb_submissions_total counter\n"@ + "kcidb_submissions_total "@ + decimal(
        submissions,
    ) + "\n"@ + "# HELP kcidb_submission_size_total Total size of all submissions received in bytes\n"@
        + "# TYPE kcidb_submission_size_total counter\n"@ + "kcidb_submission_size_total "@
        + decimal(size_total) + "\n"@ + "# HELP kcidb_errors_total Total number of errors encountered\n"@
        + "# TYPE kcidb_errors_total counter\n"@ + "kcidb_errors_total "@ + decimal(errors) + "\n"@
        + "# HELP kcidb_json_files_total Total number of JSON files in the spool directory\n"@
        + "# TYPE kcidb_json_files_total gauge\n"@ + "kcidb_json_files_total "@ + decimal(
        json_files,
    ) + "\n"@ + "# HELP kcidb_uptime_seconds Uptime of the server in seconds\n"@
        + "# TYPE kcidb_uptime_seconds gauge\n"@ + "kcidb_uptime_seconds "@ + decimal(
        uptime_seconds,
    ) + "\n"@
}

/// Renders the exposition text for the given counter and gauge values.
pub fn render_metrics(
    submissions: u64,
    size_total: u64,
    errors: u64,
    json_files: usize,
    uptime_seconds: u64,
) -> (r: String)
    ensures
        r@ == metrics_text(
            submissions as nat,
            size_total as nat,
            errors as nat,
            json_files as nat,
            uptime_seconds as nat,
        ),
{
    let mut out = String::new();
    out.append("# HELP kcidb_submissions_total Total number of submissions received\n");
    out.append("# TYPE kcidb_submissions_total counter\n");
    out.append("kcidb_submissions_total ");
    let v0 = crate::numfmt::u64_to_decimal(submissions);
    out.append(v0.as_str());
    out.append("\n");
    out.append("# HELP kcidb_submission_size_total Total size of all submissions received in bytes\n");
    out.append("# TYPE kcidb_submission_size_total counter\n");
    out.append("kcidb_submission_size_total ");
    let v1 = crate::numfmt::u64_to_decimal(size_total);
    out.append(v1.as_str());
    out.append("\n");
    out.append("# HELP kcidb_errors_total Total number of errors encountered\n");
    out.append("# TYPE kcidb_errors_total counter\n");
    out.append("kcidb_errors_total ");
    let v2 = crate::numfmt::u64_to_decimal(errors);
    out.append(v2.as_str());
    out.append("\n");
    out.append("# HELP kcidb_json_files_total Total number of JSON files in the spool directory\n");
    out.append("# TYPE kcidb_json_files_total gauge\n");
    out.append("kcidb_json_files_total ");
    let v3 = crate::numfmt::u64_to_decimal(json_files as u64);
    out.append(v3.as_str());
    out.append("\n");
    out.append("# HELP kcidb_uptime_seconds Uptime of the server in seconds\n");
    out.append("# TYPE kcidb_uptime_seconds gauge\n");
    out.append("kcidb_uptime_seconds ");
    let v4 = crate::numfmt::u64_to_decimal(uptime_seconds);
    out.append(v4.as_str());
    out.append("\n");
    proof {
        assert(out@ =~= metrics_text(
            submissions as nat,
            size_total as nat,
            errors as nat,
            json_files as nat,
            uptime_seconds as nat,
        ));
    }
    out
}

/// The metrics endpoint: scans the spool root for `.json` entries and
/// renders the exposition text. The gauge reflects whatever the listing
/// found at the moment of the scan.
pub fn submission_metrics(
    dir: &str,
    submissions: u64,
    size_total: u64,
    errors: u64,
    uptime_seconds: u64,
) -> (r: String)
    ensures
        exists|files: nat|
            r@ == #[trigger] metrics_text(
                submissions as nat,
                size_total as nat,
                errors as nat,
                files,
                uptime_seconds as nat,
            ),
{
    let names = crate::spool::list_dir_names(dir);
    let files = count_json_files(&names);
    let out = render_metrics(submissions, size_total, errors, files, uptime_seconds);
    proof {
        assert(out@ == metrics_text(
            submissions as nat,
            size_total as nat,
            errors as nat,
            files as nat,
            uptime_seconds as nat,
        ));
    }
    out
}

} // verus!
