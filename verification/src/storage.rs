//! Where stage outputs and reports are stored, how storage writes and file
//! removals are retried, and the service's health answers.

use vstd::prelude::*;
use crate::text::{chars_of, string_of, append_chars, decimal, decimal_exec, str_eq};

verus! {

fn join(parts: &Vec<&str>) -> (r: String)
    ensures
        r@ == parts@.fold_left(Seq::<char>::empty(), |acc: Seq<char>, p: &str| acc + p@),
{
    let mut v: Vec<char> = Vec::new();
    let n = parts.len();
    for i in 0..n
        invariant
            n == parts@.len(),
            v@ == parts@.take(i as int).fold_left(Seq::<char>::empty(), |acc: Seq<char>, p: &str| acc + p@),
    {
        append_chars(&mut v, &chars_of(parts[i]));
        assert(parts@.take(i + 1).drop_last() =~= parts@.take(i as int));
    }
    assert(parts@.take(n as int) =~= parts@);
    string_of(&v)
}

/// The storage key of a stage's output:
/// `jobs/{job}/outputs/{stage}_{millis}.{ext}`.
pub open spec fn output_key_of(job: Seq<char>, stage: Seq<char>, millis: nat, ext: Seq<char>) -> Seq<char> {
    "jobs/"@ + job + "/outputs/"@ + stage + "_"@ + decimal(millis) + "."@ + ext
}

/// The storage key of a stage's output, written at `millis` (milliseconds
/// since the Unix epoch).
pub fn stage_output_key(job: &str, stage: &str, millis: u64, ext: &str) -> (r: String)
    ensures
        r@ == output_key_of(job@, stage@, millis as nat, ext@),
{
    let ms = string_of(&decimal_exec(millis));
    let parts = vec!["jobs/", job, "/outputs/", stage, "_", ms.as_str(), ".", ext];
    let r = join(&parts);
    proof {
        reveal_with_fuel(Seq::fold_left, 9);
    }
    assert(parts@.fold_left(Seq::<char>::empty(), |acc: Seq<char>, p: &str| acc + p@) =~= output_key_of(job@, stage@, millis as nat, ext@));
    r
}

/// The storage key of a job's report: `jobs/{job}/outputs/{job}-report.pdf`.
pub fn report_key(job: &str) -> (r: String)
    ensures
        r@ == "jobs/"@ + job@ + "/outputs/"@ + job@ + "-report.pdf"@,
{
    let parts = vec!["jobs/", job, "/outputs/", job, "-report.pdf"];
    let r = join(&parts);
    proof {
        reveal_with_fuel(Seq::fold_left, 6);
    }
    assert(parts@.fold_left(Seq::<char>::empty(), |acc: Seq<char>, p: &str| acc + p@) =~= "jobs/"@ + job@ + "/outputs/"@ + job@ + "-report.pdf"@);
    r
}

/// The cache key of an organisation's pipelines: `pipelines:{org}`.
pub fn pipeline_cache_key(org: &str) -> (r: String)
    ensures
        r@ == "pipelines:"@ + org@,
{
    let mut v = chars_of("pipelines:");
    append_chars(&mut v, &chars_of(org));
    string_of(&v)
}

/// Whether a failed storage write is retried, and after how many
/// milliseconds: after the first three failures, waiting 500 ms times the
/// retry's number; `None` after that.
pub fn upload_retry(failures_before: u32) -> (r: Option<u64>)
    ensures
        failures_before < 3 ==> r == Some((500 * (failures_before + 1)) as u64),
        failures_before >= 3 ==> r is None,
{
    if failures_before < 3 {
        Some(500 * (failures_before as u64 + 1))
    } else {
        None
    }
}

/// Whether a failed removal of a temporary file is tried again, and after
/// how many milliseconds: attempt 1 of 2 is retried after 100 ms; the last
/// one is not.
pub fn removal_retry(attempt: u8) -> (r: Option<u64>)
    ensures
        attempt < 2 ==> r == Some((100 * attempt) as u64),
        attempt >= 2 ==> r is None,
{
    if attempt < 2 {
        Some(100 * attempt as u64)
    } else {
        None
    }
}

/// The status of the readiness probe: 200 where the database and the
/// storage answer, 503 otherwise.
pub fn readiness(db_ok: bool, storage_ok: bool) -> (r: u16)
    ensures
        r == if db_ok && storage_ok { 200u16 } else { 503u16 },
{
    if db_ok && storage_ok {
        200
    } else {
        503
    }
}

/// Which organisations a user sees: all of them for a global
/// administrator, else only the user's own.
pub fn lists_all_orgs(role: &str) -> (r: bool)
    ensures
        r == (role@ == "admin"@),
{
    str_eq(role, "admin")
}

} // verus!
