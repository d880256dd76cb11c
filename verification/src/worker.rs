//! The analysis worker's decisions: which stage runs how, when a job ends,
//! where the OCR and AI services are and how they are authenticated, how
//! failed calls are retried, and the worker's runtime settings.
//!
//! The worker itself (queue, downloads, service calls, files) performs
//! these decisions; each one here is a function from what it observed to
//! what it does next.

use vstd::prelude::*;
use vstd::arithmetic::power2::{pow2, lemma2_to64, lemma2_to64_rest, lemma_pow2_unfold,
    lemma_pow2_strictly_increases};
use crate::json::{Json, JsonValue};
use crate::text::{chars_of, string_of, chars_eq, is_ws, is_whitespace, views, trim, trim_chars,
    lowercase, lowercase_chars, starts_with, starts_with_exec, copy_range, parsed_within,
    parse_usize};

verus! {

// ---------------------------------------------------------------------------
// Runtime settings
// ---------------------------------------------------------------------------

/// A named prompt of an organisation.
pub struct PromptTemplate {
    pub name: String,
    pub text: String,
}

/// Settings the worker re-reads while it runs.
pub struct WorkerRuntimeConfig {
    /// Number of jobs to process concurrently.
    pub concurrency: usize,
}

/// The concurrency a `WORKER_CONCURRENCY` setting asks for: its value where
/// it parses, else 1.
pub open spec fn concurrency_of(setting: Option<Seq<char>>) -> nat {
    match setting {
        Some(v) => match parsed_within(v, usize::MAX as nat) {
            Some(x) => x,
            None => 1,
        },
        None => 1,
    }
}

impl WorkerRuntimeConfig {
    /// The settings from the value of `WORKER_CONCURRENCY`.
    pub fn from_env(worker_concurrency: Option<&str>) -> (r: WorkerRuntimeConfig)
        ensures
            r.concurrency == concurrency_of(match worker_concurrency { Some(v) => Some(v@), None => None }),
    {
        let concurrency = match worker_concurrency {
            Some(v) => match parse_usize(v) {
                Some(x) => x,
                None => 1,
            },
            None => 1,
        };
        WorkerRuntimeConfig { concurrency }
    }
}

/// The concurrency set when the worker reloads its settings: the setting's
/// value, but at least 1.
pub fn reloaded_concurrency(worker_concurrency: Option<&str>) -> (r: usize)
    ensures
        r >= 1,
        r == if concurrency_of(match worker_concurrency { Some(v) => Some(v@), None => None }) >= 1 {
            concurrency_of(match worker_concurrency { Some(v) => Some(v@), None => None })
        } else {
            1
        },
{
    let cfg = WorkerRuntimeConfig::from_env(worker_concurrency);
    if cfg.concurrency >= 1 {
        cfg.concurrency
    } else {
        1
    }
}

/// What the worker reports when it shuts down after being idle: the line
/// it logs, and how much the shutdown counter goes up.
pub struct IdleShutdown {
    pub message: String,
    pub counter_increment: u64,
}

/// The report of an idle shutdown; the worker logs the message and adds the
/// increment to its shutdown counter.
pub fn log_idle_shutdown() -> (r: IdleShutdown)
    ensures
        r.message@ == "Idle timeout reached, shutting down"@,
        r.counter_increment == 1,
{
    IdleShutdown { message: "Idle timeout reached, shutting down".to_owned(), counter_increment: 1 }
}

/// How long the worker blocks waiting for a job, in seconds: a minute where
/// an idle shutdown is configured, else without limit (0).
pub fn blpop_timeout(shutdown_after_idle: Option<u64>) -> (r: u64)
    ensures
        r == if shutdown_after_idle is Some { 60u64 } else { 0u64 },
{
    match shutdown_after_idle {
        Some(_) => 60,
        None => 0,
    }
}

/// Whether the worker has been idle long enough to shut down: an idle
/// shutdown after `minutes` is configured, and at least that long passed
/// since the last job.
pub fn idle_expired(shutdown_after_idle: Option<u64>, idle_seconds: u64) -> (r: bool)
    requires
        match shutdown_after_idle {
            Some(m) => m * 60 <= u64::MAX,
            None => true,
        },
    ensures
        r == match shutdown_after_idle {
            Some(m) => idle_seconds >= m * 60,
            None => false,
        },
{
    match shutdown_after_idle {
        Some(m) => idle_seconds >= m * 60,
        None => false,
    }
}

// ---------------------------------------------------------------------------
// Retry delays
// ---------------------------------------------------------------------------

/// The delay before retry number `attempt` of an AI call, in milliseconds:
/// 500 ms, doubled for each earlier retry.
pub open spec fn backoff_ms(attempt: nat) -> nat {
    500 * pow2((attempt - 1) as nat)
}

/// The delay before retry number `attempt` (from 1) of an AI call, in
/// milliseconds. Retry numbers beyond 56 would overflow the delay.
pub fn exponential_backoff(attempt: u32) -> (r: u64)
    requires
        1 <= attempt <= 56,
    ensures
        r == backoff_ms(attempt as nat),
{
    let mut d: u64 = 500;
    let mut i: u32 = 1;
    proof {
        lemma2_to64();
        lemma2_to64_rest();
    }
    while i < attempt
        invariant
            1 <= i <= attempt <= 56,
            d == 500 * pow2((i - 1) as nat),
            pow2(55) == 0x80000000000000,
        decreases attempt - i,
    {
        proof {
            lemma_pow2_unfold(i as nat);
            if i < 56 {
                if (i as nat) < 55 {
                    lemma_pow2_strictly_increases(i as nat, 55);
                }
            }
        }
        d = d * 2;
        i = i + 1;
    }
    d
}

/// The delay before retry number `attempt` of an external OCR call, in
/// milliseconds: 500 ms times the retry number.
pub fn ocr_retry_delay(attempt: u32) -> (r: u64)
    ensures
        r == 500 * attempt,
{
    500 * (attempt as u64)
}


// ---------------------------------------------------------------------------
// Stages
// ---------------------------------------------------------------------------

/// A step of a pipeline.
pub struct Stage {
    pub stage_type: String,
    pub command: Option<String>,
    pub prompt_name: Option<String>,
    pub ocr_engine: Option<String>,
    pub ocr_stage_endpoint: Option<String>,
    pub ocr_stage_key: Option<String>,
    pub config: Option<JsonValue>,
}

/// What running a stage means.
pub enum StageAction {
    /// Text recognition, by the external service or by local Tesseract.
    Ocr { external: bool },
    /// The parse stage over the recognised text.
    Parse,
    /// A call of the AI service with the current result.
    Ai,
    /// The report.
    Report,
    /// A program run with arguments.
    Command { program: String, args: Vec<String> },
    /// A command of white space only: nothing is run.
    Nothing,
    /// A stage of unknown type without command: the worker waits a second.
    Wait,
}

/// The white-space separated words of `s` after a partial word `cur`
/// (`str::split_whitespace`).
pub open spec fn words_from(s: Seq<char>, cur: Seq<char>) -> Seq<Seq<char>>
    decreases s.len(),
{
    if s.len() == 0 {
        if cur.len() > 0 {
            seq![cur]
        } else {
            seq![]
        }
    } else if is_ws(s[0]) {
        if cur.len() > 0 {
            seq![cur] + words_from(s.drop_first(), seq![])
        } else {
            words_from(s.drop_first(), seq![])
        }
    } else {
        words_from(s.drop_first(), cur.push(s[0]))
    }
}

/// The white-space separated words of `s`.
pub open spec fn words(s: Seq<char>) -> Seq<Seq<char>> {
    words_from(s, seq![])
}

fn words_exec(v: &[char]) -> (r: Vec<Vec<char>>)
    ensures
        views(r@) == words(v@),
{
    let n = v.len();
    let mut out: Vec<Vec<char>> = Vec::new();
    let mut cur: Vec<char> = Vec::new();
    let mut i: usize = 0;
    assert(v@.subrange(0, n as int) =~= v@);
    while i < n
        invariant
            n == v@.len(),
            i <= n,
            words(v@) == views(out@) + words_from(v@.subrange(i as int, n as int), cur@),
        decreases n - i,
    {
        let ghost rest = v@.subrange(i as int, n as int);
        assert(rest.drop_first() =~= v@.subrange(i + 1, n as int));
        if is_whitespace(v[i]) {
            if cur.len() > 0 {
                let ghost before = out@;
                let piece = cur;
                out.push(piece);
                assert(views(out@) =~= views(before) + seq![piece@]);
                cur = Vec::new();
            }
            assert(cur@ =~= seq![]);
        } else {
            cur.push(v[i]);
        }
        i = i + 1;
    }
    assert(v@.subrange(n as int, n as int).len() == 0);
    if cur.len() > 0 {
        let ghost before = out@;
        out.push(cur);
        assert(views(out@) =~= views(before) + seq![cur@]);
    } else {
        assert(views(out@) + seq![] =~= views(out@));
    }
    out
}

/// The action of a stage with the given type, OCR engine and command.
pub open spec fn action_of(stage_type: Seq<char>, ocr_engine: Option<Seq<char>>, command: Option<Seq<char>>) -> StageActionView {
    if stage_type == "ocr"@ {
        StageActionView::Ocr(ocr_engine == Some("external"@))
    } else if stage_type == "parse"@ {
        StageActionView::Parse
    } else if stage_type == "ai"@ {
        StageActionView::Ai
    } else if stage_type == "report"@ {
        StageActionView::Report
    } else {
        match command {
            Some(c) => if words(c).len() > 0 {
                StageActionView::Command(words(c)[0], words(c).drop_first())
            } else {
                StageActionView::Nothing
            },
            None => StageActionView::Wait,
        }
    }
}

/// The mathematical form of a stage action.
pub enum StageActionView {
    Ocr(bool),
    Parse,
    Ai,
    Report,
    Command(Seq<char>, Seq<Seq<char>>),
    Nothing,
    Wait,
}

/// The view of a stage action.
pub open spec fn action_view(a: StageAction) -> StageActionView {
    match a {
        StageAction::Ocr { external } => StageActionView::Ocr(external),
        StageAction::Parse => StageActionView::Parse,
        StageAction::Ai => StageActionView::Ai,
        StageAction::Report => StageActionView::Report,
        StageAction::Command { program, args } => StageActionView::Command(
            program@,
            args@.map_values(|a: String| a@),
        ),
        StageAction::Nothing => StageActionView::Nothing,
        StageAction::Wait => StageActionView::Wait,
    }
}

/// The text of an optional string.
pub open spec fn opt_string(o: Option<String>) -> Option<Seq<char>> {
    match o {
        Some(s) => Some(s@),
        None => None,
    }
}

fn is_text(s: &String, lit: &str) -> (r: bool)
    ensures
        r == (s@ == lit@),
{
    chars_eq(&chars_of(s.as_str()), &chars_of(lit))
}

/// What running a stage means.
pub fn stage_action(stage: &Stage) -> (r: StageAction)
    ensures
        action_view(r) == action_of(stage.stage_type@, opt_string(stage.ocr_engine), opt_string(stage.command)),
{
    if is_text(&stage.stage_type, "ocr") {
        let external = match &stage.ocr_engine {
            Some(e) => is_text(e, "external"),
            None => false,
        };
        StageAction::Ocr { external }
    } else if is_text(&stage.stage_type, "parse") {
        StageAction::Parse
    } else if is_text(&stage.stage_type, "ai") {
        StageAction::Ai
    } else if is_text(&stage.stage_type, "report") {
        StageAction::Report
    } else {
        match &stage.command {
            Some(c) => {
                let ws = words_exec(&chars_of(c.as_str()));
                if ws.len() > 0 {
                    let program = string_of(&ws[0]);
                    let mut args: Vec<String> = Vec::new();
                    let n = ws.len();
                    for i in 1..n
                        invariant
                            n == ws@.len(),
                            n > 0,
                            args@.map_values(|a: String| a@) == views(ws@).subrange(1, i as int),
                    {
                        let ghost before = args@;
                        args.push(string_of(&ws[i]));
                        assert(args@.map_values(|a: String| a@) =~= before.map_values(|a: String| a@).push(ws@[i as int]@));
                        assert(views(ws@).subrange(1, i + 1) =~= views(ws@).subrange(1, i as int).push(ws@[i as int]@));
                    }
                    assert(views(ws@).subrange(1, n as int) =~= views(ws@).drop_first());
                    assert(views(ws@)[0] == ws@[0]@);
                    StageAction::Command { program, args }
                } else {
                    StageAction::Nothing
                }
            },
            None => StageAction::Wait,
        }
    }
}

// ---------------------------------------------------------------------------
// The JSON handed from stage to stage
// ---------------------------------------------------------------------------

/// The JSON a job's stages start with: `null`.
pub open spec fn first_json() -> Json {
    Json::Null
}

/// The JSON handed on to later stages after a stage with the given action
/// ran, from the JSON before it and what the stage produced: a parse
/// stage's result (where it had text to parse) and an AI stage's reply
/// replace it; every other stage leaves it as it was.
pub open spec fn carried_json(action: StageActionView, previous: Json, produced: Option<Json>) -> Json {
    match action {
        StageActionView::Parse | StageActionView::Ai => match produced {
            Some(v) => v,
            None => previous,
        },
        _ => previous,
    }
}

/// The JSON a job's stages start with.
pub fn start_json() -> (r: JsonValue)
    ensures
        r@ == first_json(),
{
    JsonValue::Null
}

/// The JSON handed on after a stage ran (`produced`: what the stage made,
/// if anything).
pub fn carry_json(action: &StageAction, previous: JsonValue, produced: Option<JsonValue>) -> (r: JsonValue)
    ensures
        r@ == carried_json(action_view(*action), previous@, match produced { Some(v) => Some(v@), None => None }),
{
    match action {
        StageAction::Parse | StageAction::Ai => match produced {
            Some(v) => v,
            None => previous,
        },
        _ => previous,
    }
}

// ---------------------------------------------------------------------------
// Running the stages of a job
// ---------------------------------------------------------------------------

/// How a stage ended.
#[derive(PartialEq, Eq, Structural, Clone, Copy)]
pub enum StageOutcome {
    /// The stage did its work.
    Completed,
    /// OCR could not produce text (engine missing, service error, output
    /// unreadable): a stage failure, the job fails.
    OcrFailed,
    /// The stage failed: the job fails.
    Failed,
}

/// Whether a stage's outcome is a failure, which fails the job.
pub open spec fn is_failure(o: StageOutcome) -> bool {
    o == StageOutcome::Failed || o == StageOutcome::OcrFailed
}

/// Where a job is.
#[derive(PartialEq, Eq, Structural, Clone, Copy)]
pub enum JobState {
    /// Stage `next` is to run.
    Running { next: usize },
    /// The job ended well.
    Succeeded,
    /// A stage failed.
    Failed,
}

/// The state after the stages with the given outcomes ran, in order, from
/// the start of a job with `total` stages.
pub open spec fn job_state_after(total: nat, outcomes: Seq<StageOutcome>) -> JobState
    decreases outcomes.len(),
{
    if outcomes.len() == 0 {
        if total == 0 {
            JobState::Succeeded
        } else {
            JobState::Running { next: 0 }
        }
    } else {
        step_state(job_state_after(total, outcomes.drop_last()), outcomes.last(), total)
    }
}

/// The state after one stage ended.
pub open spec fn step_state(s: JobState, o: StageOutcome, total: nat) -> JobState {
    match s {
        JobState::Running { next } => match o {
            StageOutcome::Completed => if next + 1 >= total {
                JobState::Succeeded
            } else {
                JobState::Running { next: (next + 1) as usize }
            },
            StageOutcome::OcrFailed => JobState::Failed,
            StageOutcome::Failed => JobState::Failed,
        },
        _ => s,
    }
}

/// The state at the start of a job with `total` stages.
pub fn start_job(total: usize) -> (r: JobState)
    ensures
        r == job_state_after(total as nat, seq![]),
{
    if total == 0 {
        JobState::Succeeded
    } else {
        JobState::Running { next: 0 }
    }
}

/// The state after the running stage ended with `outcome`.
pub fn finish_stage(state: JobState, outcome: StageOutcome, total: usize) -> (r: JobState)
    requires
        match state {
            JobState::Running { next } => next < total,
            _ => true,
        },
    ensures
        r == step_state(state, outcome, total as nat),
        match r {
            JobState::Running { next } => next < total,
            _ => true,
        },
{
    match state {
        JobState::Running { next } => match outcome {
            StageOutcome::Completed => if next + 1 >= total {
                JobState::Succeeded
            } else {
                JobState::Running { next: next + 1 }
            },
            StageOutcome::OcrFailed => JobState::Failed,
            StageOutcome::Failed => JobState::Failed,
        },
        _ => state,
    }
}

/// The job ends at its first failed stage (a failed OCR stage included),
/// and fails exactly then: for any outcomes, the job has failed if and only
/// if one of them is a failure while the job was still running; no stage
/// runs after it.
pub proof fn lemma_job_fails_iff_a_stage_failed(total: nat, outcomes: Seq<StageOutcome>)
    ensures
        (job_state_after(total, outcomes) == JobState::Failed) <==> exists|i: int|
            0 <= i < outcomes.len() && is_failure(outcomes[i])
                && #[trigger] job_state_after(total, outcomes.take(i)) is Running,
    decreases outcomes.len(),
{
    if outcomes.len() > 0 {
        let prev = outcomes.drop_last();
        lemma_job_fails_iff_a_stage_failed(total, prev);
        let last = outcomes.len() - 1;
        assert(outcomes.take(last) =~= prev);
        if job_state_after(total, outcomes) == JobState::Failed {
            if job_state_after(total, prev) != JobState::Failed {
                assert(job_state_after(total, outcomes.take(last)) is Running);
            } else {
                let i = choose|i: int|
                    0 <= i < prev.len() && is_failure(prev[i])
                        && #[trigger] job_state_after(total, prev.take(i)) is Running;
                assert(prev.take(i) =~= outcomes.take(i));
            }
        } else {
            assert forall|i: int|
                0 <= i < outcomes.len() && is_failure(outcomes[i])
                    implies !(#[trigger] job_state_after(total, outcomes.take(i)) is Running) by {
                if i < last {
                    assert(prev.take(i) =~= outcomes.take(i));
                    if job_state_after(total, prev.take(i)) is Running {
                        assert(job_state_after(total, prev) == JobState::Failed);
                    }
                }
            }
        }
    }
}


// ---------------------------------------------------------------------------
// Service endpoints and credentials
// ---------------------------------------------------------------------------

/// The first setting that is present, else the environment's value, else
/// the empty text.
pub open spec fn first_setting(stage: Option<Seq<char>>, org: Option<Seq<char>>, env: Option<Seq<char>>) -> Seq<char> {
    match stage {
        Some(v) => v,
        None => match org {
            Some(v) => v,
            None => match env {
                Some(v) => v,
                None => seq![],
            },
        },
    }
}

/// The first of a stage's own value, its organisation's value and the
/// environment's value that is set, or the empty text. It chooses the OCR
/// endpoint (`ocr_stage_endpoint`, `ocr_api_endpoint`, `OCR_API_URL`) and
/// key, and, without a stage value, the AI endpoint and key
/// (`ai_api_endpoint`, `AI_API_URL`).
pub fn resolve_setting(stage: Option<&str>, org: Option<&str>, env: Option<&str>) -> (r: String)
    ensures
        r@ == first_setting(
            match stage { Some(v) => Some(v@), None => None },
            match org { Some(v) => Some(v@), None => None },
            match env { Some(v) => Some(v@), None => None },
        ),
{
    match stage {
        Some(v) => v.to_owned(),
        None => match org {
            Some(v) => v.to_owned(),
            None => match env {
                Some(v) => v.to_owned(),
                None => String::new(),
            },
        },
    }
}

/// Whether `HeaderValue::from_str` accepts a text: each of its UTF-8 bytes
/// is a tab or at least 32 and not 127, which for characters means each is
/// a tab, or at least U+0020 and not U+007F.
pub open spec fn header_value_ok(s: Seq<char>) -> bool {
    forall|i: int| 0 <= i < s.len() ==> {
        let c = #[trigger] s[i];
        c == '\t' || ((c as u32) >= 32 && (c as u32) != 127)
    }
}

/// Whether a text is a valid HTTP header value
/// (`reqwest::header::HeaderValue::from_str(..).is_ok()`).
///
/// Claim of the outside call: it accepts exactly the texts whose bytes are
/// all tabs or at least 32 and not 127, as its source checks them.
#[verifier::external_body]
fn header_value_valid(s: &str) -> (r: bool)
    ensures
        r == header_value_ok(s@),
{
    reqwest::header::HeaderValue::from_str(s).is_ok()
}

/// Whether a character may stand in an HTTP header name: a letter, a digit,
/// or one of ``! " # $ % & ' * + - . ^ _ ` | ~``.
pub open spec fn header_name_char(c: char) -> bool {
    let u = c as u32;
    ||| 0x61 <= u <= 0x7a
    ||| 0x41 <= u <= 0x5a
    ||| 0x30 <= u <= 0x39
    ||| c == '!' || c == '"' || c == '#' || c == '$' || c == '%' || c == '&' || c == '\''
    ||| c == '*' || c == '+' || c == '-' || c == '.' || c == '^' || c == '_' || c == '`'
    ||| c == '|' || c == '~'
}

/// Whether `HeaderName::from_bytes` accepts a name: 1 to 65535 characters,
/// each of them allowed.
pub open spec fn header_name_ok(s: Seq<char>) -> bool {
    1 <= s.len() <= 65535 && forall|i: int| 0 <= i < s.len() ==> header_name_char(#[trigger] s[i])
}

/// Whether a text is a valid HTTP header name
/// (`reqwest::header::HeaderName::from_bytes(..).is_ok()` on its bytes).
///
/// Claim of the outside call: it accepts exactly the non-empty names of at
/// most 65535 bytes whose bytes its character table allows (letters,
/// digits and ``! " # $ % & ' * + - . ^ _ ` | ~``); a non-ASCII character
/// gives bytes the table refuses.
#[verifier::external_body]
fn header_name_valid(s: &str) -> (r: bool)
    ensures
        r == header_name_ok(s@),
{
    reqwest::header::HeaderName::from_bytes(s.as_bytes()).is_ok()
}

/// How the external OCR service is authenticated.
pub enum OcrAuth {
    /// No credential is sent.
    Anonymous,
    /// `Authorization: <token>`: the key without its leading "Bearer ".
    Authorization(String),
    /// `X-API-KEY: <key>`.
    ApiKey(String),
}

/// The mathematical form of an OCR credential.
pub enum OcrAuthView {
    Anonymous,
    Authorization(Seq<char>),
    ApiKey(Seq<char>),
}

/// The view of an OCR credential.
pub open spec fn ocr_auth_view(a: OcrAuth) -> OcrAuthView {
    match a {
        OcrAuth::Anonymous => OcrAuthView::Anonymous,
        OcrAuth::Authorization(t) => OcrAuthView::Authorization(t@),
        OcrAuth::ApiKey(k) => OcrAuthView::ApiKey(k@),
    }
}

/// The credential sent with a key: none for a missing or blank key; for a
/// key that starts with "bearer " in any case, the rest of it as the
/// `Authorization` header; else the key as `X-API-KEY`. A header value that
/// HTTP does not allow is not sent. (A key whose lower-case form starts with
/// "bearer " is at least seven characters long; the length test makes that
/// visible.)
pub open spec fn ocr_auth_of(key: Option<Seq<char>>) -> OcrAuthView {
    match key {
        None => OcrAuthView::Anonymous,
        Some(k) => if trim(k).len() == 0 {
            OcrAuthView::Anonymous
        } else if starts_with(lowercase(k), "bearer "@) && k.len() >= 7 {
            if header_value_ok(k.subrange(7, k.len() as int)) {
                OcrAuthView::Authorization(k.subrange(7, k.len() as int))
            } else {
                OcrAuthView::Anonymous
            }
        } else if header_value_ok(k) {
            OcrAuthView::ApiKey(k)
        } else {
            OcrAuthView::Anonymous
        },
    }
}

/// The credential the external OCR service is called with.
pub fn ocr_auth(key: Option<&str>) -> (r: OcrAuth)
    ensures
        ocr_auth_view(r) == ocr_auth_of(match key { Some(k) => Some(k@), None => None }),
{
    match key {
        None => OcrAuth::Anonymous,
        Some(k) => {
            let kc = chars_of(k);
            if trim_chars(&kc).len() == 0 {
                return OcrAuth::Anonymous;
            }
            let lower = lowercase_chars(&kc);
            if starts_with_exec(&lower, &chars_of("bearer ")) && kc.len() >= 7 {
                let token = string_of(&copy_range(&kc, 7, kc.len()));
                if header_value_valid(token.as_str()) {
                    OcrAuth::Authorization(token)
                } else {
                    OcrAuth::Anonymous
                }
            } else if header_value_valid(k) {
                OcrAuth::ApiKey(k.to_owned())
            } else {
                OcrAuth::Anonymous
            }
        },
    }
}

/// Whether the OCR call is retried after a failed send: while fewer than
/// three retries were made.
pub fn ocr_should_retry(attempts: u32) -> (r: bool)
    ensures
        r == (attempts < 3),
{
    attempts < 3
}

// ---------------------------------------------------------------------------
// The AI service
// ---------------------------------------------------------------------------

/// An extra header that an organisation configured for AI calls.
pub struct CustomHeader {
    pub name: String,
    pub value: String,
}

/// Whether a configured header is sent: its name is not blank, and name and
/// value are valid in HTTP.
pub open spec fn header_sent(name: Seq<char>, value: Seq<char>) -> bool {
    trim(name).len() > 0 && header_name_ok(name) && header_value_ok(value)
}

/// The headers sent, in order, of those configured.
pub open spec fn sent_headers(hs: Seq<(Seq<char>, Seq<char>)>) -> Seq<(Seq<char>, Seq<char>)>
    decreases hs.len(),
{
    if hs.len() == 0 {
        seq![]
    } else if header_sent(hs.last().0, hs.last().1) {
        sent_headers(hs.drop_last()).push(hs.last())
    } else {
        sent_headers(hs.drop_last())
    }
}

/// The name and value texts of configured headers.
pub open spec fn header_texts(hs: Seq<CustomHeader>) -> Seq<(Seq<char>, Seq<char>)> {
    hs.map_values(|h: CustomHeader| (h.name@, h.value@))
}

/// The configured headers that an AI call carries.
pub fn select_custom_headers(headers: &Vec<CustomHeader>) -> (r: Vec<CustomHeader>)
    ensures
        header_texts(r@) == sent_headers(header_texts(headers@)),
{
    let mut out: Vec<CustomHeader> = Vec::new();
    let n = headers.len();
    for i in 0..n
        invariant
            n == headers@.len(),
            header_texts(out@) == sent_headers(header_texts(headers@.take(i as int))),
    {
        let h = &headers[i];
        assert(header_texts(headers@.take(i + 1)).drop_last() =~= header_texts(headers@.take(i as int)));
        assert(header_texts(headers@.take(i + 1)).last() == (h.name@, h.value@));
        let blank = trim_chars(&chars_of(h.name.as_str())).len() == 0;
        if !blank && header_name_valid(h.name.as_str()) && header_value_valid(h.value.as_str()) {
            let ghost before = out@;
            out.push(CustomHeader { name: h.name.clone(), value: h.value.clone() });
            assert(header_texts(out@) =~= header_texts(before).push((h.name@, h.value@)));
        }
    }
    assert(headers@.take(n as int) =~= headers@);
    out
}

/// The most retries of an AI call.
pub const MAX_RETRIES: u32 = 3;

/// How one AI call ended.
pub enum AiAttempt {
    /// A success status.
    Success,
    /// Another status, with the response text.
    Status(u16, String),
    /// The request could not be sent.
    SendError(String),
}

/// What follows an AI call.
pub enum AiNext {
    /// The response is the result.
    Done,
    /// Wait this many milliseconds, then make retry number `attempts`.
    Retry { attempts: u32, delay_ms: u64 },
    /// The call failed with this status and text.
    HttpError(u16, String),
    /// The call could not be sent.
    RequestError(String),
}

/// What follows an AI call after `attempts` retries: a success is the
/// result; a failure is retried, after the backoff, while fewer than three
/// retries were made; then it is the error.
pub fn ai_next(attempts: u32, attempt: AiAttempt) -> (r: AiNext)
    requires
        attempts <= MAX_RETRIES,
    ensures
        match attempt {
            AiAttempt::Success => r is Done,
            _ => if attempts < MAX_RETRIES {
                r == (AiNext::Retry { attempts: (attempts + 1) as u32, delay_ms: backoff_ms((attempts + 1) as nat) as u64 })
            } else {
                match attempt {
                    AiAttempt::Status(code, msg) => r == AiNext::HttpError(code, msg),
                    AiAttempt::SendError(msg) => r == AiNext::RequestError(msg),
                    AiAttempt::Success => false,
                }
            },
        },
{
    match attempt {
        AiAttempt::Success => AiNext::Done,
        AiAttempt::Status(code, msg) => if attempts < MAX_RETRIES {
            AiNext::Retry { attempts: attempts + 1, delay_ms: exponential_backoff(attempts + 1) }
        } else {
            AiNext::HttpError(code, msg)
        },
        AiAttempt::SendError(msg) => if attempts < MAX_RETRIES {
            AiNext::Retry { attempts: attempts + 1, delay_ms: exponential_backoff(attempts + 1) }
        } else {
            AiNext::RequestError(msg)
        },
    }
}


/// The wait before retry number `n` of a direct AI call: 500 ms times `n`.
pub open spec fn linear_backoff_ms(n: nat) -> nat {
    500 * n
}

/// What follows a direct AI call (the processing module's) after
/// `attempts` retries: a success status is the result and another status
/// the error at once; a request that could not be sent is retried, after
/// 500 ms times the retry's number, while fewer than three retries were
/// made, and is then the error.
pub fn direct_ai_next(attempts: u32, attempt: AiAttempt) -> (r: AiNext)
    requires
        attempts <= MAX_RETRIES,
    ensures
        match attempt {
            AiAttempt::Success => r is Done,
            AiAttempt::Status(code, msg) => r == AiNext::HttpError(code, msg),
            AiAttempt::SendError(msg) => if attempts < MAX_RETRIES {
                r == (AiNext::Retry { attempts: (attempts + 1) as u32, delay_ms: linear_backoff_ms((attempts + 1) as nat) as u64 })
            } else {
                r == AiNext::RequestError(msg)
            },
        },
{
    match attempt {
        AiAttempt::Success => AiNext::Done,
        AiAttempt::Status(code, msg) => AiNext::HttpError(code, msg),
        AiAttempt::SendError(msg) => if attempts < MAX_RETRIES {
            AiNext::Retry { attempts: attempts + 1, delay_ms: 500 * (attempts as u64 + 1) }
        } else {
            AiNext::RequestError(msg)
        },
    }
}

/// The AI service an AI stage calls: the organisation's endpoint and key,
/// else `AI_API_URL` and `AI_API_KEY`, else empty; `Err` "AI endpoint
/// missing" where the endpoint comes out empty.
pub fn ai_service(
    org_endpoint: Option<&str>,
    org_key: Option<&str>,
    env_url: Option<&str>,
    env_key: Option<&str>,
) -> (r: Result<(String, String), String>)
    ensures
        ({
            let ep = first_setting(None, match org_endpoint { Some(v) => Some(v@), None => None }, match env_url { Some(v) => Some(v@), None => None });
            let key = first_setting(None, match org_key { Some(v) => Some(v@), None => None }, match env_key { Some(v) => Some(v@), None => None });
            match r {
                Ok((e, k)) => ep.len() > 0 && e@ == ep && k@ == key,
                Err(m) => ep.len() == 0 && m@ == "AI endpoint missing"@,
            }
        }),
{
    let endpoint = resolve_setting(None, org_endpoint, env_url);
    let key = resolve_setting(None, org_key, env_key);
    if endpoint.as_str().is_empty() {
        Err("AI endpoint missing".to_owned())
    } else {
        Ok((endpoint, key))
    }
}

} // verus!
