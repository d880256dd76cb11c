//! Validation of the stage list of a pipeline definition.
//!
//! A pipeline's `stages` must be a non-empty JSON array of objects. Each
//! stage names its `type`; AI, OCR, parse and report stages need a
//! `command`; OCR stages may choose the `default` or an `external` engine,
//! and an external engine needs an endpoint. Stage ids, where given, are
//! unique. The first stage that breaks a rule, and the first rule it breaks,
//! is reported.

use vstd::prelude::*;
use crate::json::{Json, JsonValue, field, get_field, members_view, json_view};
use crate::text::{trim, lowercase, trim_str, lowercase_chars, chars_of, chars_eq, decimal, decimal_exec, append_chars, string_of};

verus! {

broadcast use crate::json::group_json_view;

// ---------------------------------------------------------------------------
// Faults
// ---------------------------------------------------------------------------

/// What is wrong with one stage.
pub enum StageFault {
    NotObject,
    DuplicateId(String),
    MissingType,
    TypeNotString,
    TypeEmpty,
    CommandEmpty,
    CommandNotString,
    AiCommandRequired,
    PromptNameNotString,
    PromptNameEmpty,
    OcrCommandRequired,
    OcrEngineUnknown,
    OcrEngineNotString,
    OcrEndpointInvalid,
    OcrEndpointRequired,
    OcrExternalKeyNotString,
    OcrKeyWithoutExternal,
    OcrKeyNotString,
    CommandRequired(String),
}

/// The mathematical form of a [`StageFault`].
pub enum Fault {
    NotObject,
    DuplicateId(Seq<char>),
    MissingType,
    TypeNotString,
    TypeEmpty,
    CommandEmpty,
    CommandNotString,
    AiCommandRequired,
    PromptNameNotString,
    PromptNameEmpty,
    OcrCommandRequired,
    OcrEngineUnknown,
    OcrEngineNotString,
    OcrEndpointInvalid,
    OcrEndpointRequired,
    OcrExternalKeyNotString,
    OcrKeyWithoutExternal,
    OcrKeyNotString,
    CommandRequired(Seq<char>),
}

impl View for StageFault {
    type V = Fault;

    open spec fn view(&self) -> Fault {
        match self {
            StageFault::NotObject => Fault::NotObject,
            StageFault::DuplicateId(s) => Fault::DuplicateId(s@),
            StageFault::MissingType => Fault::MissingType,
            StageFault::TypeNotString => Fault::TypeNotString,
            StageFault::TypeEmpty => Fault::TypeEmpty,
            StageFault::CommandEmpty => Fault::CommandEmpty,
            StageFault::CommandNotString => Fault::CommandNotString,
            StageFault::AiCommandRequired => Fault::AiCommandRequired,
            StageFault::PromptNameNotString => Fault::PromptNameNotString,
            StageFault::PromptNameEmpty => Fault::PromptNameEmpty,
            StageFault::OcrCommandRequired => Fault::OcrCommandRequired,
            StageFault::OcrEngineUnknown => Fault::OcrEngineUnknown,
            StageFault::OcrEngineNotString => Fault::OcrEngineNotString,
            StageFault::OcrEndpointInvalid => Fault::OcrEndpointInvalid,
            StageFault::OcrEndpointRequired => Fault::OcrEndpointRequired,
            StageFault::OcrExternalKeyNotString => Fault::OcrExternalKeyNotString,
            StageFault::OcrKeyWithoutExternal => Fault::OcrKeyWithoutExternal,
            StageFault::OcrKeyNotString => Fault::OcrKeyNotString,
            StageFault::CommandRequired(s) => Fault::CommandRequired(s@),
        }
    }
}

/// Why a stage list was refused.
pub enum StagesError {
    /// `stages` is not a JSON array.
    NotArray,
    /// The array has no stage.
    Empty,
    /// The stage at `index` breaks a rule.
    Stage { index: usize, fault: StageFault },
}

/// The mathematical form of a [`StagesError`].
pub enum StagesFailure {
    NotArray,
    Empty,
    Stage(int, Fault),
}

impl View for StagesError {
    type V = StagesFailure;

    open spec fn view(&self) -> StagesFailure {
        match self {
            StagesError::NotArray => StagesFailure::NotArray,
            StagesError::Empty => StagesFailure::Empty,
            StagesError::Stage { index, fault } => StagesFailure::Stage(*index as int, fault@),
        }
    }
}

// ---------------------------------------------------------------------------
// The rules
// ---------------------------------------------------------------------------

/// How a stage gives its `command`.
pub enum CommandState {
    Missing,
    Given,
    Blank,
    NotText,
}

/// A `command` that is absent or `null` is missing; a string must not be
/// blank; anything else is refused.
pub open spec fn command_state(m: Seq<(Seq<char>, Json)>) -> CommandState {
    match field(m, "command"@) {
        None => CommandState::Missing,
        Some(Json::Null) => CommandState::Missing,
        Some(Json::Str(c)) => if trim(c).len() == 0 {
            CommandState::Blank
        } else {
            CommandState::Given
        },
        Some(_) => CommandState::NotText,
    }
}

/// The id that a stage gives, where it gives one as a string.
pub open spec fn stage_id(v: Json) -> Option<Seq<char>> {
    match v {
        Json::Object(m) => match field(m, "id"@) {
            Some(Json::Str(s)) => Some(s),
            _ => None,
        },
        _ => None,
    }
}

/// Whether an earlier stage gives the same id as stage `i`.
pub open spec fn repeats_id(stages: Seq<Json>, i: int) -> bool {
    &&& stage_id(stages[i]) is Some
    &&& exists|j: int| 0 <= j < i && #[trigger] stage_id(stages[j]) == stage_id(stages[i])
}

/// Rules on an AI stage.
pub open spec fn ai_fault(m: Seq<(Seq<char>, Json)>, command_missing: bool) -> Option<Fault> {
    if command_missing {
        Some(Fault::AiCommandRequired)
    } else {
        match field(m, "prompt_name"@) {
            None => None,
            Some(Json::Null) => None,
            Some(Json::Str(p)) => if trim(p).len() == 0 {
                Some(Fault::PromptNameEmpty)
            } else {
                None
            },
            Some(_) => Some(Fault::PromptNameNotString),
        }
    }
}

/// The text of the `ocr_engine` member, where it is a string.
pub open spec fn engine_text(m: Seq<(Seq<char>, Json)>) -> Option<Seq<char>> {
    match field(m, "ocr_engine"@) {
        Some(Json::Str(e)) => Some(e),
        _ => None,
    }
}

/// Rules on the key of an external OCR engine.
pub open spec fn external_key_fault(m: Seq<(Seq<char>, Json)>) -> Option<Fault> {
    match field(m, "ocr_stage_key"@) {
        Some(Json::Str(_)) => None,
        Some(Json::Null) => None,
        Some(_) => Some(Fault::OcrExternalKeyNotString),
        None => None,
    }
}

/// Rules on an external OCR engine: it needs a non-blank endpoint.
pub open spec fn external_fault(m: Seq<(Seq<char>, Json)>) -> Option<Fault> {
    match field(m, "ocr_stage_endpoint"@) {
        Some(Json::Str(ep)) => if trim(ep).len() == 0 {
            Some(Fault::OcrEndpointInvalid)
        } else {
            external_key_fault(m)
        },
        Some(_) => Some(Fault::OcrEndpointInvalid),
        None => Some(Fault::OcrEndpointRequired),
    }
}

/// Rules on the `ocr_engine` member: `default`, `external` or `null`.
pub open spec fn engine_fault(m: Seq<(Seq<char>, Json)>) -> Option<Fault> {
    match field(m, "ocr_engine"@) {
        None => None,
        Some(Json::Null) => None,
        Some(Json::Str(e)) => if e != "default"@ && e != "external"@ {
            Some(Fault::OcrEngineUnknown)
        } else if e == "external"@ {
            external_fault(m)
        } else {
            None
        },
        Some(_) => Some(Fault::OcrEngineNotString),
    }
}

/// Rules on `ocr_stage_key`: only an external engine takes a key.
pub open spec fn key_fault(m: Seq<(Seq<char>, Json)>) -> Option<Fault> {
    match field(m, "ocr_stage_key"@) {
        None => None,
        Some(k) => if engine_text(m) != Some("external"@) && !(k is Null) {
            Some(Fault::OcrKeyWithoutExternal)
        } else if !(k is Str) && !(k is Null) {
            Some(Fault::OcrKeyNotString)
        } else {
            None
        },
    }
}

/// Rules on an OCR stage.
pub open spec fn ocr_fault(m: Seq<(Seq<char>, Json)>, command_missing: bool) -> Option<Fault> {
    if command_missing {
        Some(Fault::OcrCommandRequired)
    } else if engine_fault(m) is Some {
        engine_fault(m)
    } else {
        key_fault(m)
    }
}

/// Rules that depend on the stage type `t` (trimmed and lower-cased).
pub open spec fn typed_fault(m: Seq<(Seq<char>, Json)>, t: Seq<char>) -> Option<Fault> {
    match command_state(m) {
        CommandState::Blank => Some(Fault::CommandEmpty),
        CommandState::NotText => Some(Fault::CommandNotString),
        cs => {
            let missing = cs is Missing;
            if t == "ai"@ {
                ai_fault(m, missing)
            } else if t == "ocr"@ {
                ocr_fault(m, missing)
            } else if (t == "parse"@ || t == "report"@) && missing {
                Some(Fault::CommandRequired(t))
            } else {
                None
            }
        },
    }
}

/// Rules on a stage object whose id is not repeated.
pub open spec fn object_fault(m: Seq<(Seq<char>, Json)>) -> Option<Fault> {
    match field(m, "type"@) {
        None => Some(Fault::MissingType),
        Some(Json::Str(s)) => if trim(s).len() == 0 {
            Some(Fault::TypeEmpty)
        } else {
            typed_fault(m, lowercase(trim(s)))
        },
        Some(_) => Some(Fault::TypeNotString),
    }
}

/// The first rule that stage `i` breaks, if any.
pub open spec fn stage_fault(stages: Seq<Json>, i: int) -> Option<Fault> {
    match stages[i] {
        Json::Object(m) => if repeats_id(stages, i) {
            Some(Fault::DuplicateId(stage_id(stages[i])->0))
        } else {
            object_fault(m)
        },
        _ => Some(Fault::NotObject),
    }
}

/// Stage `i` is the first stage that breaks a rule, and `f` the first rule
/// it breaks.
pub open spec fn first_fault(stages: Seq<Json>, i: int, f: Fault) -> bool {
    &&& 0 <= i < stages.len()
    &&& stage_fault(stages, i) == Some(f)
    &&& forall|j: int| 0 <= j < i ==> (#[trigger] stage_fault(stages, j)) is None
}

/// What validating a stage list gives.
pub open spec fn stages_valid(stages: Json) -> bool {
    match stages {
        Json::Array(a) => a.len() > 0 && forall|i: int| 0 <= i < a.len() ==> (#[trigger] stage_fault(a, i)) is None,
        _ => false,
    }
}

/// A parse or report stage must name a command: a stage object whose type
/// (trimmed, in any case) is `parse` or `report` and whose `command` is
/// absent or `null` breaks the rule `CommandRequired` with that type, and
/// no stage list that holds it is valid.
pub proof fn lemma_parse_and_report_need_a_command(stages: Seq<Json>, i: int, m: Seq<(Seq<char>, Json)>, t: Seq<char>)
    requires
        0 <= i < stages.len(),
        stages[i] == Json::Object(m),
        field(m, "type"@) == Some(Json::Str(t)),
        trim(t).len() > 0,
        lowercase(trim(t)) == "parse"@ || lowercase(trim(t)) == "report"@,
        field(m, "command"@) is None || field(m, "command"@) == Some(Json::Null),
    ensures
        object_fault(m) == Some(Fault::CommandRequired(lowercase(trim(t)))),
        !repeats_id(stages, i) ==> stage_fault(stages, i) == Some(Fault::CommandRequired(lowercase(trim(t)))),
        !stages_valid(Json::Array(stages)),
{
    reveal_strlit("parse");
    reveal_strlit("report");
    reveal_strlit("ai");
    reveal_strlit("ocr");
    let l = lowercase(trim(t));
    assert(l != "ai"@) by {
        assert("ai"@.len() == 2 && "parse"@.len() == 5 && "report"@.len() == 6);
    }
    assert(l != "ocr"@) by {
        assert("ocr"@.len() == 3 && "parse"@.len() == 5 && "report"@.len() == 6);
    }
    assert(command_state(m) is Missing);
    assert(stage_fault(stages, i) is Some);
}

// ---------------------------------------------------------------------------
// Checking the rules
// ---------------------------------------------------------------------------

fn text_is(s: &String, lit: &str) -> (r: bool)
    ensures
        r == (s@ == lit@),
{
    let l = lit.to_owned();
    *s == l
}

fn is_blank(s: &String) -> (r: bool)
    ensures
        r == (trim(s@).len() == 0),
{
    let t = trim_str(s.as_str());
    t.len() == 0
}

fn check_command(members: &Vec<(String, JsonValue)>) -> (r: CommandState)
    ensures
        r == command_state(members_view(members@)),
{
    match get_field(members, "command") {
        None => CommandState::Missing,
        Some(JsonValue::Null) => CommandState::Missing,
        Some(JsonValue::String(c)) => if is_blank(c) {
            CommandState::Blank
        } else {
            CommandState::Given
        },
        Some(_) => CommandState::NotText,
    }
}

fn check_ai(members: &Vec<(String, JsonValue)>, command_missing: bool) -> (r: Option<StageFault>)
    ensures
        match r {
            Some(f) => ai_fault(members_view(members@), command_missing) == Some(f@),
            None => ai_fault(members_view(members@), command_missing) is None,
        },
{
    if command_missing {
        return Some(StageFault::AiCommandRequired);
    }
    match get_field(members, "prompt_name") {
        None => None,
        Some(JsonValue::Null) => None,
        Some(JsonValue::String(p)) => if is_blank(p) {
            Some(StageFault::PromptNameEmpty)
        } else {
            None
        },
        Some(_) => Some(StageFault::PromptNameNotString),
    }
}

fn check_external(members: &Vec<(String, JsonValue)>) -> (r: Option<StageFault>)
    ensures
        match r {
            Some(f) => external_fault(members_view(members@)) == Some(f@),
            None => external_fault(members_view(members@)) is None,
        },
{
    match get_field(members, "ocr_stage_endpoint") {
        Some(JsonValue::String(ep)) => {
            if is_blank(ep) {
                return Some(StageFault::OcrEndpointInvalid);
            }
        },
        Some(_) => {
            return Some(StageFault::OcrEndpointInvalid);
        },
        None => {
            return Some(StageFault::OcrEndpointRequired);
        },
    }
    match get_field(members, "ocr_stage_key") {
        Some(JsonValue::String(_)) => None,
        Some(JsonValue::Null) => None,
        Some(_) => Some(StageFault::OcrExternalKeyNotString),
        None => None,
    }
}

fn check_engine(members: &Vec<(String, JsonValue)>) -> (r: Option<StageFault>)
    ensures
        match r {
            Some(f) => engine_fault(members_view(members@)) == Some(f@),
            None => engine_fault(members_view(members@)) is None,
        },
{
    match get_field(members, "ocr_engine") {
        None => None,
        Some(JsonValue::Null) => None,
        Some(JsonValue::String(e)) => {
            let is_default = text_is(e, "default");
            let is_external = text_is(e, "external");
            if !is_default && !is_external {
                Some(StageFault::OcrEngineUnknown)
            } else if is_external {
                check_external(members)
            } else {
                None
            }
        },
        Some(_) => Some(StageFault::OcrEngineNotString),
    }
}

fn engine_is_external(members: &Vec<(String, JsonValue)>) -> (r: bool)
    ensures
        r == (engine_text(members_view(members@)) == Some("external"@)),
{
    match get_field(members, "ocr_engine") {
        Some(JsonValue::String(e)) => text_is(e, "external"),
        _ => false,
    }
}

fn check_key(members: &Vec<(String, JsonValue)>) -> (r: Option<StageFault>)
    ensures
        match r {
            Some(f) => key_fault(members_view(members@)) == Some(f@),
            None => key_fault(members_view(members@)) is None,
        },
{
    let external = engine_is_external(members);
    match get_field(members, "ocr_stage_key") {
        None => None,
        Some(k) => {
            if !external && !k.is_null() {
                Some(StageFault::OcrKeyWithoutExternal)
            } else if !k.is_string() && !k.is_null() {
                Some(StageFault::OcrKeyNotString)
            } else {
                None
            }
        },
    }
}

fn check_ocr(members: &Vec<(String, JsonValue)>, command_missing: bool) -> (r: Option<StageFault>)
    ensures
        match r {
            Some(f) => ocr_fault(members_view(members@), command_missing) == Some(f@),
            None => ocr_fault(members_view(members@), command_missing) is None,
        },
{
    if command_missing {
        return Some(StageFault::OcrCommandRequired);
    }
    match check_engine(members) {
        Some(f) => Some(f),
        None => check_key(members),
    }
}

fn chars_are(v: &Vec<char>, lit: &str) -> (r: bool)
    ensures
        r == (v@ == lit@),
{
    let l = chars_of(lit);
    chars_eq(v, &l)
}

fn check_object(members: &Vec<(String, JsonValue)>) -> (r: Option<StageFault>)
    ensures
        match r {
            Some(f) => object_fault(members_view(members@)) == Some(f@),
            None => object_fault(members_view(members@)) is None,
        },
{
    let ghost m = members_view(members@);
    let t = match get_field(members, "type") {
        None => {
            return Some(StageFault::MissingType);
        },
        Some(JsonValue::String(s)) => {
            let trimmed = trim_str(s.as_str());
            if trimmed.len() == 0 {
                return Some(StageFault::TypeEmpty);
            }
            lowercase_chars(&trimmed)
        },
        Some(_) => {
            return Some(StageFault::TypeNotString);
        },
    };
    assert(object_fault(m) == typed_fault(m, t@));
    let cs = check_command(members);
    let missing = match cs {
        CommandState::Blank => {
            return Some(StageFault::CommandEmpty);
        },
        CommandState::NotText => {
            return Some(StageFault::CommandNotString);
        },
        CommandState::Missing => true,
        CommandState::Given => false,
    };
    if chars_are(&t, "ai") {
        check_ai(members, missing)
    } else if chars_are(&t, "ocr") {
        check_ocr(members, missing)
    } else if (chars_are(&t, "parse") || chars_are(&t, "report")) && missing {
        Some(StageFault::CommandRequired(string_of(&t)))
    } else {
        None
    }
}

fn contains_text(seen: &Vec<String>, id: &String) -> (r: bool)
    ensures
        r == exists|k: int| 0 <= k < seen@.len() && (#[trigger] seen@[k])@ == id@,
{
    let n = seen.len();
    for k in 0..n
        invariant
            n == seen@.len(),
            forall|q: int| 0 <= q < k ==> (#[trigger] seen@[q])@ != id@,
    {
        if seen[k] == *id {
            return true;
        }
    }
    false
}

/// Checks a list of pipeline stages (the `stages` member of a pipeline).
///
/// Succeeds exactly when `stages` is a non-empty array in which no stage
/// breaks a rule; otherwise reports the first stage that does and the first
/// rule it breaks.
pub fn validate_stages(stages: &JsonValue) -> (r: Result<(), StagesError>)
    ensures
        r is Ok <==> stages_valid(stages@),
        match stages@ {
            Json::Array(a) => match r {
                Ok(_) => true,
                Err(e) => if a.len() == 0 {
                    e@ == StagesFailure::Empty
                } else {
                    exists|i: int, f: Fault| e@ == StagesFailure::Stage(i, f) && first_fault(a, i, f)
                },
            },
            _ => r matches Err(e) && e@ == StagesFailure::NotArray,
        },
{
    let items = match stages {
        JsonValue::Array(items) => items,
        _ => {
            return Err(StagesError::NotArray);
        },
    };
    let ghost a = crate::json::array_view(items@);
    proof {
        crate::json::lemma_array_view(items@);
    }
    assert(stages@ == Json::Array(a));
    if items.len() == 0 {
        return Err(StagesError::Empty);
    }
    let n = items.len();
    let mut seen: Vec<String> = Vec::new();
    let mut i: usize = 0;
    while i < n
        invariant
            n == items@.len() == a.len(),
            a == crate::json::array_view(items@),
            stages@ == Json::Array(a),
            i <= n,
            forall|j: int| 0 <= j < i ==> (#[trigger] stage_fault(a, j)) is None,
            forall|j: int| 0 <= j < i && (#[trigger] stage_id(a[j])) is Some ==> exists|k: int|
                0 <= k < seen@.len() && Some(#[trigger] seen@[k]@) == stage_id(a[j]),
            forall|k: int| 0 <= k < seen@.len() ==> exists|j: int|
                0 <= j < i && #[trigger] stage_id(a[j]) == Some(#[trigger] seen@[k]@),
        decreases n - i,
    {
        proof {
            crate::json::lemma_array_view(items@);
        }
        let members = match &items[i] {
            JsonValue::Object(members) => members,
            _ => {
                assert(stage_fault(a, i as int) == Some(Fault::NotObject));
                assert(first_fault(a, i as int, Fault::NotObject));
                return Err(StagesError::Stage { index: i, fault: StageFault::NotObject });
            },
        };
        let ghost m = members_view(members@);
        assert(a[i as int] == Json::Object(m));
        // Repeated ids.
        let mut new_id: Option<String> = None;
        match get_field(members, "id") {
            Some(JsonValue::String(id)) => {
                assert(stage_id(a[i as int]) == Some(id@));
                if contains_text(&seen, id) {
                    assert(repeats_id(a, i as int));
                    assert(first_fault(a, i as int, Fault::DuplicateId(id@)));
                    return Err(StagesError::Stage { index: i, fault: StageFault::DuplicateId(id.clone()) });
                }
                assert(!repeats_id(a, i as int));
                new_id = Some(id.clone());
            },
            _ => {
                assert(stage_id(a[i as int]) is None);
                assert(!repeats_id(a, i as int));
            },
        }
        match check_object(members) {
            Some(f) => {
                assert(first_fault(a, i as int, f@));
                return Err(StagesError::Stage { index: i, fault: f });
            },
            None => {},
        }
        let ghost old_seen = seen@;
        match new_id {
            Some(id) => {
                seen.push(id);
            },
            None => {},
        }
        assert forall|j: int| 0 <= j < i + 1 && (#[trigger] stage_id(a[j])) is Some implies exists|k: int|
            0 <= k < seen@.len() && Some(#[trigger] seen@[k]@) == stage_id(a[j]) by {
            if j < i {
                let k = choose|k: int| 0 <= k < old_seen.len() && Some(#[trigger] old_seen[k]@) == stage_id(a[j]);
                assert(seen@[k] == old_seen[k]);
            } else {
                assert(seen@[seen@.len() - 1]@ == stage_id(a[j])->0);
            }
        }
        assert forall|k: int| 0 <= k < seen@.len() implies exists|j: int|
            0 <= j < i + 1 && #[trigger] stage_id(a[j]) == Some(#[trigger] seen@[k]@) by {
            if k < old_seen.len() {
                assert(seen@[k] == old_seen[k]);
                let j = choose|j: int| 0 <= j < i && #[trigger] stage_id(a[j]) == Some(old_seen[k]@);
                assert(stage_id(a[j]) == Some(seen@[k]@));
            } else {
                assert(stage_id(a[i as int]) == Some(seen@[k]@));
            }
        }
        i = i + 1;
    }
    Ok(())
}


// ---------------------------------------------------------------------------
// Messages
// ---------------------------------------------------------------------------

/// "Stage {index}" followed by `tail`.
pub open spec fn stage_text(index: nat, tail: Seq<char>) -> Seq<char> {
    "Stage "@ + decimal(index) + tail
}

/// The message that explains a fault of the stage at `index`.
pub open spec fn fault_message(index: nat, f: Fault) -> Seq<char> {
    match f {
        Fault::NotObject => stage_text(index, " must be an object."@),
        Fault::DuplicateId(id) => "Duplicate stage id '"@ + id + "'"@,
        Fault::MissingType => stage_text(index, " must have a 'type' field."@),
        Fault::TypeNotString => stage_text(index, " 'type' must be a string."@),
        Fault::TypeEmpty => stage_text(index, " 'type' cannot be empty."@),
        Fault::CommandEmpty => stage_text(index, " 'command', if present and not null, cannot be empty."@),
        Fault::CommandNotString => stage_text(index, " 'command' must be a string or null."@),
        Fault::AiCommandRequired => stage_text(index, " (AI): 'command' is required."@),
        Fault::PromptNameNotString => stage_text(index, " (AI): 'prompt_name' must be a string or null."@),
        Fault::PromptNameEmpty => stage_text(index, " (AI): 'prompt_name', if a string, cannot be empty."@),
        Fault::OcrCommandRequired => stage_text(index, " (OCR): 'command' is required."@),
        Fault::OcrEngineUnknown => stage_text(index, " (OCR): 'ocr_engine' must be 'default', 'external', or null."@),
        Fault::OcrEngineNotString => stage_text(index, " (OCR): 'ocr_engine' must be a string or null."@),
        Fault::OcrEndpointInvalid => stage_text(index, " (OCR): 'ocr_stage_endpoint' must be a non-empty string when ocr_engine is 'external'."@),
        Fault::OcrEndpointRequired => stage_text(index, " (OCR): 'ocr_stage_endpoint' is required when ocr_engine is 'external'."@),
        Fault::OcrExternalKeyNotString => stage_text(index, " (OCR): 'ocr_stage_key' for external engine must be a string or null."@),
        Fault::OcrKeyWithoutExternal => stage_text(index, " (OCR): 'ocr_stage_key' can only be set when ocr_engine is 'external'."@),
        Fault::OcrKeyNotString => stage_text(index, " (OCR): 'ocr_stage_key' must be a string or null."@),
        Fault::CommandRequired(t) => stage_text(index, " ("@ + t + "): 'command' is required."@),
    }
}

/// The message that explains a refused stage list.
pub open spec fn failure_message(e: StagesFailure) -> Seq<char> {
    match e {
        StagesFailure::NotArray => "'stages' must be an array."@,
        StagesFailure::Empty => "Pipeline must have at least one stage."@,
        StagesFailure::Stage(index, f) => fault_message(index as nat, f),
    }
}

fn stage_text_exec(index: usize, tail: &[char]) -> (r: Vec<char>)
    ensures
        r@ == stage_text(index as nat, tail@),
{
    let mut r = chars_of("Stage ");
    let d = decimal_exec(index as u64);
    append_chars(&mut r, &d);
    append_chars(&mut r, tail);
    r
}

fn fault_text(index: usize, f: &StageFault) -> (r: Vec<char>)
    ensures
        r@ == fault_message(index as nat, f@),
{
    let tail = match f {
        StageFault::DuplicateId(id) => {
            let mut r = chars_of("Duplicate stage id '");
            let idc = chars_of(id.as_str());
            append_chars(&mut r, &idc);
            let q = chars_of("'");
            append_chars(&mut r, &q);
            return r;
        },
        StageFault::CommandRequired(t) => {
            let mut tail = chars_of(" (");
            let tc = chars_of(t.as_str());
            append_chars(&mut tail, &tc);
            let rest = chars_of("): 'command' is required.");
            append_chars(&mut tail, &rest);
            tail
        },
        StageFault::NotObject => chars_of(" must be an object."),
        StageFault::MissingType => chars_of(" must have a 'type' field."),
        StageFault::TypeNotString => chars_of(" 'type' must be a string."),
        StageFault::TypeEmpty => chars_of(" 'type' cannot be empty."),
        StageFault::CommandEmpty => chars_of(" 'command', if present and not null, cannot be empty."),
        StageFault::CommandNotString => chars_of(" 'command' must be a string or null."),
        StageFault::AiCommandRequired => chars_of(" (AI): 'command' is required."),
        StageFault::PromptNameNotString => chars_of(" (AI): 'prompt_name' must be a string or null."),
        StageFault::PromptNameEmpty => chars_of(" (AI): 'prompt_name', if a string, cannot be empty."),
        StageFault::OcrCommandRequired => chars_of(" (OCR): 'command' is required."),
        StageFault::OcrEngineUnknown => chars_of(" (OCR): 'ocr_engine' must be 'default', 'external', or null."),
        StageFault::OcrEngineNotString => chars_of(" (OCR): 'ocr_engine' must be a string or null."),
        StageFault::OcrEndpointInvalid => chars_of(" (OCR): 'ocr_stage_endpoint' must be a non-empty string when ocr_engine is 'external'."),
        StageFault::OcrEndpointRequired => chars_of(" (OCR): 'ocr_stage_endpoint' is required when ocr_engine is 'external'."),
        StageFault::OcrExternalKeyNotString => chars_of(" (OCR): 'ocr_stage_key' for external engine must be a string or null."),
        StageFault::OcrKeyWithoutExternal => chars_of(" (OCR): 'ocr_stage_key' can only be set when ocr_engine is 'external'."),
        StageFault::OcrKeyNotString => chars_of(" (OCR): 'ocr_stage_key' must be a string or null."),
    };
    stage_text_exec(index, &tail)
}

impl StagesError {
    /// The message that the API answers a refused stage list with.
    pub fn message(&self) -> (r: String)
        ensures
            r@ == failure_message(self@),
    {
        match self {
            StagesError::NotArray => "'stages' must be an array.".to_owned(),
            StagesError::Empty => "Pipeline must have at least one stage.".to_owned(),
            StagesError::Stage { index, fault } => {
                let t = fault_text(*index, fault);
                string_of(&t)
            },
        }
    }
}

} // verus!
