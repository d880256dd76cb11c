//! The report stage: fills a Markdown template with the data of a job and
//! lays the result out on a PDF page.
//!
//! Placeholders are written `{{ key }}` or `{{ a.b.c }}`. A path of up to
//! three names is looked up member by member; a longer one is handed to a
//! JSONPath query. The page layout turns Markdown events into drawing
//! operations, one page long, with a cursor that moves down in millimetres.

use vstd::prelude::*;
use crate::json::{Json, JsonValue, get, get_member, members_insert, members_view, object_insert,
    json_from_str, lemma_members_view, field, lemma_insert_sets_field, lemma_insert_keeps_other_fields};
use crate::text::{chars_of, string_of, replace_all, replace_all_exec, split_on, split_exec, views,
    append_chars};
use crate::pattern::{CompiledRegex, regex_new, regex_captures, compile_regex, captures_all};

verus! {

// ---------------------------------------------------------------------------
// The data a template is filled with
// ---------------------------------------------------------------------------

/// The data for the template: the previous stage's object with the
/// document's name and the job's id set, or, where that output is no
/// object, a new object that holds it.
pub open spec fn template_data_of(output: Json, document_name: Seq<char>, job_id: Seq<char>) -> Json {
    match output {
        Json::Object(m) => Json::Object(
            members_insert(
                members_insert(m, "document_name"@, Json::Str(document_name)),
                "job_id"@,
                Json::Str(job_id),
            ),
        ),
        _ => Json::Object(
            seq![
                ("document_name"@, Json::Str(document_name)),
                ("job_id"@, Json::Str(job_id)),
                ("previous_stage_output"@, output),
            ],
        ),
    }
}

/// Builds the data that the report template is filled with.
pub fn template_data(output: JsonValue, document_name: &str, job_id: &str) -> (r: JsonValue)
    ensures
        r@ == template_data_of(output@, document_name@, job_id@),
{
    match output {
        JsonValue::Object(members) => {
            let mut members = members;
            object_insert(&mut members, "document_name".to_owned(), json_from_str(document_name));
            object_insert(&mut members, "job_id".to_owned(), json_from_str(job_id));
            JsonValue::Object(members)
        },
        other => {
            let ghost o = other@;
            let mut members: Vec<(String, JsonValue)> = Vec::new();
            members.push(("document_name".to_owned(), json_from_str(document_name)));
            members.push(("job_id".to_owned(), json_from_str(job_id)));
            members.push(("previous_stage_output".to_owned(), other));
            proof {
                lemma_members_view(members@);
            }
            assert(members_view(members@) =~= template_data_of(o, document_name@, job_id@)->Object_0);
            JsonValue::Object(members)
        },
    }
}


/// The data a template is filled with names the document and the job:
/// its `document_name` is the document's name and its `job_id` the job's
/// id; every other member of an object output is kept as it was, and an
/// output that is no object is kept as `previous_stage_output`. The
/// report's title is the document's name.
pub proof fn lemma_template_data_names_document_and_job(output: Json, document_name: Seq<char>, job_id: Seq<char>, key: Seq<char>)
    ensures
        get(template_data_of(output, document_name, job_id), "document_name"@) == Some(Json::Str(document_name)),
        get(template_data_of(output, document_name, job_id), "job_id"@) == Some(Json::Str(job_id)),
        report_title_of(template_data_of(output, document_name, job_id)) == document_name,
        output is Object && key != "document_name"@ && key != "job_id"@
            ==> get(template_data_of(output, document_name, job_id), key) == get(output, key),
        !(output is Object) ==> get(template_data_of(output, document_name, job_id), "previous_stage_output"@) == Some(output),
{
    reveal_strlit("document_name");
    reveal_strlit("job_id");
    reveal_strlit("previous_stage_output");
    assert("document_name"@ != "job_id"@) by {
        assert("document_name"@.len() != "job_id"@.len());
    }
    match output {
        Json::Object(m) => {
            let m1 = members_insert(m, "document_name"@, Json::Str(document_name));
            lemma_insert_sets_field(m, "document_name"@, Json::Str(document_name));
            lemma_insert_keeps_other_fields(m1, "job_id"@, Json::Str(job_id), "document_name"@);
            lemma_insert_sets_field(m1, "job_id"@, Json::Str(job_id));
            if key != "document_name"@ && key != "job_id"@ {
                lemma_insert_keeps_other_fields(m, "document_name"@, Json::Str(document_name), key);
                lemma_insert_keeps_other_fields(m1, "job_id"@, Json::Str(job_id), key);
            }
        },
        _ => {
            let ms = template_data_of(output, document_name, job_id)->Object_0;
            assert("previous_stage_output"@.len() != "job_id"@.len());
            assert("previous_stage_output"@.len() != "document_name"@.len());
            let p = "previous_stage_output"@;
            assert(ms[0].0 == "document_name"@);
            assert(ms.drop_first()[0].0 == "job_id"@);
            assert(ms.drop_first().drop_first()[0].0 == p);
            assert(field(ms.drop_first(), "job_id"@) == Some(Json::Str(job_id)));
            assert(field(ms, "job_id"@) == Some(Json::Str(job_id)));
            assert(field(ms.drop_first().drop_first(), p) == Some(output));
            assert(field(ms.drop_first(), p) == Some(output));
            assert(field(ms, p) == Some(output));
        },
    }
}

// ---------------------------------------------------------------------------
// Placeholders
// ---------------------------------------------------------------------------

/// The placeholder syntax: `{{`, optional white space, a key of word
/// characters, dots and hyphens (capture group 1), optional white space,
/// `}}`.
pub open spec fn placeholder_pattern() -> Seq<char> {
    "\\{\\{\\s*([\\w.-]+)\\s*\\}\\}"@
}

/// What a JSONPath query over a JSON document gives
/// (`jsonpath_rust::JsonPath::query` on the value that
/// `serde_json::from_str` reads from the text): for each node found, in
/// order, its text where it is a JSON string; `Err` where the path does not
/// parse or the text is no JSON document.
pub uninterp spec fn jsonpath_texts(document: Seq<char>, path: Seq<char>) -> Result<Seq<Option<Seq<char>>>, ()>;

/// The text of an optional string.
pub open spec fn opt_view(o: Option<String>) -> Option<Seq<char>> {
    match o {
        Some(s) => Some(s@),
        None => None,
    }
}

/// Queries a JSON document with a JSONPath expression
/// (`serde_json::from_str`, then `jsonpath_rust::JsonPath::query`), giving
/// for each node found its text where it is a JSON string.
///
/// Claims of the outside calls: the result is `jsonpath_texts` of the
/// document and the path.
#[verifier::external_body]
fn query_texts(document: &str, path: &str) -> (r: Result<Vec<Option<String>>, ()>)
    ensures
        match r {
            Ok(nodes) => jsonpath_texts(document@, path@) == Ok::<Seq<Option<Seq<char>>>, ()>(
                nodes@.map_values(|o: Option<String>| opt_view(o)),
            ),
            Err(_) => jsonpath_texts(document@, path@) == Err::<Seq<Option<Seq<char>>>, ()>(()),
        },
{
    let value: serde_json::Value = serde_json::from_str(document).map_err(|_| ())?;
    match jsonpath_rust::JsonPath::query(&value, path) {
        Ok(nodes) => Ok(nodes.iter().map(|n| n.as_str().map(|t| t.to_string())).collect()),
        Err(_) => Err(()),
    }
}

/// The value reached from `data` by looking up the keys one after the
/// other; `None` where a key is missing or a value on the way is no object.
pub open spec fn lookup(data: Json, keys: Seq<Seq<char>>) -> Option<Json>
    decreases keys.len(),
{
    if keys.len() == 0 {
        Some(data)
    } else {
        match get(data, keys[0]) {
            Some(v) => lookup(v, keys.drop_first()),
            None => None,
        }
    }
}

/// The text of a value found, or the empty text where nothing was found or
/// it is no JSON string.
pub open spec fn text_or_empty(v: Option<Json>) -> Seq<char> {
    match v {
        Some(Json::Str(t)) => t,
        _ => seq![],
    }
}

/// The first node's text, or the empty text.
pub open spec fn first_text(nodes: Seq<Option<Seq<char>>>) -> Seq<char> {
    if nodes.len() > 0 && nodes[0] is Some {
        nodes[0]->0
    } else {
        seq![]
    }
}

/// What a placeholder with key `key` is replaced by. `document` is the
/// JSON text of `data`, which deep paths are queried in.
pub open spec fn replacement(data: Json, document: Seq<char>, key: Seq<char>) -> Seq<char> {
    if split_on(key, '.').len() <= 3 {
        text_or_empty(lookup(data, split_on(key, '.')))
    } else {
        match jsonpath_texts(document, "$."@ + key) {
            Ok(nodes) => first_text(nodes),
            Err(_) => "{{UNRESOLVED: "@ + key + "}}"@,
        }
    }
}

/// The template after the placeholders of the given matches were replaced,
/// one after the other; every occurrence of a match's text is replaced.
pub open spec fn fill(
    template: Seq<char>,
    caps: Seq<Seq<Option<Seq<char>>>>,
    data: Json,
    document: Seq<char>,
) -> Seq<char>
    decreases caps.len(),
{
    if caps.len() == 0 {
        template
    } else {
        let prev = fill(template, caps.drop_last(), data, document);
        let c = caps.last();
        if c.len() >= 2 && c[0] is Some && c[1] is Some {
            replace_all(prev, c[0]->0, replacement(data, document, c[1]->0))
        } else {
            prev
        }
    }
}

/// The filled template; where the placeholder pattern does not compile,
/// the template as it is.
pub open spec fn filled(template: Seq<char>, data: Json, document: Seq<char>) -> Seq<char> {
    match regex_new(placeholder_pattern()) {
        Ok(_) => fill(template, regex_captures(placeholder_pattern(), template), data, document),
        Err(_) => template,
    }
}

fn lookup_exec<'a>(data: &'a JsonValue, keys: &Vec<Vec<char>>) -> (r: Option<&'a JsonValue>)
    ensures
        match r {
            Some(v) => lookup(data@, views(keys@)) == Some(v@),
            None => lookup(data@, views(keys@)) is None,
        },
{
    let mut cur = data;
    let n = keys.len();
    let mut i: usize = 0;
    assert(views(keys@).subrange(0, n as int) =~= views(keys@));
    while i < n
        invariant
            n == keys@.len(),
            i <= n,
            lookup(data@, views(keys@)) == lookup(cur@, views(keys@).subrange(i as int, n as int)),
        decreases n - i,
    {
        let ghost rest = views(keys@).subrange(i as int, n as int);
        assert(rest.drop_first() =~= views(keys@).subrange(i + 1, n as int));
        assert(rest[0] == keys@[i as int]@);
        let k = string_of(&keys[i]);
        match get_member(cur, k.as_str()) {
            Some(v) => {
                cur = v;
            },
            None => {
                return None;
            },
        }
        i = i + 1;
    }
    assert(views(keys@).subrange(n as int, n as int).len() == 0);
    Some(cur)
}

fn replacement_exec(data: &JsonValue, document: &str, key: &[char]) -> (r: Vec<char>)
    ensures
        r@ == replacement(data@, document@, key@),
{
    let parts = split_exec(key, '.');
    if parts.len() <= 3 {
        match lookup_exec(data, &parts) {
            Some(v) => match v.as_text() {
                Some(t) => chars_of(t.as_str()),
                None => Vec::new(),
            },
            None => Vec::new(),
        }
    } else {
        let mut path = chars_of("$.");
        append_chars(&mut path, key);
        let path_text = string_of(&path);
        match query_texts(document, path_text.as_str()) {
            Ok(nodes) => {
                if nodes.len() > 0 {
                    match &nodes[0] {
                        Some(t) => chars_of(t.as_str()),
                        None => Vec::new(),
                    }
                } else {
                    Vec::new()
                }
            },
            Err(_) => {
                let mut out = chars_of("{{UNRESOLVED: ");
                append_chars(&mut out, key);
                let close = chars_of("}}");
                append_chars(&mut out, &close);
                out
            },
        }
    }
}

/// Replaces the placeholders of a template with values from the data.
///
/// `document` is the JSON text of `data`; paths of more than three names
/// are queried in it with JSONPath.
pub fn replace_placeholders(template: &str, data: &JsonValue, document: &str) -> (r: String)
    ensures
        r@ == filled(template@, data@, document@),
{
    let re = match compile_regex("\\{\\{\\s*([\\w.-]+)\\s*\\}\\}") {
        Ok(re) => re,
        Err(_) => {
            return template.to_owned();
        },
    };
    let caps = captures_all(&re, template);
    let ghost all = regex_captures(re@, template@);
    let mut result = chars_of(template);
    let n = caps.len();
    for i in 0..n
        invariant
            n == caps@.len() == all.len(),
            all == regex_captures(re@, template@),
            re@ == placeholder_pattern(),
            forall|q: int| 0 <= q < caps@.len() ==> {
                let groups = #[trigger] caps@[q];
                &&& groups@.len() == all[q].len()
                &&& forall|g: int| 0 <= g < groups@.len() ==> match #[trigger] groups@[g] {
                    Some(s) => all[q][g] == Some(s@),
                    None => all[q][g] is None,
                }
            },
            result@ == fill(template@, all.take(i as int), data@, document@),
    {
        let groups = &caps[i];
        let ghost c = all[i as int];
        assert(all.take(i + 1).drop_last() =~= all.take(i as int));
        assert(all.take(i + 1).last() == c);
        if groups.len() >= 2 {
            match (&groups[0], &groups[1]) {
                (Some(full), Some(key)) => {
                    let full_chars = chars_of(full.as_str());
                    let key_chars = chars_of(key.as_str());
                    let value = replacement_exec(data, document, &key_chars);
                    result = replace_all_exec(&result, &full_chars, &value);
                },
                _ => {},
            }
        }
    }
    assert(all.take(n as int) =~= all);
    string_of(&result)
}

/// The title of the report: the data's `document_name` where it is a JSON
/// string, else "Report".
pub open spec fn report_title_of(data: Json) -> Seq<char> {
    match get(data, "document_name"@) {
        Some(Json::Str(t)) => t,
        _ => "Report"@,
    }
}

/// The title that the report's PDF document gets.
pub fn report_title(data: &JsonValue) -> (r: String)
    ensures
        r@ == report_title_of(data@),
{
    match get_member(data, "document_name") {
        Some(v) => match v.as_text() {
            Some(t) => t.clone(),
            None => "Report".to_owned(),
        },
        None => "Report".to_owned(),
    }
}


// ---------------------------------------------------------------------------
// Page layout
// ---------------------------------------------------------------------------

/// A Markdown event, as a Markdown parser reports it; `Other` stands for
/// the events that the layout ignores.
pub enum ReportEvent {
    /// Start of a heading of level 1 to 6.
    StartHeading(u8),
    EndHeading,
    StartParagraph,
    EndParagraph,
    Text(String),
    Code(String),
    HardBreak,
    StartList,
    EndList,
    StartItem,
    EndItem,
    StartTable,
    EndTable,
    StartTableRow,
    EndTableRow,
    StartTableCell,
    EndTableCell,
    StartBlockQuote,
    EndBlockQuote,
    Rule,
    Other,
}

/// A drawing operation on the page's text layer; positions are in
/// millimetres from the lower left corner, font sizes in points.
pub enum DrawOp {
    BeginText,
    EndText,
    SetFont(u32),
    SetCursor(u32, u32),
    Write(String),
}

/// The mathematical form of a drawing operation.
pub enum Draw {
    BeginText,
    EndText,
    SetFont(nat),
    SetCursor(int, int),
    Write(Seq<char>),
}

/// The view of a drawing operation.
pub open spec fn draw_view(d: DrawOp) -> Draw {
    match d {
        DrawOp::BeginText => Draw::BeginText,
        DrawOp::EndText => Draw::EndText,
        DrawOp::SetFont(p) => Draw::SetFont(p as nat),
        DrawOp::SetCursor(x, y) => Draw::SetCursor(x as int, y as int),
        DrawOp::Write(t) => Draw::Write(t@),
    }
}

/// The views of a sequence of drawing operations.
pub open spec fn draws_view(s: Seq<DrawOp>) -> Seq<Draw> {
    s.map_values(|d: DrawOp| draw_view(d))
}

/// Where the cursor starts, in millimetres from the bottom of the page.
pub open spec fn top() -> int {
    280
}

/// Below this height the page is full and the layout stops.
pub open spec fn bottom() -> int {
    20
}

/// The left margin.
pub open spec fn margin() -> int {
    15
}

/// The height of an ordinary line.
pub open spec fn line_height() -> int {
    6
}

/// The font size of a heading level.
pub open spec fn heading_font(level: int) -> nat {
    if level == 1 {
        18
    } else if level == 2 {
        15
    } else if level == 3 {
        13
    } else {
        11
    }
}

/// The line height of a heading level.
pub open spec fn heading_height(level: int) -> int {
    if level == 1 {
        10
    } else if level == 2 {
        8
    } else if level == 3 {
        7
    } else {
        6
    }
}

/// The lines of a text after the first, from line `i` on, at height `y`:
/// each moves the cursor one line down; the page ending stops them.
pub open spec fn later_lines(parts: Seq<Seq<char>>, i: int, y: int) -> (Seq<Draw>, int)
    decreases parts.len() - i,
{
    if i >= parts.len() {
        (seq![], y)
    } else if y - line_height() < bottom() {
        (seq![], y - line_height())
    } else {
        let rest = later_lines(parts, i + 1, y - line_height());
        (seq![Draw::SetCursor(margin(), y - line_height()), Draw::Write(parts[i])] + rest.0, rest.1)
    }
}

/// The drawing of one event at height `y`, and the height after it.
pub open spec fn event_draws(e: ReportEvent, y: int) -> (Seq<Draw>, int) {
    match e {
        ReportEvent::StartHeading(level) => (
            seq![Draw::BeginText, Draw::SetFont(heading_font(level as int)), Draw::SetCursor(margin(), y)],
            y - heading_height(level as int),
        ),
        ReportEvent::EndHeading => (seq![Draw::EndText], y),
        ReportEvent::StartParagraph => (
            seq![Draw::BeginText, Draw::SetFont(11), Draw::SetCursor(margin(), y)],
            y,
        ),
        ReportEvent::EndParagraph => (seq![Draw::EndText], y - line_height()),
        ReportEvent::Text(t) => {
            let parts = split_on(t@, '\n');
            let rest = later_lines(parts, 1, y);
            (seq![Draw::Write(parts[0])] + rest.0, rest.1)
        },
        ReportEvent::Code(c) => (
            seq![
                Draw::BeginText,
                Draw::SetFont(10),
                Draw::SetCursor(margin(), y),
                Draw::Write("`"@ + c@ + "`"@),
                Draw::EndText,
            ],
            y - line_height(),
        ),
        ReportEvent::HardBreak => (seq![Draw::SetCursor(margin(), y - line_height())], y - line_height()),
        ReportEvent::StartList => (
            seq![Draw::BeginText, Draw::SetFont(11), Draw::SetCursor(margin(), y)],
            y,
        ),
        ReportEvent::EndList => (seq![Draw::EndText], y - line_height()),
        ReportEvent::StartItem => (seq![Draw::Write("\u{2022} "@)], y),
        ReportEvent::EndItem => (seq![Draw::SetCursor(margin(), y - line_height())], y - line_height()),
        ReportEvent::StartTable => (
            seq![Draw::BeginText, Draw::SetFont(11), Draw::SetCursor(margin(), y)],
            y,
        ),
        ReportEvent::EndTable => (seq![Draw::EndText], y - line_height()),
        ReportEvent::StartTableRow => (seq![Draw::Write("| "@)], y),
        ReportEvent::EndTableRow => (
            seq![Draw::Write("|"@), Draw::SetCursor(margin(), y - line_height())],
            y - line_height(),
        ),
        ReportEvent::StartTableCell => (seq![], y),
        ReportEvent::EndTableCell => (seq![Draw::Write(" | "@)], y),
        ReportEvent::StartBlockQuote => (
            seq![
                Draw::BeginText,
                Draw::SetFont(11),
                Draw::SetCursor(margin() + 5, y),
                Draw::Write("> "@),
            ],
            y,
        ),
        ReportEvent::EndBlockQuote => (seq![Draw::EndText], y - line_height()),
        ReportEvent::Rule => (
            seq![
                Draw::BeginText,
                Draw::SetCursor(margin(), y),
                Draw::Write("-----"@),
                Draw::EndText,
            ],
            y - line_height(),
        ),
        ReportEvent::Other => (seq![], y),
    }
}

proof fn lemma_later_lines_go_down(parts: Seq<Seq<char>>, i: int, y: int)
    ensures
        later_lines(parts, i, y).1 <= y,
        i < parts.len() ==> later_lines(parts, i, y).1 < y,
    decreases parts.len() - i,
{
    if i < parts.len() && y - line_height() >= bottom() {
        lemma_later_lines_go_down(parts, i + 1, y - line_height());
    }
}

/// The layout only moves down the page: after any event the cursor is at
/// the height it was or lower; the events that end a line (the end of a
/// table row, of a list item, a hard break) move it exactly one ordinary
/// line down and set the cursor at the margin there, and the ends of a
/// paragraph, list, table or quote, a code span and a rule leave the next
/// line one ordinary line lower; a heading takes its own height.
pub proof fn lemma_layout_moves_down(e: ReportEvent, y: int)
    ensures
        event_draws(e, y).1 <= y,
        (e is EndTableRow || e is EndItem || e is HardBreak) ==> {
            &&& event_draws(e, y).1 == y - line_height()
            &&& event_draws(e, y).0.len() > 0
            &&& event_draws(e, y).0.last() == Draw::SetCursor(margin(), y - line_height())
        },
        (e is EndParagraph || e is EndList || e is EndTable || e is EndBlockQuote || e is Code || e is Rule)
            ==> event_draws(e, y).1 == y - line_height(),
        e matches ReportEvent::StartHeading(level) ==> event_draws(e, y).1 == y - heading_height(level as int)
            && event_draws(e, y).1 < y,
{
    match e {
        ReportEvent::Text(t) => {
            lemma_later_lines_go_down(split_on(t@, '\n'), 1, y);
        },
        _ => {},
    }
}

/// The drawing of the events from `i` on, starting at height `y`; once the
/// cursor is below the bottom margin, nothing more is drawn.
pub open spec fn layout_from(evs: Seq<ReportEvent>, i: int, y: int) -> Seq<Draw>
    decreases evs.len() - i,
{
    if i >= evs.len() || y < bottom() {
        seq![]
    } else {
        event_draws(evs[i], y).0 + layout_from(evs, i + 1, event_draws(evs[i], y).1)
    }
}

/// The drawing of a whole report.
pub open spec fn layout(evs: Seq<ReportEvent>) -> Seq<Draw> {
    layout_from(evs, 0, top())
}

fn push_draw(out: &mut Vec<DrawOp>, d: DrawOp)
    ensures
        draws_view(final(out)@) == draws_view(old(out)@).push(draw_view(d)),
{
    out.push(d);
    assert(draws_view(out@) =~= draws_view(old(out)@).push(draw_view(d)));
}

fn write_literal(out: &mut Vec<DrawOp>, t: &str)
    ensures
        draws_view(final(out)@) == draws_view(old(out)@).push(Draw::Write(t@)),
{
    push_draw(out, DrawOp::Write(t.to_owned()));
}

fn open_text(out: &mut Vec<DrawOp>, font: u32, x: u32, y: u32)
    ensures
        draws_view(final(out)@) == draws_view(old(out)@) + seq![
            Draw::BeginText,
            Draw::SetFont(font as nat),
            Draw::SetCursor(x as int, y as int),
        ],
{
    let ghost o = draws_view(out@);
    push_draw(out, DrawOp::BeginText);
    push_draw(out, DrawOp::SetFont(font));
    push_draw(out, DrawOp::SetCursor(x, y));
    assert(draws_view(out@) =~= o + seq![
        Draw::BeginText,
        Draw::SetFont(font as nat),
        Draw::SetCursor(x as int, y as int),
    ]);
}

fn append_draws(out: &mut Vec<DrawOp>, more: Vec<DrawOp>)
    ensures
        draws_view(final(out)@) == draws_view(old(out)@) + draws_view(more@),
{
    let ghost m = more@;
    let mut more = more;
    out.append(&mut more);
    assert(draws_view(out@) =~= draws_view(old(out)@) + draws_view(m));
}

fn draw_text(t: &String, y: u32) -> (r: (Vec<DrawOp>, u32))
    requires
        y >= bottom(),
    ensures
        draws_view(r.0@) == event_draws(ReportEvent::Text(*t), y as int).0,
        r.1 == event_draws(ReportEvent::Text(*t), y as int).1,
        r.1 >= bottom() - line_height(),
        r.1 <= y,
{
    let tc = chars_of(t.as_str());
    let parts = split_exec(&tc, '\n');
    let ghost ps = split_on(t@, '\n');
    let ghost y0 = y;
    let mut ops: Vec<DrawOp> = Vec::new();
    assert(views(parts@)[0] == parts@[0]@);
    push_draw(&mut ops, DrawOp::Write(string_of(&parts[0])));
    let n = parts.len();
    let mut i: usize = 1;
    let mut cur = y;
    while i < n
        invariant
            n == parts@.len() == ps.len(),
            views(parts@) == ps,
            1 <= i <= n,
            cur >= bottom(),
            cur <= y,
            y0 == y,
            event_draws(ReportEvent::Text(*t), y as int).0 == draws_view(ops@) + later_lines(ps, i as int, cur as int).0,
            event_draws(ReportEvent::Text(*t), y as int).1 == later_lines(ps, i as int, cur as int).1,
        decreases n - i,
    {
        if cur < 26 {
            assert(draws_view(ops@) + seq![] =~= draws_view(ops@));
            return (ops, cur - 6);
        }
        cur = cur - 6;
        let ghost before = draws_view(ops@);
        push_draw(&mut ops, DrawOp::SetCursor(15, cur));
        assert(views(parts@)[i as int] == parts@[i as int]@);
        push_draw(&mut ops, DrawOp::Write(string_of(&parts[i])));
        assert(before + later_lines(ps, i as int, cur + 6).0 =~= draws_view(ops@) + later_lines(ps, i + 1, cur as int).0);
        i = i + 1;
    }
    assert(draws_view(ops@) + seq![] =~= draws_view(ops@));
    (ops, cur)
}


fn heading_font_exec(level: u8) -> (r: u32)
    ensures
        r == heading_font(level as int),
{
    if level == 1 {
        18
    } else if level == 2 {
        15
    } else if level == 3 {
        13
    } else {
        11
    }
}

fn heading_height_exec(level: u8) -> (r: u32)
    ensures
        r == heading_height(level as int),
{
    if level == 1 {
        10
    } else if level == 2 {
        8
    } else if level == 3 {
        7
    } else {
        6
    }
}

fn draw_event(e: &ReportEvent, y: u32) -> (r: (Vec<DrawOp>, u32))
    requires
        y >= bottom(),
    ensures
        draws_view(r.0@) == event_draws(*e, y as int).0,
        r.1 == event_draws(*e, y as int).1,
        r.1 >= bottom() - heading_height(1),
        r.1 <= y,
{
    let mut ops: Vec<DrawOp> = Vec::new();
    let ghost empty = draws_view(ops@);
    assert(empty =~= seq![]);
    let y2 = match e {
        ReportEvent::StartHeading(level) => {
            open_text(&mut ops, heading_font_exec(*level), 15, y);
            y - heading_height_exec(*level)
        },
        ReportEvent::EndHeading => {
            push_draw(&mut ops, DrawOp::EndText);
            y
        },
        ReportEvent::StartParagraph | ReportEvent::StartList | ReportEvent::StartTable => {
            open_text(&mut ops, 11, 15, y);
            y
        },
        ReportEvent::EndParagraph | ReportEvent::EndList | ReportEvent::EndTable | ReportEvent::EndBlockQuote => {
            push_draw(&mut ops, DrawOp::EndText);
            y - 6
        },
        ReportEvent::Text(t) => {
            let (more, y2) = draw_text(t, y);
            append_draws(&mut ops, more);
            y2
        },
        ReportEvent::Code(c) => {
            open_text(&mut ops, 10, 15, y);
            let mut w = chars_of("`");
            let cc = chars_of(c.as_str());
            append_chars(&mut w, &cc);
            let close = chars_of("`");
            append_chars(&mut w, &close);
            push_draw(&mut ops, DrawOp::Write(string_of(&w)));
            push_draw(&mut ops, DrawOp::EndText);
            y - 6
        },
        ReportEvent::HardBreak | ReportEvent::EndItem => {
            push_draw(&mut ops, DrawOp::SetCursor(15, y - 6));
            y - 6
        },
        ReportEvent::StartItem => {
            write_literal(&mut ops, "\u{2022} ");
            y
        },
        ReportEvent::StartTableRow => {
            write_literal(&mut ops, "| ");
            y
        },
        ReportEvent::EndTableRow => {
            write_literal(&mut ops, "|");
            push_draw(&mut ops, DrawOp::SetCursor(15, y - 6));
            y - 6
        },
        ReportEvent::EndTableCell => {
            write_literal(&mut ops, " | ");
            y
        },
        ReportEvent::StartBlockQuote => {
            open_text(&mut ops, 11, 20, y);
            write_literal(&mut ops, "> ");
            y
        },
        ReportEvent::Rule => {
            push_draw(&mut ops, DrawOp::BeginText);
            push_draw(&mut ops, DrawOp::SetCursor(15, y));
            write_literal(&mut ops, "-----");
            push_draw(&mut ops, DrawOp::EndText);
            y - 6
        },
        ReportEvent::StartTableCell | ReportEvent::Other => y,
    };
    assert(draws_view(ops@) =~= event_draws(*e, y as int).0);
    (ops, y2)
}

/// Lays a report out on one page: the drawing operations for the Markdown
/// events, until the page is full.
pub fn layout_report(events: &Vec<ReportEvent>) -> (r: Vec<DrawOp>)
    ensures
        draws_view(r@) == layout(events@),
{
    let mut out: Vec<DrawOp> = Vec::new();
    let mut y: u32 = 280;
    let n = events.len();
    let mut i: usize = 0;
    assert(draws_view(out@) =~= seq![]);
    while i < n && y >= 20
        invariant
            n == events@.len(),
            i <= n,
            y >= bottom() - heading_height(1),
            y <= top(),
            layout(events@) == draws_view(out@) + layout_from(events@, i as int, y as int),
        decreases n - i,
    {
        let (ops, y2) = draw_event(&events[i], y);
        assert(draws_view(out@) + layout_from(events@, i as int, y as int) =~= (draws_view(out@)
            + draws_view(ops@)) + layout_from(events@, i + 1, y2 as int));
        append_draws(&mut out, ops);
        y = y2;
        i = i + 1;
    }
    assert(draws_view(out@) + seq![] =~= draws_view(out@));
    out
}

// ---------------------------------------------------------------------------
// Markdown
// ---------------------------------------------------------------------------

#[verifier::external_type_specification]
#[verifier::external_body]
pub struct ExMarkdownEvent<'a>(pulldown_cmark::Event<'a>);

#[verifier::external_type_specification]
#[verifier::external_body]
pub struct ExMarkdownTag<'a>(pulldown_cmark::Tag<'a>);

/// The events that `pulldown_cmark::Parser` reports for a Markdown text,
/// with tables and strikethrough switched on, each taken as a
/// `ReportEvent`.
pub uninterp spec fn markdown_event_seq(markdown: Seq<char>) -> Seq<ReportEvent>;

/// The event that opens a tag: the heading's level, or the tag's kind.
#[verifier::external_body]
fn start_event(tag: pulldown_cmark::Tag) -> ReportEvent {
    match tag {
        pulldown_cmark::Tag::Heading(level, _, _) => ReportEvent::StartHeading(level as u8),
        pulldown_cmark::Tag::Paragraph => ReportEvent::StartParagraph,
        pulldown_cmark::Tag::List(_) => ReportEvent::StartList,
        pulldown_cmark::Tag::Item => ReportEvent::StartItem,
        pulldown_cmark::Tag::Table(_) => ReportEvent::StartTable,
        pulldown_cmark::Tag::TableRow => ReportEvent::StartTableRow,
        pulldown_cmark::Tag::TableCell => ReportEvent::StartTableCell,
        pulldown_cmark::Tag::BlockQuote => ReportEvent::StartBlockQuote,
        _ => ReportEvent::Other,
    }
}

/// The event that closes a tag.
#[verifier::external_body]
fn end_event(tag: pulldown_cmark::Tag) -> ReportEvent {
    match tag {
        pulldown_cmark::Tag::Heading(_, _, _) => ReportEvent::EndHeading,
        pulldown_cmark::Tag::Paragraph => ReportEvent::EndParagraph,
        pulldown_cmark::Tag::List(_) => ReportEvent::EndList,
        pulldown_cmark::Tag::Item => ReportEvent::EndItem,
        pulldown_cmark::Tag::Table(_) => ReportEvent::EndTable,
        pulldown_cmark::Tag::TableRow => ReportEvent::EndTableRow,
        pulldown_cmark::Tag::TableCell => ReportEvent::EndTableCell,
        pulldown_cmark::Tag::BlockQuote => ReportEvent::EndBlockQuote,
        _ => ReportEvent::Other,
    }
}

/// A parser event as a `ReportEvent`: the texts are copied.
#[verifier::external_body]
fn report_event(event: pulldown_cmark::Event) -> ReportEvent {
    match event {
        pulldown_cmark::Event::Start(tag) => start_event(tag),
        pulldown_cmark::Event::End(tag) => end_event(tag),
        pulldown_cmark::Event::Text(t) => ReportEvent::Text(t.to_string()),
        pulldown_cmark::Event::Code(c) => ReportEvent::Code(c.to_string()),
        pulldown_cmark::Event::HardBreak => ReportEvent::HardBreak,
        pulldown_cmark::Event::Rule => ReportEvent::Rule,
        _ => ReportEvent::Other,
    }
}

/// Parses Markdown (`pulldown_cmark::Parser::new_ext` with tables and
/// strikethrough).
///
/// Claim of the outside call: the events are `markdown_event_seq` of the
/// text; the parser accepts every text.
#[verifier::external_body]
fn markdown_events(markdown: &str) -> (r: Vec<ReportEvent>)
    ensures
        r@ == markdown_event_seq(markdown@),
{
    let mut options = pulldown_cmark::Options::empty();
    options.insert(pulldown_cmark::Options::ENABLE_TABLES);
    options.insert(pulldown_cmark::Options::ENABLE_STRIKETHROUGH);
    pulldown_cmark::Parser::new_ext(markdown, options).map(report_event).collect()
}

/// The page of a report filled from a Markdown template: the placeholders
/// are replaced, the text is parsed as Markdown, and its events are laid
/// out. `document` is the JSON text of `data`.
pub fn report_layout(template: &str, data: &JsonValue, document: &str) -> (r: Vec<DrawOp>)
    ensures
        draws_view(r@) == layout(markdown_event_seq(filled(template@, data@, document@))),
{
    let markdown = replace_placeholders(template, data, document);
    let events = markdown_events(&markdown);
    layout_report(&events)
}

} // verus!
