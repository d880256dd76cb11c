//! The parse stage: extracts structured data from the text that OCR gave.
//!
//! A stage configuration chooses a strategy: count keywords, collect the
//! matches of regular expressions, read a simple table below a header line,
//! or pass the trimmed lines through. Without a configuration the lines are
//! passed through.

use vstd::prelude::*;
use crate::json::{Json, JsonNumber, JsonValue, members_insert, members_view, object_insert,
    json_from_chars, json_from_str, json_text_array, array_view, lemma_array_view,
    lemma_members_view, field, get, lemma_insert_sets_field, lemma_insert_keeps_other_fields};
use crate::text::{lowercase, count_matches, clamp_usize, contains, trim, lines, views,
    chars_of, string_of, lowercase_chars, count_matches_exec, contains_exec, trim_chars,
    lines_exec, append_chars};
use crate::pattern::{CompiledRegex, regex_new, regex_captures, regex_split, compile_regex,
    captures_all, split_all};

verus! {

/// One field that the regex strategy extracts.
pub struct RegexPattern {
    pub name: String,
    pub regex: String,
    pub capture_group_index: usize,
}

/// The capture group that a regex pattern takes when it names none.
pub fn default_capture_group_index() -> (r: usize)
    ensures
        r == 1,
{
    1
}

/// The strategy of a parse stage, with its parameters.
pub enum ParseConfig {
    KeywordExtraction { keywords: Vec<String>, case_sensitive: bool },
    RegexExtraction { patterns: Vec<RegexPattern> },
    SimpleTableExtraction {
        header_keywords: Vec<String>,
        stop_keywords: Option<Vec<String>>,
        delimiter_regex: Option<String>,
        numeric_summary: bool,
    },
    Passthrough,
}

/// Why the parse stage failed.
pub enum ParseError {
    /// Neither the configured nor the default delimiter compiled; carries the
    /// compile error of the default.
    DelimiterFallback(String),
    /// The expression of the named regex pattern did not compile; carries
    /// the pattern's name and the compile error.
    RegexCompile { name: String, message: String },
}

/// The texts of a sequence of strings.
pub open spec fn texts(v: Seq<String>) -> Seq<Seq<char>> {
    v.map_values(|s: String| s@)
}

/// A JSON array of JSON strings.
pub open spec fn str_array(s: Seq<Seq<char>>) -> Json {
    Json::Array(s.map_values(|t: Seq<char>| Json::Str(t)))
}

// ---------------------------------------------------------------------------
// Keyword extraction
// ---------------------------------------------------------------------------

/// How often a keyword occurs in the text; without case sensitivity both
/// are lower-cased first.
pub open spec fn keyword_count(text: Seq<char>, kw: Seq<char>, case_sensitive: bool) -> nat {
    if case_sensitive {
        count_matches(text, kw)
    } else {
        count_matches(lowercase(text), lowercase(kw))
    }
}

/// The counts of the keywords, each under its keyword as written; a
/// keyword that repeats keeps one member.
pub open spec fn keyword_members(kws: Seq<Seq<char>>, text: Seq<char>, case_sensitive: bool) -> Seq<(Seq<char>, Json)>
    decreases kws.len(),
{
    if kws.len() == 0 {
        seq![]
    } else {
        members_insert(
            keyword_members(kws.drop_last(), text, case_sensitive),
            kws.last(),
            Json::Number(JsonNumber::PosInt(clamp_usize(keyword_count(text, kws.last(), case_sensitive)) as u64)),
        )
    }
}

fn keyword_extraction(text: &[char], keywords: &Vec<String>, case_sensitive: bool) -> (r: JsonValue)
    ensures
        r@ == Json::Object(keyword_members(texts(keywords@), text@, case_sensitive)),
{
    let content = if case_sensitive {
        copy_all(text)
    } else {
        lowercase_chars(text)
    };
    let mut members: Vec<(String, JsonValue)> = Vec::new();
    let n = keywords.len();
    for i in 0..n
        invariant
            n == keywords@.len(),
            content@ == (if case_sensitive { text@ } else { lowercase(text@) }),
            members_view(members@) == keyword_members(texts(keywords@.take(i as int)), text@, case_sensitive),
    {
        let kw = chars_of(keywords[i].as_str());
        let needle = if case_sensitive {
            kw
        } else {
            lowercase_chars(&kw)
        };
        let count = count_matches_exec(&content, &needle);
        assert(texts(keywords@.take(i + 1)).drop_last() =~= texts(keywords@.take(i as int)));
        assert(texts(keywords@.take(i + 1)).last() == keywords@[i as int]@);
        object_insert(&mut members, keywords[i].clone(), JsonValue::Number(JsonNumber::PosInt(count as u64)));
    }
    assert(keywords@.take(n as int) =~= keywords@);
    JsonValue::Object(members)
}

fn copy_all(v: &[char]) -> (r: Vec<char>)
    ensures
        r@ == v@,
{
    let mut r: Vec<char> = Vec::new();
    append_chars(&mut r, v);
    r
}

// ---------------------------------------------------------------------------
// Regex extraction
// ---------------------------------------------------------------------------

/// What one match contributes: the chosen group; where the match lacks it
/// and the chosen group is not group 0, the whole match.
pub open spec fn pick_group(g: Seq<Option<Seq<char>>>, idx: int) -> Seq<Seq<char>> {
    if 0 <= idx < g.len() && g[idx] is Some {
        seq![g[idx]->0]
    } else if idx != 0 && g.len() > 0 && g[0] is Some {
        seq![g[0]->0]
    } else {
        seq![]
    }
}

/// What all matches contribute, in order.
pub open spec fn extracted(caps: Seq<Seq<Option<Seq<char>>>>, idx: int) -> Seq<Seq<char>>
    decreases caps.len(),
{
    if caps.len() == 0 {
        seq![]
    } else {
        extracted(caps.drop_last(), idx) + pick_group(caps.last(), idx)
    }
}

/// The members after one pattern: its matches where there are any (a
/// pattern that does not compile is never reached here: it fails the stage).
pub open spec fn pattern_members(
    m: Seq<(Seq<char>, Json)>,
    name: Seq<char>,
    regex: Seq<char>,
    idx: int,
    text: Seq<char>,
) -> Seq<(Seq<char>, Json)> {
    match regex_new(regex) {
        Ok(_) => {
            let found = extracted(regex_captures(regex, text), idx);
            if found.len() > 0 {
                members_insert(m, name, str_array(found))
            } else {
                m
            }
        },
        Err(_) => m,
    }
}

/// The first pattern, in order, whose expression does not compile: its
/// name and the compile error.
pub open spec fn first_bad_pattern(pats: Seq<RegexPattern>) -> Option<(Seq<char>, Seq<char>)>
    decreases pats.len(),
{
    if pats.len() == 0 {
        None
    } else {
        match regex_new(pats[0].regex@) {
            Err(msg) => Some((pats[0].name@, msg)),
            Ok(_) => first_bad_pattern(pats.drop_first()),
        }
    }
}

/// The members after all patterns, in order.
pub open spec fn regex_members(pats: Seq<RegexPattern>, text: Seq<char>) -> Seq<(Seq<char>, Json)>
    decreases pats.len(),
{
    if pats.len() == 0 {
        seq![]
    } else {
        pattern_members(
            regex_members(pats.drop_last(), text),
            pats.last().name@,
            pats.last().regex@,
            pats.last().capture_group_index as int,
            text,
        )
    }
}

fn strings_to_json(v: &Vec<String>) -> (r: JsonValue)
    ensures
        r@ == str_array(texts(v@)),
{
    let mut out: Vec<JsonValue> = Vec::new();
    let n = v.len();
    for i in 0..n
        invariant
            n == v@.len(),
            out@.len() == i,
            forall|k: int| 0 <= k < i ==> crate::json::json_view(#[trigger] out@[k]) == Json::Str(v@[k]@),
    {
        out.push(json_from_str(v[i].as_str()));
    }
    proof {
        lemma_array_view(out@);
    }
    assert(array_view(out@) =~= texts(v@).map_values(|t: Seq<char>| Json::Str(t)));
    JsonValue::Array(out)
}

fn pattern_matches(re: &CompiledRegex, text: &str, idx: usize) -> (r: Vec<String>)
    ensures
        texts(r@) == extracted(regex_captures(re@, text@), idx as int),
{
    let caps = captures_all(re, text);
    let ghost all = regex_captures(re@, text@);
    let mut out: Vec<String> = Vec::new();
    let n = caps.len();
    for i in 0..n
        invariant
            n == caps@.len() == all.len(),
            all == regex_captures(re@, text@),
            forall|q: int| 0 <= q < caps@.len() ==> {
                let groups = #[trigger] caps@[q];
                &&& groups@.len() == all[q].len()
                &&& groups@.len() >= 1
                &&& groups@[0] is Some
                &&& forall|g: int| 0 <= g < groups@.len() ==> match #[trigger] groups@[g] {
                    Some(s) => all[q][g] == Some(s@),
                    None => all[q][g] is None,
                }
            },
            texts(out@) == extracted(all.take(i as int), idx as int),
    {
        let groups = &caps[i];
        let ghost g = all[i as int];
        assert(all.take(i + 1).drop_last() =~= all.take(i as int));
        assert(all.take(i + 1).last() == g);
        let ghost before = out@;
        if idx < groups.len() && groups[idx].is_some() {
            match &groups[idx] {
                Some(s) => {
                    out.push(s.clone());
                },
                None => {},
            }
        } else if idx != 0 {
            match &groups[0] {
                Some(s) => {
                    out.push(s.clone());
                },
                None => {},
            }
        }
        assert(texts(out@) =~= texts(before) + pick_group(g, idx as int));
    }
    assert(all.take(n as int) =~= all);
    out
}

fn regex_extraction(text: &str, patterns: &Vec<RegexPattern>) -> (r: Result<JsonValue, (String, String)>)
    ensures
        match r {
            Ok(v) => first_bad_pattern(patterns@) is None && v@ == Json::Object(regex_members(patterns@, text@)),
            Err((name, msg)) => first_bad_pattern(patterns@) == Some((name@, msg@)),
        },
{
    let mut members: Vec<(String, JsonValue)> = Vec::new();
    let n = patterns.len();
    assert(patterns@.skip(0) =~= patterns@);
    for i in 0..n
        invariant
            n == patterns@.len(),
            members_view(members@) == regex_members(patterns@.take(i as int), text@),
            first_bad_pattern(patterns@) == first_bad_pattern(patterns@.skip(i as int)),
    {
        let p = &patterns[i];
        assert(patterns@.take(i + 1).drop_last() =~= patterns@.take(i as int));
        assert(patterns@.take(i + 1).last() == patterns@[i as int]);
        assert(patterns@.skip(i as int).drop_first() =~= patterns@.skip(i + 1));
        assert(patterns@.skip(i as int)[0] == patterns@[i as int]);
        match compile_regex(p.regex.as_str()) {
            Ok(re) => {
                let found = pattern_matches(&re, text, p.capture_group_index);
                if found.len() > 0 {
                    let arr = strings_to_json(&found);
                    object_insert(&mut members, p.name.clone(), arr);
                }
            },
            Err(msg) => {
                return Err((p.name.clone(), msg));
            },
        }
    }
    assert(patterns@.take(n as int) =~= patterns@);
    assert(patterns@.skip(n as int).len() == 0);
    Ok(JsonValue::Object(members))
}


// ---------------------------------------------------------------------------
// Simple table extraction
// ---------------------------------------------------------------------------

/// The delimiter pattern that splits table cells when none is configured:
/// two or more white-space characters, a tab, or a bar with optional
/// white space around it.
pub open spec fn default_delimiter() -> Seq<char> {
    "\\s{2,}|\\t|\\s*\\|\\s*"@
}

/// The text of an optional string.
pub open spec fn opt_text(o: Option<String>) -> Option<Seq<char>> {
    match o {
        Some(s) => Some(s@),
        None => None,
    }
}

/// The texts of an optional list of strings.
pub open spec fn opt_texts(o: Option<Vec<String>>) -> Option<Seq<Seq<char>>> {
    match o {
        Some(v) => Some(texts(v@)),
        None => None,
    }
}

/// Each text lower-cased.
pub open spec fn lowered(s: Seq<Seq<char>>) -> Seq<Seq<char>> {
    s.map_values(|t: Seq<char>| lowercase(t))
}

/// Whether a line holds every header keyword, case aside.
pub open spec fn is_header(line: Seq<char>, hk: Seq<Seq<char>>) -> bool {
    forall|k: int| 0 <= k < hk.len() ==> contains(lowercase(line), #[trigger] lowered(hk)[k])
}

/// The first line at or after `i` that holds every header keyword.
pub open spec fn header_from(ls: Seq<Seq<char>>, hk: Seq<Seq<char>>, i: int) -> Option<int>
    decreases ls.len() - i,
{
    if i >= ls.len() {
        None
    } else if is_header(ls[i], hk) {
        Some(i)
    } else {
        header_from(ls, hk, i + 1)
    }
}

/// Whether a trimmed line holds one of the stop keywords, case aside.
pub open spec fn is_stop(t: Seq<char>, stops: Option<Seq<Seq<char>>>) -> bool {
    match stops {
        Some(s) => exists|k: int| 0 <= k < s.len() && contains(lowercase(t), #[trigger] lowered(s)[k]),
        None => false,
    }
}

/// The non-empty pieces, each trimmed, in order.
pub open spec fn kept_cells(pieces: Seq<Seq<char>>) -> Seq<Seq<char>>
    decreases pieces.len(),
{
    if pieces.len() == 0 {
        seq![]
    } else if pieces.last().len() > 0 {
        kept_cells(pieces.drop_last()).push(trim(pieces.last()))
    } else {
        kept_cells(pieces.drop_last())
    }
}

/// The cells of a trimmed line.
pub open spec fn cells(delim: Seq<char>, t: Seq<char>) -> Seq<Seq<char>> {
    kept_cells(regex_split(delim, t))
}

/// The rows read from line `i` on: blank lines are skipped, a line with a
/// stop keyword ends the table, and a line without cells adds no row.
pub open spec fn table_rows(
    delim: Seq<char>,
    ls: Seq<Seq<char>>,
    stops: Option<Seq<Seq<char>>>,
    i: int,
) -> Seq<Seq<Seq<char>>>
    decreases ls.len() - i,
{
    if i >= ls.len() {
        seq![]
    } else if trim(ls[i]).len() == 0 {
        table_rows(delim, ls, stops, i + 1)
    } else if is_stop(trim(ls[i]), stops) {
        seq![]
    } else if cells(delim, trim(ls[i])).len() > 0 {
        seq![cells(delim, trim(ls[i]))] + table_rows(delim, ls, stops, i + 1)
    } else {
        table_rows(delim, ls, stops, i + 1)
    }
}

/// The delimiter that splits the cells: the configured pattern (or the
/// default) where it compiles, else the default; `Err` carries the compile
/// error of the default where that fails too.
pub open spec fn delimiter_used(configured: Option<Seq<char>>) -> Result<Seq<char>, Seq<char>> {
    let p = match configured {
        Some(p) => p,
        None => default_delimiter(),
    };
    match regex_new(p) {
        Ok(_) => Ok(p),
        Err(_) => match regex_new(default_delimiter()) {
            Ok(_) => Ok(default_delimiter()),
            Err(m) => Err(m),
        },
    }
}

/// A JSON array of JSON arrays of strings.
pub open spec fn table_json(rows: Seq<Seq<Seq<char>>>) -> Json {
    Json::Array(rows.map_values(|r: Seq<Seq<char>>| str_array(r)))
}

/// The result of the table strategy.
pub open spec fn table_result(
    text: Seq<char>,
    hk: Seq<Seq<char>>,
    stops: Option<Seq<Seq<char>>>,
    configured: Option<Seq<char>>,
) -> Result<Json, Seq<char>> {
    match header_from(lines(text), hk, 0) {
        None => Ok(Json::Object(seq![("status"@, Json::Str("header_not_found"@))])),
        Some(h) => match delimiter_used(configured) {
            Err(m) => Err(m),
            Ok(d) => Ok(
                Json::Object(
                    seq![
                        ("status"@, Json::Str("ok"@)),
                        ("headers"@, str_array(cells(d, trim(lines(text)[h])))),
                        ("rows"@, table_json(table_rows(d, lines(text), stops, h + 1))),
                    ],
                ),
            ),
        },
    }
}

/// The views of a vector of rows.
pub open spec fn row_views(v: Seq<Vec<Vec<char>>>) -> Seq<Seq<Seq<char>>> {
    v.map_values(|r: Vec<Vec<char>>| views(r@))
}

fn lower_all(v: &Vec<String>) -> (r: Vec<Vec<char>>)
    ensures
        views(r@) == lowered(texts(v@)),
{
    let mut out: Vec<Vec<char>> = Vec::new();
    let n = v.len();
    for i in 0..n
        invariant
            n == v@.len(),
            views(out@) == lowered(texts(v@.take(i as int))),
    {
        let c = chars_of(v[i].as_str());
        let l = lowercase_chars(&c);
        let ghost before = out@;
        out.push(l);
        assert(views(out@) =~= views(before).push(l@));
        assert(lowered(texts(v@.take(i + 1))) =~= lowered(texts(v@.take(i as int))).push(lowercase(v@[i as int]@)));
    }
    assert(v@.take(n as int) =~= v@);
    out
}

fn contains_all(hay: &[char], needles: &Vec<Vec<char>>) -> (r: bool)
    ensures
        r == (forall|k: int| 0 <= k < needles@.len() ==> contains(hay@, #[trigger] views(needles@)[k])),
{
    let n = needles.len();
    for i in 0..n
        invariant
            n == needles@.len(),
            forall|k: int| 0 <= k < i ==> contains(hay@, #[trigger] views(needles@)[k]),
    {
        if !contains_exec(hay, &needles[i]) {
            assert(views(needles@)[i as int] == needles@[i as int]@);
            return false;
        }
    }
    true
}

fn contains_any(hay: &[char], needles: &Vec<Vec<char>>) -> (r: bool)
    ensures
        r == (exists|k: int| 0 <= k < needles@.len() && contains(hay@, #[trigger] views(needles@)[k])),
{
    let n = needles.len();
    for i in 0..n
        invariant
            n == needles@.len(),
            forall|k: int| 0 <= k < i ==> !contains(hay@, #[trigger] views(needles@)[k]),
    {
        if contains_exec(hay, &needles[i]) {
            assert(views(needles@)[i as int] == needles@[i as int]@);
            return true;
        }
    }
    false
}

fn split_cells(re: &CompiledRegex, t: &[char]) -> (r: Vec<Vec<char>>)
    ensures
        views(r@) == cells(re@, t@),
{
    let s = string_of(t);
    let pieces = split_all(re, s.as_str());
    let ghost all = regex_split(re@, t@);
    let mut out: Vec<Vec<char>> = Vec::new();
    let n = pieces.len();
    for i in 0..n
        invariant
            n == pieces@.len() == all.len(),
            all == regex_split(re@, t@),
            forall|q: int| 0 <= q < n ==> (#[trigger] pieces@[q])@ == all[q],
            views(out@) == kept_cells(all.take(i as int)),
    {
        let p = chars_of(pieces[i].as_str());
        assert(all.take(i + 1).drop_last() =~= all.take(i as int));
        assert(all.take(i + 1).last() == p@);
        if p.len() > 0 {
            let c = trim_chars(&p);
            let ghost before = out@;
            out.push(c);
            assert(views(out@) =~= views(before).push(c@));
        }
    }
    assert(all.take(n as int) =~= all);
    out
}

fn delimiter(configured: &Option<String>) -> (r: Result<CompiledRegex, String>)
    ensures
        match r {
            Ok(re) => delimiter_used(opt_text(*configured)) == Ok::<Seq<char>, Seq<char>>(re@),
            Err(m) => delimiter_used(opt_text(*configured)) == Err::<Seq<char>, Seq<char>>(m@),
        },
{
    let first = match configured {
        Some(p) => compile_regex(p.as_str()),
        None => compile_regex("\\s{2,}|\\t|\\s*\\|\\s*"),
    };
    match first {
        Ok(re) => Ok(re),
        Err(_) => compile_regex("\\s{2,}|\\t|\\s*\\|\\s*"),
    }
}

fn rows_json(rows: &Vec<Vec<Vec<char>>>) -> (r: JsonValue)
    ensures
        r@ == table_json(row_views(rows@)),
{
    let mut out: Vec<JsonValue> = Vec::new();
    let n = rows.len();
    for i in 0..n
        invariant
            n == rows@.len(),
            out@.len() == i,
            forall|k: int| 0 <= k < i ==> crate::json::json_view(#[trigger] out@[k]) == str_array(views(rows@[k]@)),
    {
        out.push(json_text_array(&rows[i]));
    }
    proof {
        lemma_array_view(out@);
    }
    assert(array_view(out@) =~= row_views(rows@).map_values(|r: Seq<Seq<char>>| str_array(r)));
    JsonValue::Array(out)
}

fn table_extraction(
    text: &[char],
    header_keywords: &Vec<String>,
    stop_keywords: &Option<Vec<String>>,
    delimiter_regex: &Option<String>,
) -> (r: Result<JsonValue, String>)
    ensures
        match r {
            Ok(v) => table_result(text@, texts(header_keywords@), opt_texts(*stop_keywords), opt_text(*delimiter_regex)) == Ok::<Json, Seq<char>>(v@),
            Err(m) => table_result(text@, texts(header_keywords@), opt_texts(*stop_keywords), opt_text(*delimiter_regex)) == Err::<Json, Seq<char>>(m@),
        },
{
    let ls = lines_exec(text);
    let ghost lv = lines(text@);
    let ghost hk = texts(header_keywords@);
    let hk_lower = lower_all(header_keywords);
    let n = ls.len();
    let mut h: usize = 0;
    let mut found = false;
    assert(views(ls@).len() == n);
    while h < n && !found
        invariant
            n == ls@.len() == lv.len(),
            views(ls@) == lv,
            views(hk_lower@) == lowered(hk),
            h <= n,
            found ==> h < n && is_header(lv[h as int], hk) && header_from(lv, hk, 0) == Some(h as int),
            !found ==> header_from(lv, hk, 0) == header_from(lv, hk, h as int),
        decreases n + 1 - h - (if found { 1int } else { 0int }),
    {
        let lower = lowercase_chars(&ls[h]);
        assert(views(ls@)[h as int] == ls@[h as int]@);
        assert(lower@ == lowercase(lv[h as int]));
        if contains_all(&lower, &hk_lower) {
            assert forall|k: int| 0 <= k < hk.len() implies contains(lowercase(lv[h as int]), #[trigger] lowered(hk)[k]) by {
                assert(hk_lower@.len() == views(hk_lower@).len());
                assert(hk.len() == lowered(hk).len());
                assert(0 <= k < hk_lower@.len());
                assert(views(hk_lower@)[k] == lowered(hk)[k]);
                assert(contains(lower@, views(hk_lower@)[k]));
            }
            found = true;
        } else {
            assert(hk_lower@.len() == views(hk_lower@).len());
            assert(hk.len() == lowered(hk).len());
            let ghost k = choose|k: int| 0 <= k < hk_lower@.len() && !contains(lower@, #[trigger] views(hk_lower@)[k]);
            assert(views(hk_lower@)[k] == lowered(hk)[k]);
            assert(!contains(lowercase(lv[h as int]), lowered(hk)[k]));
            assert(!is_header(lv[h as int], hk));
            h = h + 1;
        }
    }
    if !found {
        let mut members: Vec<(String, JsonValue)> = Vec::new();
        members.push(("status".to_owned(), json_from_str("header_not_found")));
        proof {
            lemma_members_view(members@);
        }
        assert(members_view(members@) =~= seq![("status"@, Json::Str("header_not_found"@))]);
        return Ok(JsonValue::Object(members));
    }
    let re = match delimiter(delimiter_regex) {
        Ok(re) => re,
        Err(m) => {
            return Err(m);
        },
    };
    let header_line = trim_chars(&ls[h]);
    assert(views(ls@)[h as int] == ls@[h as int]@);
    let headers = split_cells(&re, &header_line);
    let stops_lower: Option<Vec<Vec<char>>> = match stop_keywords {
        Some(s) => Some(lower_all(s)),
        None => None,
    };
    let ghost stops = opt_texts(*stop_keywords);
    let ghost d = re@;
    let ghost total = table_rows(d, lv, stops, h + 1);
    let mut rows: Vec<Vec<Vec<char>>> = Vec::new();
    let mut i: usize = h + 1;
    let mut stopped = false;
    while i < n && !stopped
        invariant
            n == ls@.len() == lv.len(),
            views(ls@) == lv,
            h < i <= n,
            d == re@,
            stops == opt_texts(*stop_keywords),
            match stops_lower {
                Some(sl) => stops is Some && views(sl@) == lowered(stops->0),
                None => stops is None,
            },
            total == table_rows(d, lv, stops, h + 1),
            row_views(rows@) + (if stopped { seq![] } else { table_rows(d, lv, stops, i as int) }) == total,
        decreases n + 1 - i - (if stopped { 1int } else { 0int }),
    {
        assert(views(ls@)[i as int] == ls@[i as int]@);
        let t = trim_chars(&ls[i]);
        if t.len() == 0 {
            i = i + 1;
        } else {
            let lower = lowercase_chars(&t);
            let hit = match &stops_lower {
                Some(sl) => contains_any(&lower, sl),
                None => false,
            };
            if hit {
                stopped = true;
                assert(row_views(rows@) + seq![] =~= row_views(rows@));
            } else {
                let row = split_cells(&re, &t);
                if row.len() > 0 {
                    let ghost before = rows@;
                    rows.push(row);
                    assert(row_views(rows@) =~= row_views(before) + seq![views(row@)]);
                    assert(row_views(before) + table_rows(d, lv, stops, i as int) =~= row_views(rows@) + table_rows(d, lv, stops, i + 1));
                }
                i = i + 1;
            }
        }
    }
    if !stopped {
        assert(row_views(rows@) + seq![] =~= row_views(rows@));
    }
    let mut members: Vec<(String, JsonValue)> = Vec::new();
    members.push(("status".to_owned(), json_from_str("ok")));
    members.push(("headers".to_owned(), json_text_array(&headers)));
    members.push(("rows".to_owned(), rows_json(&rows)));
    proof {
        lemma_members_view(members@);
    }
    assert(members_view(members@) =~= seq![
        ("status"@, Json::Str("ok"@)),
        ("headers"@, str_array(cells(d, trim(lv[h as int])))),
        ("rows"@, table_json(total)),
    ]);
    Ok(JsonValue::Object(members))
}


// ---------------------------------------------------------------------------
// Passthrough and the stage itself
// ---------------------------------------------------------------------------

/// The result of passing the trimmed lines through; `configured` tells a
/// chosen passthrough from a stage without configuration.
pub open spec fn passthrough_result(text: Seq<char>, configured: bool) -> Json {
    Json::Object(
        seq![
            ("strategy_used"@, Json::Str(if configured { "Passthrough"@ } else { "Default (Lines)"@ })),
            ("lines"@, str_array(lines(text).map_values(|l: Seq<char>| trim(l)))),
        ],
    )
}

fn passthrough(text: &[char], configured: bool) -> (r: JsonValue)
    ensures
        r@ == passthrough_result(text@, configured),
{
    let ls = lines_exec(text);
    let mut trimmed: Vec<Vec<char>> = Vec::new();
    let n = ls.len();
    for i in 0..n
        invariant
            n == ls@.len(),
            views(ls@) == lines(text@),
            views(trimmed@) == lines(text@).take(i as int).map_values(|l: Seq<char>| trim(l)),
    {
        assert(views(ls@)[i as int] == ls@[i as int]@);
        let t = trim_chars(&ls[i]);
        let ghost before = trimmed@;
        trimmed.push(t);
        assert(views(trimmed@) =~= views(before).push(t@));
        assert(lines(text@).take(i + 1).map_values(|l: Seq<char>| trim(l)) =~= lines(text@).take(i as int).map_values(|l: Seq<char>| trim(l)).push(trim(lines(text@)[i as int])));
    }
    assert(lines(text@).take(n as int) =~= lines(text@));
    let label = if configured {
        json_from_str("Passthrough")
    } else {
        json_from_str("Default (Lines)")
    };
    let mut members: Vec<(String, JsonValue)> = Vec::new();
    members.push(("strategy_used".to_owned(), label));
    members.push(("lines".to_owned(), json_text_array(&trimmed)));
    proof {
        lemma_members_view(members@);
    }
    assert(members_view(members@) =~= passthrough_result(text@, configured)->Object_0);
    JsonValue::Object(members)
}

/// Why the parse stage fails, in mathematical form.
pub enum ParseFailure {
    /// Neither the configured nor the default delimiter compiled: the
    /// default's compile error.
    Delimiter(Seq<char>),
    /// A regex pattern did not compile: its name and the compile error.
    Pattern(Seq<char>, Seq<char>),
}

/// What the parse stage gives for a text and an optional configuration.
/// The stage fails where a regex pattern does not compile (the first one
/// in order), or where no table delimiter compiles.
pub open spec fn parse_result(text: Seq<char>, config: Option<ParseConfig>) -> Result<Json, ParseFailure> {
    match config {
        None => Ok(passthrough_result(text, false)),
        Some(ParseConfig::Passthrough) => Ok(passthrough_result(text, true)),
        Some(ParseConfig::KeywordExtraction { keywords, case_sensitive }) => Ok(
            Json::Object(keyword_members(texts(keywords@), text, case_sensitive)),
        ),
        Some(ParseConfig::RegexExtraction { patterns }) => match first_bad_pattern(patterns@) {
            Some((name, msg)) => Err(ParseFailure::Pattern(name, msg)),
            None => Ok(Json::Object(regex_members(patterns@, text))),
        },
        Some(ParseConfig::SimpleTableExtraction { header_keywords, stop_keywords, delimiter_regex, .. }) =>
            match table_result(text, texts(header_keywords@), opt_texts(stop_keywords), opt_text(delimiter_regex)) {
                Ok(v) => Ok(v),
                Err(m) => Err(ParseFailure::Delimiter(m)),
            },
    }
}

/// The matches a regex pattern extracts from a text: the chosen capture
/// group of each match, in order, skipping matches where it took no part.
pub open spec fn matches_of(p: RegexPattern, text: Seq<char>) -> Seq<Seq<char>> {
    extracted(regex_captures(p.regex@, text), p.capture_group_index as int)
}

proof fn lemma_regex_members_keep(pats: Seq<RegexPattern>, text: Seq<char>, i: int)
    requires
        0 <= i < pats.len(),
        regex_new(pats[i].regex@) is Ok,
        matches_of(pats[i], text).len() > 0,
        forall|j: int| i < j < pats.len() ==> (#[trigger] pats[j]).name@ != pats[i].name@,
    ensures
        field(regex_members(pats, text), pats[i].name@) == Some(str_array(matches_of(pats[i], text))),
    decreases pats.len(),
{
    let prev = regex_members(pats.drop_last(), text);
    let last = pats.last();
    if i == pats.len() - 1 {
        lemma_insert_sets_field(prev, last.name@, str_array(matches_of(last, text)));
    } else {
        assert(pats.drop_last()[i] == pats[i]);
        assert forall|j: int| i < j < pats.drop_last().len() implies (#[trigger] pats.drop_last()[j]).name@ != pats[i].name@ by {
            assert(pats.drop_last()[j] == pats[j]);
        }
        lemma_regex_members_keep(pats.drop_last(), text, i);
        assert(last.name@ != pats[i].name@);
        match regex_new(last.regex@) {
            Ok(_) => if matches_of(last, text).len() > 0 {
                lemma_insert_keeps_other_fields(prev, last.name@, str_array(matches_of(last, text)), pats[i].name@);
            },
            Err(_) => {},
        }
    }
}

proof fn lemma_regex_members_only(pats: Seq<RegexPattern>, text: Seq<char>, name: Seq<char>)
    requires
        field(regex_members(pats, text), name) is Some,
    ensures
        exists|i: int| 0 <= i < pats.len() && (#[trigger] pats[i]).name@ == name
            && matches_of(pats[i], text).len() > 0,
    decreases pats.len(),
{
    if pats.len() == 0 {
    } else {
        let prev = regex_members(pats.drop_last(), text);
        let last = pats.last();
        let n = pats.len() - 1;
        if last.name@ == name && regex_new(last.regex@) is Ok && matches_of(last, text).len() > 0 {
            assert(pats[n].name@ == name);
        } else {
            if regex_new(last.regex@) is Ok && matches_of(last, text).len() > 0 {
                lemma_insert_keeps_other_fields(prev, last.name@, str_array(matches_of(last, text)), name);
            }
            lemma_regex_members_only(pats.drop_last(), text, name);
            let i = choose|i: int| 0 <= i < pats.drop_last().len() && (#[trigger] pats.drop_last()[i]).name@ == name
                && matches_of(pats.drop_last()[i], text).len() > 0;
            assert(pats[i] == pats.drop_last()[i]);
        }
    }
}

/// The regex strategy keeps every pattern's matches: where the patterns
/// all compile, the result has, for each pattern with at least one match,
/// a member under the pattern's name holding its matches (unless a later
/// pattern has the same name), whatever other patterns come after it; and
/// it has no member but for a pattern's name with matches.
pub proof fn lemma_regex_extraction_keeps_every_pattern(
    text: Seq<char>,
    patterns: Vec<RegexPattern>,
    i: int,
    name: Seq<char>,
)
    requires
        first_bad_pattern(patterns@) is None,
    ensures
        parse_result(text, Some(ParseConfig::RegexExtraction { patterns })) matches Ok(o) && {
            &&& (0 <= i < patterns@.len() && matches_of(patterns@[i], text).len() > 0
                && (forall|j: int| i < j < patterns@.len() ==> (#[trigger] patterns@[j]).name@ != patterns@[i].name@))
                ==> get(o, patterns@[i].name@) == Some(str_array(matches_of(patterns@[i], text)))
            &&& get(o, name) is Some ==> exists|k: int| 0 <= k < patterns@.len() && (#[trigger] patterns@[k]).name@ == name
                && matches_of(patterns@[k], text).len() > 0
        },
{
    let pats = patterns@;
    if 0 <= i < pats.len() && matches_of(pats[i], text).len() > 0
        && (forall|j: int| i < j < pats.len() ==> (#[trigger] pats[j]).name@ != pats[i].name@) {
        lemma_all_compile(pats, i);
        lemma_regex_members_keep(pats, text, i);
    }
    if field(regex_members(pats, text), name) is Some {
        lemma_regex_members_only(pats, text, name);
    }
}

proof fn lemma_all_compile(pats: Seq<RegexPattern>, i: int)
    requires
        first_bad_pattern(pats) is None,
        0 <= i < pats.len(),
    ensures
        regex_new(pats[i].regex@) is Ok,
    decreases pats.len(),
{
    if i > 0 {
        lemma_all_compile(pats.drop_first(), i - 1);
        assert(pats.drop_first()[i - 1] == pats[i]);
    }
}

/// Runs the parse stage over the text that OCR gave.
///
/// The column sums and averages that a table configuration may ask for
/// (`numeric_summary`) are floating-point arithmetic and are added by the
/// caller; the result here holds status, headers and rows.
pub fn run_parse_stage(text_content: &str, config: Option<ParseConfig>) -> (r: Result<JsonValue, ParseError>)
    ensures
        match r {
            Ok(v) => parse_result(text_content@, config) == Ok::<Json, ParseFailure>(v@),
            Err(ParseError::DelimiterFallback(m)) => parse_result(text_content@, config)
                == Err::<Json, ParseFailure>(ParseFailure::Delimiter(m@)),
            Err(ParseError::RegexCompile { name, message }) => parse_result(text_content@, config)
                == Err::<Json, ParseFailure>(ParseFailure::Pattern(name@, message@)),
        },
{
    let text = chars_of(text_content);
    match config {
        None => Ok(passthrough(&text, false)),
        Some(ParseConfig::Passthrough) => Ok(passthrough(&text, true)),
        Some(ParseConfig::KeywordExtraction { keywords, case_sensitive }) => Ok(
            keyword_extraction(&text, &keywords, case_sensitive),
        ),
        Some(ParseConfig::RegexExtraction { patterns }) => match regex_extraction(text_content, &patterns) {
            Ok(v) => Ok(v),
            Err((name, message)) => Err(ParseError::RegexCompile { name, message }),
        },
        Some(ParseConfig::SimpleTableExtraction { header_keywords, stop_keywords, delimiter_regex, .. }) => {
            match table_extraction(&text, &header_keywords, &stop_keywords, &delimiter_regex) {
                Ok(v) => Ok(v),
                Err(m) => Err(ParseError::DelimiterFallback(m)),
            }
        },
    }
}

impl ParseError {
    /// The error's message, as the stage reports it.
    pub fn message(&self) -> (r: String)
        ensures
            match self {
                ParseError::DelimiterFallback(m) => r@ == "Failed to compile fallback delimiter regex: "@ + m@,
                ParseError::RegexCompile { name, message } =>
                    r@ == "Failed to compile regex for pattern '"@ + name@ + "': "@ + message@,
            },
    {
        match self {
            ParseError::DelimiterFallback(m) => {
                let mut t = chars_of("Failed to compile fallback delimiter regex: ");
                let mc = chars_of(m.as_str());
                append_chars(&mut t, &mc);
                string_of(&t)
            },
            ParseError::RegexCompile { name, message } => {
                let mut t = chars_of("Failed to compile regex for pattern '");
                append_chars(&mut t, &chars_of(name.as_str()));
                append_chars(&mut t, &chars_of("': "));
                append_chars(&mut t, &chars_of(message.as_str()));
                string_of(&t)
            },
        }
    }
}

} // verus!
