//! Checks on an uploaded document: its name, size, type and content, its
//! page count, and the storage key it is kept under.

use vstd::prelude::*;
use vstd::utf8::encode_utf8;
use crate::text::{chars_of, string_of, append_chars, lowercase, lowercase_chars, ends_with,
    ends_with_exec, starts_with, starts_with_exec, chars_eq, has_char, split_on};

verus! {

/// The largest upload accepted, in bytes (200 MiB).
pub const MAX_FILE_SIZE: usize = 209715200;

/// The kinds of document that can be uploaded.
#[derive(PartialEq, Eq, Structural, Clone, Copy, Debug)]
pub enum FileKind {
    Pdf,
    Markdown,
    Text,
}

/// Why an upload was refused.
#[derive(PartialEq, Eq, Structural, Clone, Copy, Debug)]
pub enum UploadError {
    /// No file name was given.
    MissingFilename,
    /// The file is empty.
    EmptyContent,
    /// The file is larger than `MAX_FILE_SIZE`.
    TooLarge,
    /// A PDF sent with another content type.
    PdfContentType,
    /// A PDF that does not start with `%PDF-`.
    PdfMagic,
    /// A file that is neither `.pdf`, `.md` nor `.txt`.
    Unsupported,
    /// A PDF whose pages could not be counted.
    CorruptPdf,
}

impl FileKind {
    /// The name of the kind: "pdf", "md" or "txt".
    pub open spec fn text(self) -> Seq<char> {
        match self {
            FileKind::Pdf => "pdf"@,
            FileKind::Markdown => "md"@,
            FileKind::Text => "txt"@,
        }
    }

    /// The name of the kind.
    pub fn as_str(&self) -> (r: &'static str)
        ensures
            r@ == self.text(),
    {
        match self {
            FileKind::Pdf => "pdf",
            FileKind::Markdown => "md",
            FileKind::Text => "txt",
        }
    }
}

impl UploadError {
    /// The HTTP status the refusal is answered with.
    pub open spec fn status_of(self) -> u16 {
        match self {
            UploadError::TooLarge => 413,
            _ => 400,
        }
    }

    /// The HTTP status the refusal is answered with.
    pub fn status(&self) -> (r: u16)
        ensures
            r == self.status_of(),
    {
        match self {
            UploadError::TooLarge => 413,
            _ => 400,
        }
    }

    /// The message of the refusal.
    pub open spec fn message_of(self) -> Seq<char> {
        match self {
            UploadError::MissingFilename => "Filename not provided or invalid."@,
            UploadError::EmptyContent => "File content is empty."@,
            UploadError::TooLarge => "File size exceeds the 200MB limit."@,
            UploadError::PdfContentType => "Invalid Content-Type for PDF file. Expected 'application/pdf'."@,
            UploadError::PdfMagic => "Invalid PDF file format (magic bytes mismatch)."@,
            UploadError::Unsupported => "Unsupported file type. Only .pdf, .md, .txt are allowed."@,
            UploadError::CorruptPdf => "Corrupt or invalid PDF file. Could not count pages."@,
        }
    }

    /// The message of the refusal.
    pub fn message(&self) -> (r: &'static str)
        ensures
            r@ == self.message_of(),
    {
        match self {
            UploadError::MissingFilename => "Filename not provided or invalid.",
            UploadError::EmptyContent => "File content is empty.",
            UploadError::TooLarge => "File size exceeds the 200MB limit.",
            UploadError::PdfContentType => "Invalid Content-Type for PDF file. Expected 'application/pdf'.",
            UploadError::PdfMagic => "Invalid PDF file format (magic bytes mismatch).",
            UploadError::Unsupported => "Unsupported file type. Only .pdf, .md, .txt are allowed.",
            UploadError::CorruptPdf => "Corrupt or invalid PDF file. Could not count pages.",
        }
    }
}

/// The kind a file name announces by its extension, case aside.
pub open spec fn kind_of(name: Seq<char>) -> Option<FileKind> {
    if ends_with(lowercase(name), ".pdf"@) {
        Some(FileKind::Pdf)
    } else if ends_with(lowercase(name), ".md"@) {
        Some(FileKind::Markdown)
    } else if ends_with(lowercase(name), ".txt"@) {
        Some(FileKind::Text)
    } else {
        None
    }
}

/// Whether a PDF may come with this content type: none, `application/pdf`,
/// or one that starts with `application/octet-stream`.
pub open spec fn pdf_type_ok(content_type: Option<Seq<char>>) -> bool {
    match content_type {
        Some(c) => c == "application/pdf"@ || starts_with(c, "application/octet-stream"@),
        None => true,
    }
}

/// Whether the bytes start with the PDF signature `%PDF-`.
pub open spec fn has_pdf_magic(b: Seq<u8>) -> bool {
    b.len() >= 5 && b.subrange(0, 5) == seq![37u8, 80u8, 68u8, 70u8, 45u8]
}

/// The checks on an upload with the given base name, content type and
/// content, in order: a name, content, the size limit, a known kind, and
/// for a PDF its content type and signature. A Markdown or text file with
/// an unusual content type is accepted.
pub open spec fn upload_check(name: Seq<char>, content_type: Option<Seq<char>>, bytes: Seq<u8>) -> Result<FileKind, UploadError> {
    if name.len() == 0 {
        Err(UploadError::MissingFilename)
    } else if bytes.len() == 0 {
        Err(UploadError::EmptyContent)
    } else if bytes.len() > MAX_FILE_SIZE {
        Err(UploadError::TooLarge)
    } else {
        match kind_of(name) {
            Some(FileKind::Pdf) => if !pdf_type_ok(content_type) {
                Err(UploadError::PdfContentType)
            } else if !has_pdf_magic(bytes) {
                Err(UploadError::PdfMagic)
            } else {
                Ok(FileKind::Pdf)
            },
            Some(k) => Ok(k),
            None => Err(UploadError::Unsupported),
        }
    }
}

/// The text of an optional string.
pub open spec fn opt_str(o: Option<String>) -> Option<Seq<char>> {
    match o {
        Some(s) => Some(s@),
        None => None,
    }
}

fn pdf_magic(bytes: &[u8]) -> (r: bool)
    ensures
        r == has_pdf_magic(bytes@),
{
    if bytes.len() < 5 {
        return false;
    }
    let r = bytes[0] == 37u8 && bytes[1] == 80u8 && bytes[2] == 68u8 && bytes[3] == 70u8 && bytes[4] == 45u8;
    assert(r == (bytes@.subrange(0, 5) =~= seq![37u8, 80u8, 68u8, 70u8, 45u8]));
    r
}

/// Checks an upload whose base name is known.
pub fn check_upload(name: &str, content_type: &Option<String>, bytes: &[u8]) -> (r: Result<FileKind, UploadError>)
    ensures
        r == upload_check(name@, opt_str(*content_type), bytes@),
{
    let nc = chars_of(name);
    if nc.len() == 0 {
        return Err(UploadError::MissingFilename);
    }
    if bytes.len() == 0 {
        return Err(UploadError::EmptyContent);
    }
    if bytes.len() > MAX_FILE_SIZE {
        return Err(UploadError::TooLarge);
    }
    let lower = lowercase_chars(&nc);
    if ends_with_exec(&lower, &chars_of(".pdf")) {
        let type_ok = match content_type {
            Some(c) => {
                let cc = chars_of(c.as_str());
                chars_eq(&cc, &chars_of("application/pdf")) || starts_with_exec(&cc, &chars_of("application/octet-stream"))
            },
            None => true,
        };
        if !type_ok {
            return Err(UploadError::PdfContentType);
        }
        if !pdf_magic(bytes) {
            return Err(UploadError::PdfMagic);
        }
        Ok(FileKind::Pdf)
    } else if ends_with_exec(&lower, &chars_of(".md")) {
        Ok(FileKind::Markdown)
    } else if ends_with_exec(&lower, &chars_of(".txt")) {
        Ok(FileKind::Text)
    } else {
        Err(UploadError::Unsupported)
    }
}

// ---------------------------------------------------------------------------
// The base name of an uploaded file
// ---------------------------------------------------------------------------

/// Whether `part` occurs in `whole` as a contiguous run of characters.
pub open spec fn is_part_of(part: Seq<char>, whole: Seq<char>) -> bool {
    exists|i: int| 0 <= i && i + part.len() <= whole.len() && #[trigger] whole.subrange(i, i + part.len()) == part
}

/// What `Path::file_name` may give for a path: nothing, or a non-empty
/// run of its characters without `/`.
pub open spec fn file_name_candidate(path: Seq<char>, name: Seq<char>) -> bool {
    name.len() > 0 && !has_char(name, '/') && is_part_of(name, path)
}

/// The last of the `/`-separated pieces that is neither empty nor `.`.
pub open spec fn last_named_piece(pieces: Seq<Seq<char>>) -> Option<Seq<char>>
    decreases pieces.len(),
{
    if pieces.len() == 0 {
        None
    } else if pieces.last().len() == 0 || pieces.last() == "."@ {
        last_named_piece(pieces.drop_last())
    } else {
        Some(pieces.last())
    }
}

/// The final component of a path whose only separator is `/`: its last
/// piece that is neither empty nor `.`, unless that piece is `..`; none
/// where there is no such piece or it is `..`.
pub open spec fn final_component(path: Seq<char>) -> Option<Seq<char>> {
    match last_named_piece(split_on(path, '/')) {
        Some(p) => if p == ".."@ {
            None
        } else {
            Some(p)
        },
        None => None,
    }
}

/// A path that every platform reads the same way: no `\`, no `:` (no
/// Windows separator or drive prefix), and no leading `//` (no Windows
/// network prefix).
pub open spec fn plain_path(path: Seq<char>) -> bool {
    &&& !has_char(path, '\\')
    &&& !has_char(path, ':')
    &&& !(path.len() >= 2 && path[0] == '/' && path[1] == '/')
}

/// The base name an upload is known by on a plain path: its final
/// component, or the whole name where it has none.
pub open spec fn base_of(path: Seq<char>) -> Seq<char> {
    match final_component(path) {
        Some(n) => n,
        None => path,
    }
}

/// The final component of a path, if there is one
/// (`std::path::Path::file_name`).
///
/// Claims of the outside call, as its documentation describes components
/// (separators collapse, `.` pieces other than a leading one are dropped,
/// a path ending in `..` has none): a name found is a non-empty component
/// of the path, so a non-empty run of the path's characters without a
/// separator `/`; on a plain path, where `/` is the only separator on
/// every platform, it is `final_component` of the path. On other paths
/// which component it is depends on the platform and is left unsaid.
#[verifier::external_body]
fn file_name_of(path: &str) -> (r: Option<String>)
    ensures
        match r {
            Some(n) => file_name_candidate(path@, n@),
            None => true,
        },
        plain_path(path@) ==> match r {
            Some(n) => final_component(path@) == Some(n@),
            None => final_component(path@) is None,
        },
{
    std::path::Path::new(path).file_name().and_then(|f| f.to_str()).map(|f| f.to_string())
}

/// The base name an upload is known by: the final component of the name
/// the user gave, or that name itself where it has none.
pub open spec fn base_name_candidate(user_filename: Seq<char>, base: Seq<char>) -> bool {
    base == user_filename || file_name_candidate(user_filename, base)
}

/// Checks the name, content type and content of an upload, and gives its
/// base name and the name of its kind ("pdf", "md" or "txt").
pub fn validate_filename_and_type(user_filename: &str, content_type: &Option<String>, bytes: &[u8]) -> (r: Result<(String, String), UploadError>)
    ensures
        exists|base: Seq<char>| #[trigger] base_name_candidate(user_filename@, base)
            && (plain_path(user_filename@) ==> base == base_of(user_filename@)) && match r {
            Ok((b, t)) => b@ == base && upload_check(base, opt_str(*content_type), bytes@) is Ok
                && t@ == upload_check(base, opt_str(*content_type), bytes@)->Ok_0.text(),
            Err(e) => upload_check(base, opt_str(*content_type), bytes@) == Err::<FileKind, UploadError>(e),
        },
{
    let base = match file_name_of(user_filename) {
        Some(f) => f,
        None => user_filename.to_owned(),
    };
    assert(base_name_candidate(user_filename@, base@));
    match check_upload(base.as_str(), content_type, bytes) {
        Ok(kind) => {
            let t = kind.as_str().to_owned();
            Ok((base, t))
        },
        Err(e) => Err(e),
    }
}

// ---------------------------------------------------------------------------
// Page count
// ---------------------------------------------------------------------------

/// The page count an upload is stored with, given what counting the PDF's
/// pages gave (`counted`: `Some(n)` where the document was read and has
/// `n` pages, `None` where it could not be read): the pages (as an `i32`)
/// for a PDF, zero for other kinds; `Err(CorruptPdf)` for a PDF that could
/// not be read.
pub open spec fn pages_of(kind: FileKind, counted: Option<usize>) -> Result<i32, UploadError> {
    match kind {
        FileKind::Pdf => match counted {
            Some(n) => Ok(n as i32),
            None => Err(UploadError::CorruptPdf),
        },
        _ => Ok(0i32),
    }
}

/// The page count of a checked upload, given what counting the PDF's pages
/// gave; `counted` is read only for a PDF.
pub fn page_count(kind: FileKind, counted: Option<usize>) -> (r: Result<i32, UploadError>)
    ensures
        r == pages_of(kind, counted),
{
    match kind {
        FileKind::Pdf => match counted {
            Some(n) => Ok(#[verifier::truncate] (n as i32)),
            None => Err(UploadError::CorruptPdf),
        },
        _ => Ok(0i32),
    }
}

/// Checks an upload and gives its base name and page count; `counted` is
/// what counting the pages of the bytes as a PDF gave, read only where the
/// upload is a PDF.
pub fn validate_document(
    user_filename: &str,
    content_type: &Option<String>,
    bytes: &[u8],
    counted: Option<usize>,
) -> (r: Result<(String, i32), UploadError>)
    ensures
        exists|base: Seq<char>| #[trigger] base_name_candidate(user_filename@, base)
            && (plain_path(user_filename@) ==> base == base_of(user_filename@)) && match r {
            Ok((b, pages)) => b@ == base && upload_check(base, opt_str(*content_type), bytes@) is Ok
                && pages_of(upload_check(base, opt_str(*content_type), bytes@)->Ok_0, counted) == Ok::<i32, UploadError>(pages),
            Err(e) => upload_check(base, opt_str(*content_type), bytes@) == Err::<FileKind, UploadError>(e)
                || (upload_check(base, opt_str(*content_type), bytes@) is Ok
                    && pages_of(upload_check(base, opt_str(*content_type), bytes@)->Ok_0, counted) == Err::<i32, UploadError>(e)),
        },
{
    let base = match file_name_of(user_filename) {
        Some(f) => f,
        None => user_filename.to_owned(),
    };
    assert(base_name_candidate(user_filename@, base@));
    match check_upload(base.as_str(), content_type, bytes) {
        Ok(kind) => match page_count(kind, counted) {
            Ok(p) => Ok((base, p)),
            Err(e) => Err(e),
        },
        Err(e) => Err(e),
    }
}

// ---------------------------------------------------------------------------
// Storage key
// ---------------------------------------------------------------------------

/// The characters a sanitised file name never holds: `/ ? < > \ : * | "`
/// and the control characters U+0000 to U+001F and U+0080 to U+009F.
pub open spec fn unsafe_name_char(c: char) -> bool {
    ||| c == '/' || c == '?' || c == '<' || c == '>' || c == '\\'
    ||| c == ':' || c == '*' || c == '|' || c == '"'
    ||| (c as u32) <= 0x1f
    ||| 0x80 <= (c as u32) <= 0x9f
}

/// Whether a name holds none of the characters that sanitising removes.
pub open spec fn name_is_clean(s: Seq<char>) -> bool {
    forall|i: int| 0 <= i < s.len() ==> !unsafe_name_char(#[trigger] s[i])
}

/// Whether a character is the given ASCII letter in either case.
pub open spec fn letter_is(c: char, lower: char, upper: char) -> bool {
    c == lower || c == upper
}

/// Whether the first three characters of a name spell the given word, in
/// any case of its letters.
pub open spec fn starts_with_word(s: Seq<char>, w: Seq<char>, upper: Seq<char>) -> bool {
    s.len() >= 3 && letter_is(s[0], w[0], upper[0]) && letter_is(s[1], w[1], upper[1])
        && letter_is(s[2], w[2], upper[2])
}

/// Whether a name is a Windows reserved name (what `sanitize_filename`
/// matches with `(?i)^(con|prn|aux|nul|com[0-9]|lpt[0-9])(\..*)?$`):
/// `con`, `prn`, `aux` or `nul`, or `com` or `lpt` and a digit, in any case
/// of letters, alone or followed by a dot and anything without a line
/// feed.
pub open spec fn reserved_name(s: Seq<char>) -> bool {
    let plain = starts_with_word(s, "con"@, "CON"@) || starts_with_word(s, "prn"@, "PRN"@)
        || starts_with_word(s, "aux"@, "AUX"@) || starts_with_word(s, "nul"@, "NUL"@);
    let numbered = (starts_with_word(s, "com"@, "COM"@) || starts_with_word(s, "lpt"@, "LPT"@))
        && s.len() >= 4 && '0' <= s[3] <= '9';
    let rest_ok = |from: int| forall|i: int| from <= i < s.len() ==> s[i] != '\n';
    ||| plain && (s.len() == 3 || (s[3] == '.' && rest_ok(4)))
    ||| numbered && (s.len() == 4 || (s[4] == '.' && rest_ok(5)))
}

/// Whether sanitising leaves a name unchanged on every platform: it holds
/// no character that sanitising removes, is at most 255 bytes long in
/// UTF-8, does not end with `.` or a space (so it is not all dots), and is
/// not a Windows reserved name.
pub open spec fn name_kept(s: Seq<char>) -> bool {
    &&& name_is_clean(s)
    &&& encode_utf8(s).len() <= 255
    &&& !(s.len() > 0 && (s.last() == '.' || s.last() == ' '))
    &&& !reserved_name(s)
}

/// A file name made safe to store (`sanitize_filename::sanitize`).
///
/// Claim of the outside call: the characters its first two passes remove
/// (`/ ? < > \ : * | "` and the control characters) are not in the result;
/// its further passes only remove characters. A name that none of its
/// passes touches on any platform (`name_kept`: clean, not all dots, at
/// most 255 bytes, no trailing dot or space, not a Windows reserved name)
/// comes back unchanged. What else it removes depends on the platform (Windows
/// reserved names and trailing dots and spaces) and is left unsaid.
#[verifier::external_body]
fn sanitize_name(name: &str) -> (r: String)
    ensures
        name_is_clean(r@),
        name_kept(name@) ==> r@ == name@,
{
    sanitize_filename::sanitize(name)
}

/// The storage key of an upload: a fresh identifier, a hyphen, and the
/// sanitised base name (the base name itself where sanitising keeps it).
pub fn storage_key(id: &str, base_name: &str) -> (r: String)
    ensures
        name_kept(base_name@) ==> r@ == id@ + "-"@ + base_name@,
        r@.len() >= id@.len() + 1,
        r@.subrange(0, id@.len() as int) == id@,
        r@[id@.len() as int] == '-',
        name_is_clean(r@.subrange(id@.len() as int + 1, r@.len() as int)),
{
    let clean = sanitize_name(base_name);
    let mut v = chars_of(id);
    v.push('-');
    let cc = chars_of(clean.as_str());
    append_chars(&mut v, &cc);
    assert(v@.subrange(0, id@.len() as int) =~= id@);
    assert(v@.subrange(id@.len() as int + 1, v@.len() as int) =~= clean@);
    proof {
        reveal_strlit("-");
    }
    assert(v@ =~= id@ + "-"@ + clean@);
    string_of(&v)
}

/// Whether a document's stored name is accepted: it must be unchanged by
/// sanitising. A name with a character that sanitising removes is never
/// accepted; a name that sanitising keeps on every platform always is.
pub fn filename_accepted(filename: &str) -> (r: bool)
    ensures
        !name_is_clean(filename@) ==> !r,
        name_kept(filename@) ==> r,
{
    let clean = sanitize_name(filename);
    chars_eq(&chars_of(clean.as_str()), &chars_of(filename))
}

} // verus!
