//! Resolving a request line to a status line and a file path.
//!
//! The request line is the first CRLF-terminated line the client sends, for
//! example `GET /about.html HTTP/1.1`.  Only the second whitespace-delimited
//! token (the path) is consulted.  A path containing `..` is rejected, the
//! bare root path serves the landing page, and any other path is looked up
//! under the `public` directory, with `.html` appended when the path names no
//! file extension.  Whether the candidate file exists on disk is a fact the
//! caller supplies: this module never touches the file system.

use vstd::prelude::*;

verus! {

use crate::wire::line_safe;
use crate::wire::response_wire_bytes;
use crate::wire::serialize_response;
use vstd::string::StrSliceExecFns;
use vstd::string::StringExecFns;
use vstd::utf8::is_ascii_chars;

/// The error pages the server can respond with.
#[derive(Clone, Copy, PartialEq, Eq, Structural, Debug)]
pub enum ErrorPage {
    NotFound,
    PermissionDenied,
    InternalServerError,
}

impl ErrorPage {
    /// The file path of the page shown for this error.
    pub open spec fn spec_path(self) -> Seq<char> {
        match self {
            ErrorPage::NotFound => "public/404.html"@,
            ErrorPage::PermissionDenied => "public/403.html"@,
            ErrorPage::InternalServerError => "public/500.html"@,
        }
    }

    /// The status line of the response sent for this error.
    pub open spec fn spec_status(self) -> Seq<char> {
        match self {
            ErrorPage::NotFound => "HTTP/1.1 404 NOT FOUND"@,
            ErrorPage::PermissionDenied => "HTTP/1.1 403 PERMISSION DENIED"@,
            ErrorPage::InternalServerError => "HTTP/1.1 500 INTERNAL SERVER ERROR"@,
        }
    }

    /// Returns the file path of the HTML page for this error.
    pub fn path(&self) -> (r: String)
        ensures
            r@ == self.spec_path(),
    {
        match self {
            ErrorPage::NotFound => "public/404.html".to_owned(),
            ErrorPage::PermissionDenied => "public/403.html".to_owned(),
            ErrorPage::InternalServerError => "public/500.html".to_owned(),
        }
    }

    /// Returns the HTTP status line of the response for this error.
    pub fn status(&self) -> (r: String)
        ensures
            r@ == self.spec_status(),
    {
        match self {
            ErrorPage::NotFound => "HTTP/1.1 404 NOT FOUND".to_owned(),
            ErrorPage::PermissionDenied => "HTTP/1.1 403 PERMISSION DENIED".to_owned(),
            ErrorPage::InternalServerError => "HTTP/1.1 500 INTERNAL SERVER ERROR".to_owned(),
        }
    }
}

/// ASCII whitespace, as the request-line splitter understands it.
pub open spec fn is_ws(c: char) -> bool {
    c == ' ' || c == '\t' || c == '\r' || c == '\n' || c == '\u{b}' || c == '\u{c}'
}

/// First index at or after `i` that holds a non-whitespace character, or the
/// length of `s` if every remaining character is whitespace.
pub open spec fn skip_ws(s: Seq<char>, i: int) -> int
    decreases s.len() - i,
{
    if i >= s.len() {
        s.len() as int
    } else if is_ws(s[i]) {
        skip_ws(s, i + 1)
    } else {
        i
    }
}

/// First index at or after `i` that holds a whitespace character, or the
/// length of `s` if none does.
pub open spec fn token_end(s: Seq<char>, i: int) -> int
    decreases s.len() - i,
{
    if i >= s.len() {
        s.len() as int
    } else if is_ws(s[i]) {
        i
    } else {
        token_end(s, i + 1)
    }
}

/// Index where the second whitespace-delimited token of `s` begins.
pub open spec fn path_start(s: Seq<char>) -> int {
    skip_ws(s, token_end(s, skip_ws(s, 0)))
}

/// Index just past the second whitespace-delimited token of `s`.
pub open spec fn path_end(s: Seq<char>) -> int {
    token_end(s, path_start(s))
}

/// The path of a request line: its second whitespace-delimited token, or
/// `None` when the line has fewer than two tokens.
pub open spec fn request_path(s: Seq<char>) -> Option<Seq<char>> {
    if path_start(s) < s.len() {
        Some(s.subrange(path_start(s), path_end(s)))
    } else {
        None
    }
}

/// Whether two consecutive dots occur at or after index `i` of `p`.
pub open spec fn dotdot_at_or_after(p: Seq<char>, i: int) -> bool
    decreases p.len() - i,
{
    if i + 1 >= p.len() {
        false
    } else {
        (p[i] == '.' && p[i + 1] == '.') || dotdot_at_or_after(p, i + 1)
    }
}

/// Whether `p` contains the substring `..`.
pub open spec fn contains_dotdot(p: Seq<char>) -> bool {
    dotdot_at_or_after(p, 0)
}

/// Index just past the last `/` of `p`, or `0` when `p` has no `/`; the file
/// name of the path begins there.
pub open spec fn file_name_start(p: Seq<char>) -> int
    decreases p.len(),
{
    if p.len() == 0 {
        0
    } else if p[p.len() - 1] == '/' {
        p.len() as int
    } else {
        file_name_start(p.drop_last())
    }
}

/// Whether a dot occurs at or after index `i` of `p`.
pub open spec fn dot_at_or_after(p: Seq<char>, i: int) -> bool
    decreases p.len() - i,
{
    if i >= p.len() {
        false
    } else {
        p[i] == '.' || dot_at_or_after(p, i + 1)
    }
}

/// Whether the file name of `p` carries an extension: a dot strictly after
/// the file name's first character.  A name whose only dot is its first
/// character (a hidden file) has no extension.
pub open spec fn has_extension(p: Seq<char>) -> bool {
    dot_at_or_after(p, file_name_start(p) + 1)
}

/// The file path looked up for a request path `p` that is neither rejected
/// nor the bare root: the path under `public`, with `.html` appended when it
/// has no extension.
pub open spec fn candidate_of(p: Seq<char>) -> Seq<char> {
    let full = "public"@ + p;
    if has_extension(full) {
        full
    } else {
        full + ".html"@
    }
}

/// The status line and file path served for request line `s`, given whether
/// the candidate file exists on disk.
pub open spec fn spec_resolution(s: Seq<char>, exists_on_disk: bool) -> (Seq<char>, Seq<char>) {
    match request_path(s) {
        Option::None => ("HTTP/1.1 404"@, "public/404.html"@),
        Option::Some(p) => if contains_dotdot(p) {
            (ErrorPage::PermissionDenied.spec_status(), ErrorPage::PermissionDenied.spec_path())
        } else if p == "/"@ {
            ("HTTP/1.1 200 OK"@, "public/welcome.html"@)
        } else if exists_on_disk {
            ("HTTP/1.1 200 OK"@, candidate_of(p))
        } else {
            (ErrorPage::NotFound.spec_status(), ErrorPage::NotFound.spec_path())
        },
    }
}

/// The candidate file path whose existence decides between success and the
/// not-found page, or `None` when no disk lookup is needed for `s`.
pub open spec fn spec_candidate(s: Seq<char>) -> Option<Seq<char>> {
    match request_path(s) {
        Option::None => Option::None,
        Option::Some(p) => if contains_dotdot(p) || p == "/"@ {
            Option::None
        } else {
            Option::Some(candidate_of(p))
        },
    }
}

fn is_ws_char(c: char) -> (r: bool)
    ensures
        r == is_ws(c),
{
    c == ' ' || c == '\t' || c == '\r' || c == '\n' || c == '\u{b}' || c == '\u{c}'
}

fn scan_skip_ws(s: &str, from: usize, n: usize) -> (r: usize)
    requires
        n == s@.len(),
        from <= n,
    ensures
        r == skip_ws(s@, from as int),
        from <= r <= n,
    decreases n - from,
{
    if from == n {
        from
    } else if is_ws_char(s.get_char(from)) {
        scan_skip_ws(s, from + 1, n)
    } else {
        from
    }
}

fn scan_token_end(s: &str, from: usize, n: usize) -> (r: usize)
    requires
        n == s@.len(),
        from <= n,
    ensures
        r == token_end(s@, from as int),
        from <= r <= n,
    decreases n - from,
{
    if from == n {
        from
    } else if is_ws_char(s.get_char(from)) {
        from
    } else {
        scan_token_end(s, from + 1, n)
    }
}

fn scan_dotdot(p: &str, from: usize, n: usize) -> (r: bool)
    requires
        n == p@.len(),
        from <= n,
    ensures
        r == dotdot_at_or_after(p@, from as int),
    decreases n - from,
{
    if n - from < 2 {
        false
    } else if p.get_char(from) == '.' && p.get_char(from + 1) == '.' {
        true
    } else {
        scan_dotdot(p, from + 1, n)
    }
}

fn scan_file_name_start(p: &str, i: usize, n: usize) -> (r: usize)
    requires
        n == p@.len(),
        i <= n,
    ensures
        r == file_name_start(p@.subrange(0, i as int)),
        r <= i,
    decreases i,
{
    if i == 0 {
        assert(p@.subrange(0, 0) =~= Seq::<char>::empty());
        0
    } else if p.get_char(i - 1) == '/' {
        assert(p@.subrange(0, i as int).last() == p@[i - 1]);
        i
    } else {
        let r = scan_file_name_start(p, i - 1, n);
        assert(p@.subrange(0, i as int).drop_last() =~= p@.subrange(0, i - 1));
        assert(p@.subrange(0, i as int).last() == p@[i - 1]);
        r
    }
}

fn scan_dot(p: &str, from: usize, n: usize) -> (r: bool)
    requires
        n == p@.len(),
        from <= n,
    ensures
        r == dot_at_or_after(p@, from as int),
    decreases n - from,
{
    if from == n {
        false
    } else if p.get_char(from) == '.' {
        true
    } else {
        scan_dot(p, from + 1, n)
    }
}

/// How the path of a request line classifies, before any disk lookup.
pub enum PathClass {
    /// The line has no second token; no path was requested.
    NoPath,
    /// The path contains `..` and is rejected.
    Traversal,
    /// The path is the bare root `/`.
    Root,
    /// Any other path; the candidate file to look up on disk.
    Candidate(String),
}

/// Classifies the path of request line `s`.
pub fn classify_path(s: &str) -> (r: PathClass)
    ensures
        match r {
            PathClass::NoPath => request_path(s@) is None,
            PathClass::Traversal => request_path(s@) is Some && contains_dotdot(
                request_path(s@).unwrap(),
            ),
            PathClass::Root => request_path(s@) is Some && !contains_dotdot(
                request_path(s@).unwrap(),
            ) && request_path(s@).unwrap() == "/"@,
            PathClass::Candidate(c) => request_path(s@) is Some && !contains_dotdot(
                request_path(s@).unwrap(),
            ) && request_path(s@).unwrap() != "/"@ && c@ == candidate_of(
                request_path(s@).unwrap(),
            ),
        },
{
    let n = s.unicode_len();
    let i0 = scan_skip_ws(s, 0, n);
    let i1 = scan_token_end(s, i0, n);
    let ps = scan_skip_ws(s, i1, n);
    if ps == n {
        return PathClass::NoPath;
    }
    let pe = scan_token_end(s, ps, n);
    let path = s.substring_char(ps, pe);
    let ghost p = request_path(s@).unwrap();
    assert(path@ == p);
    let pn = pe - ps;
    assert(pn == path@.len());
    if scan_dotdot(path, 0, pn) {
        return PathClass::Traversal;
    }
    if pn == 1 && path.get_char(0) == '/' {
        proof {
            reveal_strlit("/");
            assert(path@ =~= "/"@);
        }
        return PathClass::Root;
    }
    proof {
        reveal_strlit("/");
        if p == "/"@ {
            assert(p.len() == 1 && p[0] == '/');
            assert(false);
        }
    }
    let full = String::from_str("public").concat(path);
    assert(full@ == "public"@ + p);
    let fl = full.as_str().unicode_len();
    let fstart = scan_file_name_start(full.as_str(), fl, fl);
    assert(full@.subrange(0, fl as int) =~= full@);
    let hext = if fstart < fl {
        scan_dot(full.as_str(), fstart + 1, fl)
    } else {
        assert(!dot_at_or_after(full@, fstart + 1));
        false
    };
    assert(hext == has_extension(full@));
    if hext {
        PathClass::Candidate(full)
    } else {
        PathClass::Candidate(full.concat(".html"))
    }
}

/// Returns the status line and file path served for the given request line.
///
/// `exists_on_disk` says whether the candidate file (the one
/// [`candidate_filename`] returns) exists; it is ignored when no disk lookup
/// is needed.  Handles the rejection of `..` paths, the landing page for the
/// bare root, and the not-found fallback.
pub fn status_filename(response: String, exists_on_disk: bool) -> (r: (String, String))
    ensures
        r.0@ == spec_resolution(response@, exists_on_disk).0,
        r.1@ == spec_resolution(response@, exists_on_disk).1,
{
    match classify_path(response.as_str()) {
        PathClass::NoPath => ("HTTP/1.1 404".to_owned(), "public/404.html".to_owned()),
        PathClass::Traversal => (
            ErrorPage::PermissionDenied.status(),
            ErrorPage::PermissionDenied.path(),
        ),
        PathClass::Root => ("HTTP/1.1 200 OK".to_owned(), "public/welcome.html".to_owned()),
        PathClass::Candidate(c) => if exists_on_disk {
            ("HTTP/1.1 200 OK".to_owned(), c)
        } else {
            (ErrorPage::NotFound.status(), ErrorPage::NotFound.path())
        },
    }
}

/// Returns the file path whose existence on disk decides the response for
/// this request line, or `None` when the response needs no disk lookup.
pub fn candidate_filename(response: &String) -> (r: Option<String>)
    ensures
        match r {
            Option::Some(c) => spec_candidate(response@) == Option::Some(c@),
            Option::None => spec_candidate(response@) is None,
        },
{
    match classify_path(response.as_str()) {
        PathClass::Candidate(c) => Option::Some(c),
        PathClass::NoPath => Option::None,
        PathClass::Traversal => Option::None,
        PathClass::Root => Option::None,
    }
}

/// The content type assigned to a file path: a pure function of the path,
/// drawn from a fixed table of media types keyed by file extension.
pub uninterp spec fn mime_of(path: Seq<char>) -> Seq<char>;

/// Relies on `mime_guess::from_path(..).first_or_octet_stream()` and the
/// `Display` of `mime::Mime`: the guess looks the path's extension up in a
/// fixed table of ASCII media-type literals, falling back to
/// `application/octet-stream`, so its text depends on the path alone, is
/// never empty, and holds no control character.
#[verifier::external_body]
fn guess_mime(path: &String) -> (r: String)
    ensures
        r@ == mime_of(path@),
        is_ascii_chars(r@),
        line_safe(r@),
        r@.len() > 0,
{
    mime_guess::from_path(path.as_str()).first_or_octet_stream().to_string()
}

/// An assembled response, before serialization.
pub struct HttpResponse {
    /// The status line, without its trailing CRLF.
    pub status: String,
    /// The value of the `Content-Type` header.
    pub content_type: String,
    /// The body bytes.
    pub body: Vec<u8>,
}

/// What the worker's disk read produced for a request.
pub enum FileRead {
    /// The resolved file was read; its bytes.
    Content(Vec<u8>),
    /// Reading the resolved file failed; in its place, the bytes of the
    /// internal-error page.
    Fallback(Vec<u8>),
}

/// The status line of the response for request line `s`: the resolution's
/// status, unless the read fell back to the internal-error page.
pub open spec fn spec_response_status(s: Seq<char>, exists_on_disk: bool, read: FileRead) -> Seq<
    char,
> {
    match read {
        FileRead::Content(_) => spec_resolution(s, exists_on_disk).0,
        FileRead::Fallback(_) => ErrorPage::InternalServerError.spec_status(),
    }
}

/// The content type of the response for request line `s`: that of the file
/// the resolution named, or of the internal-error page on a fallback.
pub open spec fn spec_response_type(s: Seq<char>, exists_on_disk: bool, read: FileRead) -> Seq<
    char,
> {
    match read {
        FileRead::Content(_) => mime_of(spec_resolution(s, exists_on_disk).1),
        FileRead::Fallback(_) => mime_of(ErrorPage::InternalServerError.spec_path()),
    }
}

/// The body of the response: the bytes the read produced, untouched.
pub open spec fn spec_response_body(read: FileRead) -> Seq<u8> {
    match read {
        FileRead::Content(b) => b@,
        FileRead::Fallback(b) => b@,
    }
}

/// Every status line this module produces is ASCII and free of CR and LF.
proof fn lemma_status_text_safe()
    ensures
        is_ascii_chars("HTTP/1.1 404"@) && line_safe("HTTP/1.1 404"@),
        is_ascii_chars("HTTP/1.1 200 OK"@) && line_safe("HTTP/1.1 200 OK"@),
        is_ascii_chars("HTTP/1.1 404 NOT FOUND"@) && line_safe("HTTP/1.1 404 NOT FOUND"@),
        is_ascii_chars("HTTP/1.1 403 PERMISSION DENIED"@) && line_safe(
            "HTTP/1.1 403 PERMISSION DENIED"@,
        ),
        is_ascii_chars("HTTP/1.1 500 INTERNAL SERVER ERROR"@) && line_safe(
            "HTTP/1.1 500 INTERNAL SERVER ERROR"@,
        ),
{
    reveal_strlit("HTTP/1.1 404");
    reveal_strlit("HTTP/1.1 200 OK");
    reveal_strlit("HTTP/1.1 404 NOT FOUND");
    reveal_strlit("HTTP/1.1 403 PERMISSION DENIED");
    reveal_strlit("HTTP/1.1 500 INTERNAL SERVER ERROR");
}

/// Builds the response record for a request line: the resolved status, the
/// content type of the file that was read, and the body bytes as read.
pub fn create_http_response(response: String, exists_on_disk: bool, read: FileRead) -> (r:
    HttpResponse)
    ensures
        r.status@ == spec_response_status(response@, exists_on_disk, read),
        r.content_type@ == spec_response_type(response@, exists_on_disk, read),
        r.body@ == spec_response_body(read),
        is_ascii_chars(r.status@) && line_safe(r.status@),
        is_ascii_chars(r.content_type@) && line_safe(r.content_type@),
{
    proof {
        lemma_status_text_safe();
    }
    match read {
        FileRead::Content(bytes) => {
            let (status, filename) = status_filename(response, exists_on_disk);
            let content_type = guess_mime(&filename);
            HttpResponse { status, content_type, body: bytes }
        },
        FileRead::Fallback(bytes) => {
            let status = ErrorPage::InternalServerError.status();
            let filename = ErrorPage::InternalServerError.path();
            let content_type = guess_mime(&filename);
            HttpResponse { status, content_type, body: bytes }
        },
    }
}

/// Serializes an assembled response into its wire bytes.
pub fn build_response(http_response: HttpResponse) -> (r: Vec<u8>)
    requires
        is_ascii_chars(http_response.status@),
        is_ascii_chars(http_response.content_type@),
    ensures
        r@ == response_wire_bytes(
            http_response.status@,
            http_response.content_type@,
            http_response.body@,
        ),
{
    let HttpResponse { status, content_type, body } = http_response;
    serialize_response(&status, &content_type, body)
}

/// The full wire bytes of the response for request line `s`, given what the
/// disk lookup and read produced.
pub open spec fn spec_handler_bytes(s: Seq<char>, exists_on_disk: bool, read: FileRead) -> Seq<
    u8,
> {
    response_wire_bytes(
        spec_response_status(s, exists_on_disk, read),
        spec_response_type(s, exists_on_disk, read),
        spec_response_body(read),
    )
}

/// Answers a request line with complete wire bytes: status line, exact
/// `Content-Length` and `Content-Type` headers, blank line, body.
///
/// `exists_on_disk` and `read` carry what the file system said about the
/// resolved file; see [`candidate_filename`] and [`status_filename`].
pub fn http_handler(response: String, exists_on_disk: bool, read: FileRead) -> (r: Vec<u8>)
    ensures
        r@ == spec_handler_bytes(response@, exists_on_disk, read),
{
    let http_response = create_http_response(response, exists_on_disk, read);
    build_response(http_response)
}

/// Law: a request whose path is the bare root resolves to a success status
/// and the landing page, whatever the disk holds.
pub proof fn lemma_root_request(s: Seq<char>, exists_on_disk: bool)
    requires
        request_path(s) == Option::Some("/"@),
    ensures
        spec_resolution(s, exists_on_disk).0 == "HTTP/1.1 200 OK"@,
        spec_resolution(s, exists_on_disk).1 == "public/welcome.html"@,
{
    reveal_strlit("/");
    assert(!contains_dotdot("/"@));
}

/// Law: a request whose path contains `..` resolves to the
/// permission-denied rejection, and names no file to read: a traversal path
/// never reaches the disk, whatever it would point at.
pub proof fn lemma_traversal_rejected(s: Seq<char>, exists_on_disk: bool)
    requires
        request_path(s) is Some,
        contains_dotdot(request_path(s).unwrap()),
    ensures
        spec_resolution(s, exists_on_disk).0 == ErrorPage::PermissionDenied.spec_status(),
        spec_resolution(s, exists_on_disk).1 == ErrorPage::PermissionDenied.spec_path(),
        spec_candidate(s) is None,
{
}

} // verus!
