//! The request side of the engine: method and version tokens, the
//! request-line and header-line grammars, and a parser from a raw text
//! buffer to a structured request.  Parsing never fails: an input
//! without a recognizable request line leaves the defaults in place.

use crate::headers::HeaderMap;
use crate::headers::HeaderPair;
use crate::headers::spec_headers_contain;
use crate::text::spec_first_index;
use crate::text::spec_lines;
use crate::text::spec_split;
use crate::text::spec_trim;
use vstd::prelude::*;
use vstd::string::StrSliceExecFns;

verus! {

/// The request methods the engine recognizes on a request line.
/// `Uninitialized` is the fallback for any other token; it is a valid
/// value, routed downstream as "not found", never an error.
#[derive(Debug, PartialEq, Eq, Structural, Clone, Copy)]
pub enum Method {
    Get,
    Post,
    Uninitialized,
}

/// The method denoted by a token: `GET`, `POST`, or the fallback.
pub open spec fn spec_method_of(t: Seq<char>) -> Method {
    if t == "GET"@ {
        Method::Get
    } else if t == "POST"@ {
        Method::Post
    } else {
        Method::Uninitialized
    }
}

impl From<&str> for Method {
    fn from(s: &str) -> (m: Method) {
        if crate::text::str_eq(s, "GET") {
            Method::Get
        } else if crate::text::str_eq(s, "POST") {
            Method::Post
        } else {
            Method::Uninitialized
        }
    }
}

impl vstd::std_specs::convert::FromSpecImpl<&str> for Method {
    open spec fn obeys_from_spec() -> bool {
        true
    }

    open spec fn from_spec(v: &str) -> Method {
        spec_method_of(v@)
    }
}

/// The protocol versions the engine recognizes.  `Uninitialized` is the
/// fallback for any other token and serializes to a placeholder literal.
#[derive(Debug, PartialEq, Eq, Structural, Clone, Copy)]
pub enum Version {
    V1_0,
    V1_1,
    V2_0,
    Uninitialized,
}

/// The version denoted by a token, with the fallback for anything else.
pub open spec fn spec_version_of(t: Seq<char>) -> Version {
    if t == "HTTP/1.0"@ {
        Version::V1_0
    } else if t == "HTTP/1.1"@ {
        Version::V1_1
    } else if t == "HTTP/2.0"@ {
        Version::V2_0
    } else {
        Version::Uninitialized
    }
}

/// The literal a version serializes to; `Uninitialized` gets a
/// placeholder rather than failing.
pub open spec fn spec_version_literal(v: Version) -> Seq<char> {
    match v {
        Version::V1_0 => "HTTP/1.0"@,
        Version::V1_1 => "HTTP/1.1"@,
        Version::V2_0 => "HTTP/2.0"@,
        Version::Uninitialized => "HTTP/Uninitialized"@,
    }
}

impl From<&str> for Version {
    fn from(s: &str) -> (v: Version) {
        if crate::text::str_eq(s, "HTTP/1.0") {
            Version::V1_0
        } else if crate::text::str_eq(s, "HTTP/1.1") {
            Version::V1_1
        } else if crate::text::str_eq(s, "HTTP/2.0") {
            Version::V2_0
        } else {
            Version::Uninitialized
        }
    }
}

impl vstd::std_specs::convert::FromSpecImpl<&str> for Version {
    open spec fn obeys_from_spec() -> bool {
        true
    }

    open spec fn from_spec(v: &str) -> Version {
        spec_version_of(v@)
    }
}

impl Version {
    /// The wire literal for this version.
    pub fn literal(&self) -> (s: String)
        ensures
            s@ == spec_version_literal(*self),
    {
        match self {
            Version::V1_0 => String::from_str("HTTP/1.0"),
            Version::V1_1 => String::from_str("HTTP/1.1"),
            Version::V2_0 => String::from_str("HTTP/2.0"),
            Version::Uninitialized => String::from_str("HTTP/Uninitialized"),
        }
    }
}

/// The target of a request: the path exactly as it appeared on the
/// request line, with no decoding or normalization.
#[derive(Debug)]
pub enum Rescourse {
    Path(String),
}

impl View for Rescourse {
    type V = Seq<char>;

    open spec fn view(&self) -> Seq<char> {
        match self {
            Rescourse::Path(s) => s@,
        }
    }
}

impl PartialEq for Rescourse {
    fn eq(&self, other: &Rescourse) -> (r: bool) {
        let Rescourse::Path(a) = self;
        let Rescourse::Path(b) = other;
        crate::text::str_eq(a.as_str(), b.as_str())
    }
}

impl vstd::std_specs::cmp::PartialEqSpecImpl for Rescourse {
    open spec fn obeys_eq_spec() -> bool {
        true
    }

    open spec fn eq_spec(&self, other: &Rescourse) -> bool {
        self@ == other@
    }
}

/// Characters allowed in a request target: alphanumerics, dots and
/// slashes.
pub open spec fn spec_is_path_char(c: char) -> bool {
    ('0' <= c && c <= '9') || ('a' <= c && c <= 'z') || ('A' <= c && c <= 'Z') || c == '.' || c
        == '/'
}

/// A well-formed target: a `/`-rooted run of path characters.
pub open spec fn spec_is_target(t: Seq<char>) -> bool {
    t.len() > 0 && t[0] == '/' && (forall|i: int| 0 <= i < t.len() ==> spec_is_path_char(#[trigger] t[i]))
}

/// A recognized method token.
pub open spec fn spec_is_method_token(t: Seq<char>) -> bool {
    t == "GET"@ || t == "POST"@
}

/// One of the four recognized version literals (the fourth being the
/// placeholder the fallback version serializes to).
pub open spec fn spec_is_version_token(t: Seq<char>) -> bool {
    t == "HTTP/1.0"@ || t == "HTTP/1.1"@ || t == "HTTP/2.0"@ || t == "HTTP/Uninitialized"@
}

/// The request-line pattern: exactly three space-separated fields —
/// a recognized method token, a rooted target, a recognized version
/// literal.
pub open spec fn spec_is_request_line(line: Seq<char>) -> bool {
    let f = spec_split(line, ' ');
    f.len() == 3 && spec_is_method_token(f[0]) && spec_is_target(f[1]) && spec_is_version_token(
        f[2],
    )
}

/// The header-line pattern: somewhere in the line, a colon followed by
/// a space followed by at least one further character.
pub open spec fn spec_is_header_line(line: Seq<char>) -> bool {
    exists|i: int| 0 <= i && i + 2 < line.len() && #[trigger] line[i] == ':' && line[i + 1] == ' '
}

fn is_path_char(c: char) -> (r: bool)
    ensures
        r == spec_is_path_char(c),
{
    ('0' <= c && c <= '9') || ('a' <= c && c <= 'z') || ('A' <= c && c <= 'Z') || c == '.' || c
        == '/'
}

fn is_target(t: &str) -> (r: bool)
    ensures
        r == spec_is_target(t@),
{
    let n = t.unicode_len();
    if n == 0 || t.get_char(0) != '/' {
        return false;
    }
    let mut i: usize = 0;
    while i < n
        invariant
            0 <= i <= n,
            n == t@.len(),
            forall|j: int| 0 <= j < i ==> spec_is_path_char(#[trigger] t@[j]),
        decreases n - i,
    {
        if !is_path_char(t.get_char(i)) {
            return false;
        }
        i = i + 1;
    }
    true
}

fn is_method_token(t: &str) -> (r: bool)
    ensures
        r == spec_is_method_token(t@),
{
    crate::text::str_eq(t, "GET") || crate::text::str_eq(t, "POST")
}

fn is_version_token(t: &str) -> (r: bool)
    ensures
        r == spec_is_version_token(t@),
{
    crate::text::str_eq(t, "HTTP/1.0") || crate::text::str_eq(t, "HTTP/1.1")
        || crate::text::str_eq(t, "HTTP/2.0") || crate::text::str_eq(t, "HTTP/Uninitialized")
}

/// Whether a line matches the request-line pattern.
pub fn is_request_line(line: &str) -> (r: bool)
    ensures
        r == spec_is_request_line(line@),
{
    let parts = crate::text::split_char(line, ' ');
    if parts.len() != 3 {
        return false;
    }
    assert(parts.deep_view()[0] == parts@[0]@);
    assert(parts.deep_view()[1] == parts@[1]@);
    assert(parts.deep_view()[2] == parts@[2]@);
    is_method_token(parts[0].as_str()) && is_target(parts[1].as_str()) && is_version_token(
        parts[2].as_str(),
    )
}

/// Whether a line matches the header-line pattern.
pub fn is_header_line(line: &str) -> (r: bool)
    ensures
        r == spec_is_header_line(line@),
{
    let n = line.unicode_len();
    let mut i: usize = 0;
    while i < n
        invariant
            0 <= i <= n,
            n == line@.len(),
            forall|j: int| 0 <= j < i ==> !(j + 2 < line@.len() && #[trigger] line@[j] == ':'
                && line@[j + 1] == ' '),
        decreases n - i,
    {
        if line.get_char(i) == ':' && n - i > 2 && line.get_char(i + 1) == ' ' {
            return true;
        }
        i = i + 1;
    }
    false
}

/// A request line that matched the pattern but did not split into the
/// three fields the pattern guarantees.  The parser proves this cannot
/// happen for a matched line; the error is surfaced rather than
/// aborting the process.
#[derive(Debug, PartialEq, Eq, Structural, Clone, Copy)]
pub struct RequestLineError;

/// Splits a request line into its method, target and version fields.
/// Any field count other than three is reported as an error; a line
/// that matched the request-line pattern always has exactly three.
pub fn process_request_line(line: &str) -> (r: Result<
    (Method, Rescourse, Version),
    RequestLineError,
>)
    ensures
        ({
            let f = spec_split(line@, ' ');
            &&& f.len() == 3 ==> (r matches Ok(t) && t.0 == spec_method_of(f[0]) && t.1@ == f[1]
                && t.2 == spec_version_of(f[2]))
            &&& f.len() != 3 ==> r is Err
        }),
{
    let mut parts = crate::text::split_char(line, ' ');
    if parts.len() != 3 {
        return Err(RequestLineError);
    }
    assert(parts.deep_view()[0] == parts@[0]@);
    assert(parts.deep_view()[1] == parts@[1]@);
    assert(parts.deep_view()[2] == parts@[2]@);
    let version_field = parts.pop().unwrap();
    let target_field = parts.pop().unwrap();
    let method_field = parts.pop().unwrap();
    let method = Method::from(method_field.as_str());
    let version = Version::from(version_field.as_str());
    Ok((method, Rescourse::Path(target_field), version))
}

/// The spec-level picture of a parsed request.
pub ghost struct ReqModel {
    pub mothod: Method,
    pub version: Version,
    pub resource: Seq<char>,
    pub headers: Seq<HeaderPair>,
    pub body: Option<Seq<char>>,
}

/// The state before any line has been seen: everything defaulted.
pub open spec fn spec_parse_init() -> ReqModel {
    ReqModel {
        mothod: Method::Uninitialized,
        version: Version::Uninitialized,
        resource: Seq::<char>::empty(),
        headers: Seq::<HeaderPair>::empty(),
        body: None,
    }
}

/// One line applied to the parse state, classified in priority order:
/// request line, then header line, then body candidate.  A duplicate
/// header key leaves the first value in place; a non-empty fallback
/// line replaces the body, an empty one clears it.
pub open spec fn spec_step(st: ReqModel, line: Seq<char>) -> ReqModel {
    if spec_is_request_line(line) {
        let f = spec_split(line, ' ');
        ReqModel {
            mothod: spec_method_of(f[0]),
            version: spec_version_of(f[2]),
            resource: f[1],
            headers: st.headers,
            body: st.body,
        }
    } else if spec_is_header_line(line) {
        let i = spec_first_index(line, ':');
        let k = spec_trim(line.take(i));
        let v = spec_trim(line.skip(i + 1));
        if spec_headers_contain(st.headers, k) {
            st
        } else {
            ReqModel {
                mothod: st.mothod,
                version: st.version,
                resource: st.resource,
                headers: st.headers.push((k, v)),
                body: st.body,
            }
        }
    } else if line.len() > 0 {
        ReqModel {
            mothod: st.mothod,
            version: st.version,
            resource: st.resource,
            headers: st.headers,
            body: Some(line),
        }
    } else {
        ReqModel {
            mothod: st.mothod,
            version: st.version,
            resource: st.resource,
            headers: st.headers,
            body: None,
        }
    }
}

pub open spec fn spec_parse_lines(ls: Seq<Seq<char>>) -> ReqModel
    decreases ls.len(),
{
    if ls.len() == 0 {
        spec_parse_init()
    } else {
        spec_step(spec_parse_lines(ls.drop_last()), ls.last())
    }
}

/// What parsing a raw buffer yields, line by line.
pub open spec fn spec_parse(s: Seq<char>) -> ReqModel {
    spec_parse_lines(spec_lines(s))
}

/// A single line made of a recognized method token, a rooted target and
/// a recognized version literal, joined by single spaces, parses to
/// exactly that method, target and version — `GET` and `POST` to their
/// variants, each version literal to its variant — with no headers and
/// no body.
pub proof fn lemma_parse_request_line(m_tok: Seq<char>, target: Seq<char>, v_tok: Seq<char>)
    requires
        spec_is_method_token(m_tok),
        spec_is_target(target),
        spec_is_version_token(v_tok),
    ensures
        ({
            let st = spec_parse(m_tok + seq![' '] + target + seq![' '] + v_tok);
            &&& st.mothod == spec_method_of(m_tok)
            &&& st.version == spec_version_of(v_tok)
            &&& st.resource == target
            &&& st.headers == Seq::<HeaderPair>::empty()
            &&& st.body == None::<Seq<char>>
            &&& (m_tok == "GET"@ ==> st.mothod == Method::Get)
            &&& (m_tok == "POST"@ ==> st.mothod == Method::Post)
            &&& (v_tok == "HTTP/1.0"@ ==> st.version == Version::V1_0)
            &&& (v_tok == "HTTP/1.1"@ ==> st.version == Version::V1_1)
            &&& (v_tok == "HTTP/2.0"@ ==> st.version == Version::V2_0)
        }),
{
    let line = m_tok + seq![' '] + target + seq![' '] + v_tok;
    reveal_strlit("GET");
    reveal_strlit("POST");
    reveal_strlit("HTTP/1.0");
    reveal_strlit("HTTP/1.1");
    reveal_strlit("HTTP/2.0");
    reveal_strlit("HTTP/Uninitialized");
    let m_len = m_tok.len() as int;
    let t_len = target.len() as int;
    let v_len = v_tok.len() as int;
    assert forall|j: int| 0 <= j < m_len implies m_tok[j] != ' ' && m_tok[j] != '\n' by {
        if m_tok == "GET"@ {
        } else {
            assert(m_tok == "POST"@);
        }
    }
    assert forall|j: int| 0 <= j < v_len implies v_tok[j] != ' ' && v_tok[j] != '\n' by {
        if v_tok == "HTTP/1.0"@ {
        } else if v_tok == "HTTP/1.1"@ {
        } else if v_tok == "HTTP/2.0"@ {
        } else {
            assert(v_tok == "HTTP/Uninitialized"@);
        }
    }
    assert(!spec_is_path_char(' '));
    assert(!spec_is_path_char('\n'));
    assert(!spec_is_path_char('\r'));
    assert forall|j: int| 0 <= j < t_len implies target[j] != ' ' && target[j] != '\n' by {
        assert(spec_is_path_char(target[j]));
    }
    // no line feed anywhere, so the whole input is one line
    assert(forall|j: int| 0 <= j < line.len() ==> #[trigger] line[j] != '\n');
    crate::text::lemma_first_index_at(line, '\n', line.len() as int);
    assert(v_tok[v_len - 1] != '\r') by {
        if v_tok == "HTTP/1.0"@ {
        } else if v_tok == "HTTP/1.1"@ {
        } else if v_tok == "HTTP/2.0"@ {
        } else {
            assert(v_tok == "HTTP/Uninitialized"@);
        }
    }
    assert(line[line.len() - 1] == v_tok[v_len - 1]);
    assert(crate::text::spec_strip_cr(line) == line);
    assert(spec_lines(line) =~= seq![line]);
    // the split on spaces yields exactly the three fields
    assert(forall|j: int| 0 <= j < m_len ==> #[trigger] line[j] == m_tok[j]);
    assert(line[m_len] == ' ');
    crate::text::lemma_first_index_at(line, ' ', m_len);
    let rest = target + seq![' '] + v_tok;
    assert(line.take(m_len) =~= m_tok);
    assert(line.skip(m_len + 1) =~= rest);
    assert(forall|j: int| 0 <= j < t_len ==> #[trigger] rest[j] == target[j]);
    assert(rest[t_len] == ' ');
    crate::text::lemma_first_index_at(rest, ' ', t_len);
    assert(rest.take(t_len) =~= target);
    assert(rest.skip(t_len + 1) =~= v_tok);
    crate::text::lemma_first_index_at(v_tok, ' ', v_len);
    assert(spec_split(v_tok, ' ') == seq![v_tok]);
    assert(spec_split(rest, ' ') == seq![target] + spec_split(v_tok, ' '));
    assert(spec_split(line, ' ') == seq![m_tok] + spec_split(rest, ' '));
    let f = spec_split(line, ' ');
    assert(f =~= seq![m_tok, target, v_tok]);
    assert(spec_is_request_line(line));
    // one line, classified as the request line, applied to the defaults
    assert(seq![line].drop_last() =~= Seq::<Seq<char>>::empty());
    assert(seq![line].last() == line);
    assert(spec_parse_lines(Seq::<Seq<char>>::empty()) == spec_parse_init());
    assert(spec_parse_lines(seq![line]) == spec_step(spec_parse_init(), line));
    assert(spec_lines(line) == seq![line]);
    assert(spec_parse(line) == spec_step(spec_parse_init(), line));
    let st = spec_parse(line);
    assert(st.mothod == spec_method_of(f[0]));
    assert(f[0] == m_tok && f[1] == target && f[2] == v_tok);
    assert("HTTP/2.0"@[5] == '2' && "HTTP/1.0"@[5] == '1' && "HTTP/1.1"@[7] == '1');
    assert("HTTP/2.0"@ != "HTTP/1.0"@ && "HTTP/2.0"@ != "HTTP/1.1"@);
}

/// A line whose method or version token is unrecognized does not match
/// the request-line pattern, however well-formed the rest of it is.
pub proof fn lemma_unrecognized_token_line_rejected(line: Seq<char>)
    requires
        !spec_is_method_token(spec_split(line, ' ')[0]) || !spec_is_version_token(
            spec_split(line, ' ')[2],
        ),
    ensures
        !spec_is_request_line(line),
{
}

/// An input none of whose lines matches the request-line pattern — in
/// particular one whose method or version token is unrecognized —
/// parses to the defaults: method and version uninitialized and an
/// empty target, with no failure.
pub proof fn lemma_defaults_without_request_line(input: Seq<char>)
    requires
        forall|i: int|
            0 <= i < spec_lines(input).len() ==> !spec_is_request_line(
                #[trigger] spec_lines(input)[i],
            ),
    ensures
        spec_parse(input).mothod == Method::Uninitialized,
        spec_parse(input).version == Version::Uninitialized,
        spec_parse(input).resource == Seq::<char>::empty(),
{
    lemma_defaults_over_lines(spec_lines(input));
}

proof fn lemma_defaults_over_lines(ls: Seq<Seq<char>>)
    requires
        forall|i: int| 0 <= i < ls.len() ==> !spec_is_request_line(#[trigger] ls[i]),
    ensures
        spec_parse_lines(ls).mothod == Method::Uninitialized,
        spec_parse_lines(ls).version == Version::Uninitialized,
        spec_parse_lines(ls).resource == Seq::<char>::empty(),
    decreases ls.len(),
{
    if ls.len() > 0 {
        assert forall|i: int| 0 <= i < ls.drop_last().len() implies !spec_is_request_line(
            #[trigger] ls.drop_last()[i],
        ) by {
            assert(ls.drop_last()[i] == ls[i]);
        }
        lemma_defaults_over_lines(ls.drop_last());
        assert(!spec_is_request_line(ls.last()));
    }
}

/// One parse step never disturbs a header key that already has a
/// value: a request line leaves the map alone, a duplicate header line
/// is dropped, and a fresh header line only appends.
proof fn lemma_step_keeps_header(st: ReqModel, line: Seq<char>, k: Seq<char>)
    requires
        crate::headers::spec_lookup(st.headers, k) is Some,
    ensures
        crate::headers::spec_lookup(spec_step(st, line).headers, k) == crate::headers::spec_lookup(
            st.headers,
            k,
        ),
{
    if !spec_is_request_line(line) && spec_is_header_line(line) {
        let i = spec_first_index(line, ':');
        let key = spec_trim(line.take(i));
        let v = spec_trim(line.skip(i + 1));
        crate::headers::lemma_lookup_contains(st.headers, key);
        if !spec_headers_contain(st.headers, key) {
            crate::headers::lemma_lookup_push(st.headers, (key, v), k);
        }
    }
}

/// The parser's duplicate-header rule over whole inputs: once the lines
/// seen so far have given a header key its value, the remaining lines
/// never change it — the first occurrence wins for the whole parse.
pub proof fn lemma_first_header_occurrence_wins(ls: Seq<Seq<char>>, i: int, k: Seq<char>)
    requires
        0 <= i <= ls.len(),
        crate::headers::spec_lookup(spec_parse_lines(ls.take(i)).headers, k) is Some,
    ensures
        crate::headers::spec_lookup(spec_parse_lines(ls).headers, k)
            == crate::headers::spec_lookup(spec_parse_lines(ls.take(i)).headers, k),
    decreases ls.len() - i,
{
    if i < ls.len() {
        let st = spec_parse_lines(ls.take(i));
        assert(ls.take(i + 1).drop_last() =~= ls.take(i));
        assert(ls.take(i + 1).last() == ls[i]);
        assert(spec_parse_lines(ls.take(i + 1)) == spec_step(st, ls[i]));
        lemma_step_keeps_header(st, ls[i], k);
        lemma_first_header_occurrence_wins(ls, i + 1, k);
    } else {
        assert(ls.take(i) =~= ls);
    }
}

/// A structured request: method, version, target, header map, optional
/// body.  Built only by `parse`, which never fails.
#[derive(Debug)]
pub struct HttpRequest {
    pub mothod: Method,
    pub version: Version,
    pub resource: Rescourse,
    pub headers: HeaderMap,
    pub body: Option<String>,
}

impl View for HttpRequest {
    type V = ReqModel;

    open spec fn view(&self) -> ReqModel {
        ReqModel {
            mothod: self.mothod,
            version: self.version,
            resource: self.resource@,
            headers: self.headers@,
            body: self.body.deep_view(),
        }
    }
}

impl HttpRequest {
    /// Parses a raw text buffer into a request.  Total: malformed lines
    /// degrade to defaults, a duplicate header keeps its first value,
    /// and the last non-empty unclassified line becomes the body.
    pub fn parse(raw: &str) -> (req: HttpRequest)
        ensures
            req@ == spec_parse(raw@),
            req.headers.wf(),
    {
        let mut parsed_method = Method::Uninitialized;
        let mut parsed_version = Version::Uninitialized;
        let mut parsed_resource = Rescourse::Path(String::new());
        let mut parsed_headers = HeaderMap::new();
        let mut parsed_body: Option<String> = None;

        let lines = crate::text::split_lines(raw);
        let n = lines.len();
        let ghost all = lines.deep_view();
        let mut i: usize = 0;
        proof {
            assert(all.take(0) =~= Seq::<Seq<char>>::empty());
        }
        while i < n
            invariant
                0 <= i <= n,
                n == all.len(),
                all == lines.deep_view(),
                all == spec_lines(raw@),
                parsed_headers.wf(),
                ({
                    let st = spec_parse_lines(all.take(i as int));
                    &&& parsed_method == st.mothod
                    &&& parsed_version == st.version
                    &&& parsed_resource@ == st.resource
                    &&& parsed_headers@ == st.headers
                    &&& parsed_body.deep_view() == st.body
                }),
            decreases n - i,
        {
            let ghost st = spec_parse_lines(all.take(i as int));
            let line = lines[i].as_str();
            assert(lines.deep_view()[i as int] == lines@[i as int]@);
            assert(line@ == all[i as int]);
            if is_request_line(line) {
                match process_request_line(line) {
                    Ok((m, resrc, v)) => {
                        parsed_method = m;
                        parsed_resource = resrc;
                        parsed_version = v;
                    },
                    Err(_) => {
                        // a line that matched the pattern has exactly three fields
                        proof {
                            assert(false);
                        }
                    },
                }
            } else if is_header_line(line) {
                let ci = match crate::text::find_char(line, ':') {
                    Some(ci) => ci,
                    // a line that matched the header pattern holds a colon
                    None => {
                        proof {
                            let w = choose|w: int|
                                0 <= w && w + 2 < line@.len() && #[trigger] line@[w] == ':'
                                    && line@[w + 1] == ' ';
                            crate::text::lemma_first_index_exists(line@, ':', w);
                            assert(false);
                        }
                        0
                    },
                };
                let line_len = line.unicode_len();
                proof {
                    crate::text::lemma_first_index_bounds(line@, ':');
                }
                let key = crate::text::trim(line.substring_char(0, ci));
                let value = crate::text::trim(line.substring_char(ci + 1, line_len));
                proof {
                    assert(line@.subrange(0, ci as int) =~= line@.take(ci as int));
                    assert(line@.subrange(ci + 1, line_len as int) =~= line@.skip(ci + 1));
                }
                parsed_headers.insert(key, value);
            } else if line.unicode_len() > 0 {
                parsed_body = Some(String::from_str(line));
            } else {
                parsed_body = None;
            }
            proof {
                assert(all.take(i + 1).drop_last() =~= all.take(i as int));
                assert(all.take(i + 1).last() == all[i as int]);
                assert(spec_parse_lines(all.take(i + 1)) == spec_step(st, all[i as int]));
            }
            i = i + 1;
        }
        proof {
            assert(all.take(n as int) =~= all);
        }
        HttpRequest {
            mothod: parsed_method,
            version: parsed_version,
            resource: parsed_resource,
            headers: parsed_headers,
            body: parsed_body,
        }
    }
}

} // verus!
