//! Extraction of opaque identifiers from nested JSON response bodies, as
//! explicit path walks that name the missing segment in a typed error and
//! never panic. The JSON document itself is an opaque outside value; what
//! parsing and member lookup return is named, and the walk is verified
//! against those names.

use vstd::prelude::*;
use crate::text::{dec_str, u64_to_string};

verus! {

#[verifier::external_type_specification]
#[verifier::external_body]
pub struct ExJsonValue(serde_json::Value);

/// What `serde_json::from_str` yields for a text: a function of the text
/// alone, with no document for invalid JSON.
pub uninterp spec fn json_parsed(s: Seq<char>) -> Option<serde_json::Value>;

/// The member of a JSON value under an object key, if any.
pub uninterp spec fn json_member(v: serde_json::Value, key: Seq<char>) -> Option<serde_json::Value>;

/// The element of a JSON value at an array index, if any.
pub uninterp spec fn json_element(v: serde_json::Value, i: int) -> Option<serde_json::Value>;

/// The text of a JSON string value, if it is one.
pub uninterp spec fn json_text(v: serde_json::Value) -> Option<Seq<char>>;

/// Relies on serde_json::from_str::<Value>: whether a text parses as JSON,
/// and as what document, depends on the text alone.
#[verifier::external_body]
pub(crate) fn parse_json(s: &str) -> (r: Option<serde_json::Value>)
    ensures
        r == json_parsed(s@),
{
    serde_json::from_str(s).ok()
}

/// Relies on serde_json::Value::get with a string index: the member under a
/// key of an object value, a function of the document and the key alone.
#[verifier::external_body]
pub(crate) fn json_get_member<'a>(v: &'a serde_json::Value, key: &str) -> (r: Option<&'a serde_json::Value>)
    ensures
        match r {
            Some(c) => json_member(*v, key@) == Some(*c),
            None => json_member(*v, key@) is None,
        },
{
    v.get(key)
}

/// Relies on serde_json::Value::get with a numeric index: the element at an
/// index of an array value, a function of the document and the index alone.
#[verifier::external_body]
pub(crate) fn json_get_element<'a>(v: &'a serde_json::Value, i: usize) -> (r: Option<&'a serde_json::Value>)
    ensures
        match r {
            Some(c) => json_element(*v, i as int) == Some(*c),
            None => json_element(*v, i as int) is None,
        },
{
    v.get(i)
}

/// Relies on serde_json::Value::as_str: the text of a string value, a
/// function of the document alone.
#[verifier::external_body]
pub(crate) fn json_as_text(v: &serde_json::Value) -> (r: Option<String>)
    ensures
        match r {
            Some(s) => json_text(*v) == Some(s@),
            None => json_text(*v) is None,
        },
{
    match v.as_str() {
        Some(s) => Some(s.to_owned()),
        None => None,
    }
}

/// One step of a fixed extraction path: an object key or an array index.
pub enum PathSeg {
    Key(String),
    Index(usize),
}

/// The mathematical model of a path step.
pub enum PathSegV {
    Key(Seq<char>),
    Index(int),
}

impl View for PathSeg {
    type V = PathSegV;

    open spec fn view(&self) -> PathSegV {
        match self {
            PathSeg::Key(k) => PathSegV::Key(k@),
            PathSeg::Index(i) => PathSegV::Index(*i as int),
        }
    }
}

/// The models of a path.
pub open spec fn path_view(path: Seq<PathSeg>) -> Seq<PathSegV> {
    path.map_values(|s: PathSeg| s@)
}

/// The text a path step is reported by in an error.
pub open spec fn seg_text(seg: PathSegV) -> Seq<char> {
    match seg {
        PathSegV::Key(k) => k,
        PathSegV::Index(i) => dec_str(i),
    }
}

/// The child a step leads to, if present.
pub open spec fn seg_child(v: serde_json::Value, seg: PathSegV) -> Option<serde_json::Value> {
    match seg {
        PathSegV::Key(k) => json_member(v, k),
        PathSegV::Index(i) => json_element(v, i),
    }
}

/// The value a whole path leads to, if every step is present.
pub open spec fn walk_path(v: serde_json::Value, path: Seq<PathSegV>) -> Option<serde_json::Value>
    decreases path.len(),
{
    if path.len() == 0 {
        Some(v)
    } else {
        match seg_child(v, path.first()) {
            None => None,
            Some(c) => walk_path(c, path.drop_first()),
        }
    }
}

/// The index of the first absent step (the path's length if none is).
pub open spec fn first_missing(v: serde_json::Value, path: Seq<PathSegV>) -> int
    decreases path.len(),
{
    if path.len() == 0 {
        0
    } else {
        match seg_child(v, path.first()) {
            None => 0,
            Some(c) => 1 + first_missing(c, path.drop_first()),
        }
    }
}

/// How the path of a string value is reported when the final value is not a
/// string: by the last step walked, or by nothing for an empty path.
pub open spec fn terminal_seg(path: Seq<PathSegV>) -> Seq<char> {
    if path.len() > 0 {
        seg_text(path.last())
    } else {
        Seq::empty()
    }
}

/// A failure while driving the remote export protocol.
#[derive(Debug)]
pub enum ProtocolError {
    /// The embed page held no configuration element.
    MissingElement,
    /// A response body did not parse as JSON.
    MalformedJson,
    /// The configuration blob lacked a required field, or held it with an
    /// unexpected type.
    MissingField { field: String },
    /// A fixed extraction path broke at the named segment.
    UnexpectedShape { segment: String },
}

/// The mathematical model of a protocol failure.
pub enum ProtocolErrorV {
    MissingElement,
    MalformedJson,
    MissingField { field: Seq<char> },
    UnexpectedShape { segment: Seq<char> },
}

impl View for ProtocolError {
    type V = ProtocolErrorV;

    open spec fn view(&self) -> ProtocolErrorV {
        match self {
            ProtocolError::MissingElement => ProtocolErrorV::MissingElement,
            ProtocolError::MalformedJson => ProtocolErrorV::MalformedJson,
            ProtocolError::MissingField { field } => ProtocolErrorV::MissingField {
                field: field@,
            },
            ProtocolError::UnexpectedShape { segment } => ProtocolErrorV::UnexpectedShape {
                segment: segment@,
            },
        }
    }
}

impl ProtocolError {
    /// A short description of the failure, for reporting.
    pub fn describe(&self) -> String {
        match self {
            ProtocolError::MissingElement => {
                "embed page holds no configuration element".to_owned()
            },
            ProtocolError::MalformedJson => "response body is not valid JSON".to_owned(),
            ProtocolError::MissingField { field: _ } => {
                "configuration blob lacks a required field".to_owned()
            },
            ProtocolError::UnexpectedShape { segment: _ } => {
                "response shape broke at a path segment".to_owned()
            },
        }
    }
}

/// What extracting the string at a fixed path from a parsed document yields:
/// the string, or an error naming the first absent segment, or the last
/// segment when the value there is not a string.
pub open spec fn string_at_path_spec(root: serde_json::Value, path: Seq<PathSegV>) -> Result<
    Seq<char>,
    ProtocolErrorV,
> {
    match walk_path(root, path) {
        None => Err(
            ProtocolErrorV::UnexpectedShape {
                segment: seg_text(path[first_missing(root, path)]),
            },
        ),
        Some(v) => match json_text(v) {
            None => Err(ProtocolErrorV::UnexpectedShape { segment: terminal_seg(path) }),
            Some(t) => Ok(t),
        },
    }
}

/// Walks a fixed path into a parsed document and takes the string at its
/// end, reporting the first absent segment on failure.
pub fn extract_string_at(root: &serde_json::Value, path: &Vec<PathSeg>) -> (r: Result<
    String,
    ProtocolError,
>)
    ensures
        match r {
            Ok(s) => string_at_path_spec(*root, path_view(path@)) == Ok::<
                Seq<char>,
                ProtocolErrorV,
            >(s@),
            Err(e) => string_at_path_spec(*root, path_view(path@)) == Err::<
                Seq<char>,
                ProtocolErrorV,
            >(e@),
        },
{
    let ghost pv = path_view(path@);
    let n = path.len();
    let mut cur: &serde_json::Value = root;
    let mut i: usize = 0;
    proof {
        assert(pv.skip(0) =~= pv);
    }
    while i < n
        invariant
            0 <= i <= n,
            n == path@.len(),
            pv == path_view(path@),
            pv.len() == n,
            walk_path(*root, pv) == walk_path(*cur, pv.skip(i as int)),
            first_missing(*root, pv) == i + first_missing(*cur, pv.skip(i as int)),
        decreases n - i,
    {
        proof {
            assert(pv.skip(i as int).first() == pv[i as int]);
            assert(pv[i as int] == path@[i as int]@);
            assert(pv.skip(i as int).drop_first() =~= pv.skip(i + 1));
        }
        let child = match &path[i] {
            PathSeg::Key(k) => json_get_member(cur, k.as_str()),
            PathSeg::Index(ix) => json_get_element(cur, *ix),
        };
        match child {
            Some(c) => {
                cur = c;
            },
            None => {
                proof {
                    assert(seg_child(*cur, pv[i as int]) is None);
                    assert(first_missing(*cur, pv.skip(i as int)) == 0);
                    assert(first_missing(*root, pv) == i);
                    assert(walk_path(*root, pv) is None);
                }
                let segment = match &path[i] {
                    PathSeg::Key(k) => k.clone(),
                    PathSeg::Index(ix) => u64_to_string(*ix as u64),
                };
                return Err(ProtocolError::UnexpectedShape { segment });
            },
        }
        i += 1;
    }
    proof {
        assert(pv.skip(n as int) =~= Seq::<PathSegV>::empty());
        assert(walk_path(*root, pv) == Some(*cur));
    }
    match json_as_text(cur) {
        Some(s) => Ok(s),
        None => {
            let segment = if path.len() > 0 {
                proof {
                    assert(pv.last() == path@[n - 1]@);
                }
                match &path[n - 1] {
                    PathSeg::Key(k) => k.clone(),
                    PathSeg::Index(ix) => u64_to_string(*ix as u64),
                }
            } else {
                String::new()
            };
            Err(ProtocolError::UnexpectedShape { segment })
        },
    }
}

/// What the session-id extraction yields for a configuration blob: the
/// `sessionid` string of the parsed blob, or the error that names what was
/// absent.
pub open spec fn config_session_spec(blob: Seq<char>) -> Result<Seq<char>, ProtocolErrorV> {
    match json_parsed(blob) {
        None => Err(ProtocolErrorV::MalformedJson),
        Some(root) => match json_member(root, "sessionid"@) {
            None => Err(ProtocolErrorV::MissingField { field: "sessionid"@ }),
            Some(v) => match json_text(v) {
                None => Err(ProtocolErrorV::MissingField { field: "sessionid"@ }),
                Some(t) => Ok(t),
            },
        },
    }
}

/// Reads the session identifier out of the embed page's configuration blob.
pub fn session_id_from_config(blob: &str) -> (r: Result<String, ProtocolError>)
    ensures
        match r {
            Ok(s) => config_session_spec(blob@) == Ok::<Seq<char>, ProtocolErrorV>(s@),
            Err(e) => config_session_spec(blob@) == Err::<Seq<char>, ProtocolErrorV>(e@),
        },
{
    let root = match parse_json(blob) {
        Some(root) => root,
        None => {
            return Err(ProtocolError::MalformedJson);
        },
    };
    let field = match json_get_member(&root, "sessionid") {
        Some(v) => v,
        None => {
            return Err(ProtocolError::MissingField { field: "sessionid".to_owned() });
        },
    };
    match json_as_text(field) {
        Some(s) => Ok(s),
        None => Err(ProtocolError::MissingField { field: "sessionid".to_owned() }),
    }
}

/// What the first match of a CSS selector holds: for a fixed document and
/// selector, a function of the two texts alone.
pub uninterp spec fn selected_inner_html(html: Seq<char>, selector: Seq<char>) -> Option<Seq<char>>;

/// Relies on scraper: parsing a document (Html::parse_document), compiling
/// a selector (Selector::parse) and taking the first match's inner HTML
/// (ElementRef::inner_html) depend on the two texts alone; an uncompilable
/// selector selects nothing.
#[verifier::external_body]
fn select_first_inner_html(html: &str, selector: &str) -> (r: Option<String>)
    ensures
        match r {
            Some(s) => selected_inner_html(html@, selector@) == Some(s@),
            None => selected_inner_html(html@, selector@) is None,
        },
{
    let document = scraper::Html::parse_document(html);
    let compiled = scraper::Selector::parse(selector).ok()?;
    let element = document.select(&compiled).next()?;
    Some(element.inner_html())
}

/// What acquiring a session from the embed page yields: the `sessionid` of
/// the configuration blob in the page's `#tsConfigContainer` element, or
/// the error naming what was absent.
pub open spec fn session_id_spec(html: Seq<char>) -> Result<Seq<char>, ProtocolErrorV> {
    match selected_inner_html(html, "#tsConfigContainer"@) {
        None => Err(ProtocolErrorV::MissingElement),
        Some(blob) => config_session_spec(blob),
    }
}

/// Reads the session identifier out of the dashboard's embed page.
pub fn session_id_from_page(html: &str) -> (r: Result<String, ProtocolError>)
    ensures
        match r {
            Ok(s) => session_id_spec(html@) == Ok::<Seq<char>, ProtocolErrorV>(s@),
            Err(e) => session_id_spec(html@) == Err::<Seq<char>, ProtocolErrorV>(e@),
        },
{
    match select_first_inner_html(html, "#tsConfigContainer") {
        None => Err(ProtocolError::MissingElement),
        Some(blob) => session_id_from_config(blob.as_str()),
    }
}

} // verus!
