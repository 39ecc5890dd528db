//! Where the server is launched from, and which documents it gets.
//!
//! With a user override the launch location is the override path carried in a
//! `urn:` URL; without one it is the fixed `emmet` segment resolved against
//! the plugin's install-directory URL. The document selector is fixed
//! configuration, never derived from user input.

use vstd::prelude::*;
use vstd::string::StringExecFns;

use crate::platform::Os;

verus! {

#[verifier::external_type_specification]
#[verifier::external_body]
pub struct ExUrl(url::Url);

/// Whether `url::Url::parse` accepts a text. The outcome depends on the text
/// alone; the library does not restate the URL grammar.
pub uninterp spec fn spec_url_parse_ok(text: Seq<char>) -> bool;

/// The serialization of the URL that `url::Url::parse` returns on a text it
/// accepts; like the acceptance itself, a function of the text alone.
pub uninterp spec fn spec_url_text(text: Seq<char>) -> Seq<char>;

/// Relies on `url::Url::parse` and `url::Url::as_str`: parsing returns `Ok`
/// exactly on well-formed absolute URL texts, and both the URL and its
/// serialization depend on the text alone. The parsed URL comes back beside
/// its serialized text; the error is handed on as its rendered description.
#[verifier::external_body]
pub(crate) fn url_parse(text: &str) -> (r: Result<(url::Url, String), String>)
    ensures
        r is Ok <==> spec_url_parse_ok(text@),
        r matches Ok(p) ==> p.1@ == spec_url_text(text@),
{
    match url::Url::parse(text) {
        Ok(u) => {
            let serialized = u.as_str().to_owned();
            Ok((u, serialized))
        },
        Err(e) => Err(format!("{}", e)),
    }
}

/// Whether parsing a base text and resolving a relative segment against it
/// succeeds. Parse and join are each functions of their inputs alone, so the
/// composite outcome depends on the two texts alone.
pub uninterp spec fn spec_locate_ok(base: Seq<char>, segment: Seq<char>) -> bool;

/// The serialization of the URL that the segment resolves to against the
/// parsed base; a function of the two texts alone.
pub uninterp spec fn spec_locate_text(base: Seq<char>, segment: Seq<char>) -> Seq<char>;

/// Relies on `url::Url::parse`, `url::Url::join` and `url::Url::as_str`:
/// parsing the base and resolving the segment against it succeed or fail as a
/// function of the two texts alone, as is the resolved URL's serialization,
/// which comes back beside the URL. The error of either stage is handed on as
/// its rendered description.
#[verifier::external_body]
pub(crate) fn parse_and_join(base: &str, segment: &str) -> (r: Result<(url::Url, String), String>)
    ensures
        r is Ok <==> spec_locate_ok(base@, segment@),
        r matches Ok(p) ==> p.1@ == spec_locate_text(base@, segment@),
{
    match url::Url::parse(base) {
        Ok(u) => match u.join(segment) {
            Ok(joined) => {
                let serialized = joined.as_str().to_owned();
                Ok((joined, serialized))
            },
            Err(e) => Err(format!("{}", e)),
        },
        Err(e) => Err(format!("{}", e)),
    }
}

/// One filter of a document selector.
pub struct DocFilter {
    pub language: Option<String>,
    pub pattern: Option<String>,
    pub scheme: Option<String>,
}

/// The plugin's one fixed document-selector filter: language id "html",
/// pattern "**/*.{jsx,tsx}", no scheme.
pub open spec fn spec_is_selector(s: Seq<DocFilter>) -> bool {
    &&& s.len() == 1
    &&& s[0].language matches Some(l) && l@ == "html"@
    &&& s[0].pattern matches Some(p) && p@ == "**/*.{jsx,tsx}"@
    &&& s[0].scheme is None
}

pub fn document_selector() -> (r: Vec<DocFilter>)
    ensures
        spec_is_selector(r@),
{
    let filter = DocFilter {
        language: Some("html".to_owned()),
        pattern: Some("**/*.{jsx,tsx}".to_owned()),
        scheme: None,
    };
    let mut selector: Vec<DocFilter> = Vec::new();
    selector.push(filter);
    selector
}

/// The text the override path is parsed from: the path carried in a `urn:`
/// URL, taken as an opaque identifier rather than a filesystem path.
pub open spec fn spec_urn_text(path: Seq<char>) -> Seq<char> {
    "urn:"@ + path
}

pub fn urn_text(path: &str) -> (r: String)
    ensures
        r@ == spec_urn_text(path@),
{
    let mut text: String = "urn:".to_owned();
    text.append(path);
    text
}

/// The server's file name with the platform's executable suffix: Windows
/// adds ".exe", every other system leaves the name alone.
pub fn with_exe_suffix(name: &str, os: Os) -> (r: String)
    ensures
        os is Windows ==> r@ == name@ + ".exe"@,
        !(os is Windows) ==> r@ == name@,
{
    match os {
        Os::Windows => {
            let mut text: String = name.to_owned();
            text.append(".exe");
            text
        },
        _ => name.to_owned(),
    }
}

} // verus!
