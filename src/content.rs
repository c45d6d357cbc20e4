//! How a blob is served: its content type and its highlighted rendering.

use vstd::prelude::*;
use crate::error::GititError;

verus! {

#[verifier::external_type_specification]
#[verifier::external_body]
pub struct ExSyntaxSet(syntect::parsing::SyntaxSet);

#[verifier::external_type_specification]
#[verifier::external_body]
pub struct ExThemeSet(syntect::highlighting::ThemeSet);

/// What a route hands back: plain text, markup, or raw bytes with their
/// content type.
#[derive(Debug)]
pub enum HtmlOrRaw {
    String(String),
    Html(String),
    Raw(String, Vec<u8>),
}

/// Whether `s` begins with `p`.
pub open spec fn has_prefix(s: Seq<char>, p: Seq<char>) -> bool {
    p.len() <= s.len() && s.subrange(0, p.len() as int) == p
}

/// Tests whether `s` begins with `p`.
pub fn starts_with(s: &str, p: &str) -> (r: bool)
    ensures
        r == has_prefix(s@, p@),
{
    let n = s.unicode_len();
    let m = p.unicode_len();
    if m > n {
        return false;
    }
    let mut i: usize = 0;
    while i < m
        invariant
            n == s@.len(),
            m == p@.len(),
            m <= n,
            i <= m,
            forall|j: int| 0 <= j < i ==> s@[j] == p@[j],
        decreases m - i,
    {
        if s.get_char(i) != p.get_char(i) {
            assert(s@.subrange(0, m as int)[i as int] != p@[i as int]);
            return false;
        }
        i = i + 1;
    }
    assert(s@.subrange(0, m as int) =~= p@);
    true
}

pub open spec fn application_prefix() -> Seq<char> {
    seq!['a', 'p', 'p', 'l', 'i', 'c', 'a', 't', 'i', 'o', 'n', '/']
}

pub open spec fn octet_stream() -> Seq<char> {
    application_prefix() + seq!['o', 'c', 't', 'e', 't', '-', 's', 't', 'r', 'e', 'a', 'm']
}

/// The content type actually served for an inferred one: any `application/*`
/// type is narrowed to `application/octet-stream`, every other passes.
pub open spec fn served_mime(mime: Seq<char>) -> Seq<char> {
    if has_prefix(mime, application_prefix()) {
        octet_stream()
    } else {
        mime
    }
}

/// Narrows an inferred content type so that no `application/*` type is ever
/// served verbatim.
pub fn safe_mime(mime: &str) -> (r: String)
    ensures
        r@ == served_mime(mime@),
{
    let app = "application/";
    proof {
        reveal_strlit("application/");
        assert(app@ =~= application_prefix());
    }
    if starts_with(mime, app) {
        let r = String::from_str("application/octet-stream");
        proof {
            reveal_strlit("application/octet-stream");
        }
        assert(r@ =~= octet_stream());
        r
    } else {
        mime.to_owned()
    }
}

/// What `mime_guess` infers from a path's extension, as text.
pub uninterp spec fn guessed_mime(path: Seq<char>) -> Seq<char>;

/// Relies on `mime_guess::from_path(..).first_or_octet_stream()`: the first
/// type registered for the path's extension, `application/octet-stream` when
/// there is none; it depends on the path alone.
#[verifier::external_body]
fn guess_mime(path: &str) -> (r: String)
    ensures
        r@ == guessed_mime(path@),
{
    mime_guess::from_path(path).first_or_octet_stream().to_string()
}

/// The content type served for a binary blob at `path`.
pub fn content_type_for(path: &str) -> (r: String)
    ensures
        r@ == served_mime(guessed_mime(path@)),
{
    let guessed = guess_mime(path);
    safe_mime(guessed.as_str())
}

/// What the highlighter renders for `code` with the grammar that the
/// extension selects (plain text when none does), in the fixed theme.
pub uninterp spec fn highlighted_html(extension: Seq<char>, code: Seq<char>) -> Seq<char>;

/// Relies on `SyntaxSet::load_defaults_newlines`: syntect's bundled grammars.
#[verifier::external_body]
fn bundled_syntaxes() -> (r: syntect::parsing::SyntaxSet) {
    syntect::parsing::SyntaxSet::load_defaults_newlines()
}

/// Relies on `ThemeSet::load_defaults`: syntect's bundled themes.
#[verifier::external_body]
fn bundled_themes() -> (r: syntect::highlighting::ThemeSet) {
    syntect::highlighting::ThemeSet::load_defaults()
}

/// The grammars and themes, loaded once and shared by every call.
pub struct Highlighter {
    syntaxes: syntect::parsing::SyntaxSet,
    themes: syntect::highlighting::ThemeSet,
}

impl Highlighter {
    /// Loads the bundled grammars and themes.
    pub fn new() -> (r: Highlighter) {
        Highlighter { syntaxes: bundled_syntaxes(), themes: bundled_themes() }
    }

    /// Relies on `syntect::html::highlighted_html_for_string` with the
    /// grammar `SyntaxSet::find_syntax_by_extension` picks (plain text when
    /// it picks none) and the bundled `base16-ocean.dark` theme; with the
    /// bundled sets the markup depends on the extension and code alone.
    #[verifier::external_body]
    fn highlight(&self, extension: &str, code: &str) -> (r: Result<String, syntect::Error>)
        ensures
            r matches Ok(h) ==> h@ == highlighted_html(extension@, code@),
    {
        let ss = &self.syntaxes;
        let syntax = ss.find_syntax_by_extension(extension).unwrap_or(ss.find_syntax_plain_text());
        syntect::html::highlighted_html_for_string(code, ss, syntax, &self.themes.themes["base16-ocean.dark"])
    }
}

/// Renders source text as highlighted markup, choosing the grammar by
/// extension (plain text when none matches).
pub fn syntax_highlight(highlighter: &Highlighter, extension: &str, code: &str) -> (r: Result<String, GititError>)
    ensures
        match r {
            Ok(h) => h@ == highlighted_html(extension@, code@),
            Err(e) => e is HighlightingError,
        },
{
    match highlighter.highlight(extension, code) {
        Ok(h) => Ok(h),
        Err(e) => Err(GititError::HighlightingError(e)),
    }
}

} // verus!
