//! HTML-to-Markdown conversion and the content-sufficiency threshold.
//!
//! Conversion itself is delegated to the `html2md` crate; its result is a
//! pure function of the input document, named here by `markdown_of`. The
//! sufficiency judgment (is the converted text long enough to count as real
//! content, or did the page need JavaScript to render?) is this crate's own
//! logic and is verified exactly.

use vstd::prelude::*;

verus! {

/// Minimum trimmed length of converted Markdown for a fetch to count as
/// having captured real content.
pub const MIN_CONTENT_LENGTH: usize = 300;

/// The Markdown that the HTML-to-Markdown rewriter produces for a given
/// HTML document; a function of the document alone.
pub uninterp spec fn markdown_of(html: Seq<char>) -> Seq<char>;

/// What remains of a string once its leading and trailing whitespace is
/// removed; a function of the string alone.
pub uninterp spec fn trimmed_of(s: Seq<char>) -> Seq<char>;

/// Relies on `html2md::parse_html`: converts an HTML document to Markdown.
/// The conversion is deterministic, has no failure mode (malformed HTML
/// degrades gracefully), and depends on the document alone.
#[verifier::external_body]
fn html_to_markdown(html: &str) -> (r: String)
    ensures
        r@ == markdown_of(html@),
{
    html2md::parse_html(html)
}

/// Relies on `str::trim`: returns the input with leading and trailing
/// whitespace removed, hence never longer than the input.
#[verifier::external_body]
fn trim_str(s: &str) -> (r: &str)
    ensures
        r@ == trimmed_of(s@),
        r@.len() <= s@.len(),
{
    s.trim()
}

/// Convert an HTML document string to Markdown.
pub fn convert(html: &str) -> (r: String)
    ensures
        r@ == markdown_of(html@),
{
    html_to_markdown(html)
}

/// Whether a piece of Markdown carries enough text to count as real
/// content: its trimmed length reaches `MIN_CONTENT_LENGTH`.
pub fn is_sufficient(markdown: &str) -> (r: bool)
    ensures
        r == (trimmed_of(markdown@).len() >= MIN_CONTENT_LENGTH),
{
    let trimmed = trim_str(markdown);
    trimmed.unicode_len() >= MIN_CONTENT_LENGTH
}

/// Whether converting an HTML document yields sufficient content.
pub open spec fn sufficient_html(html: Seq<char>) -> bool {
    trimmed_of(markdown_of(html)).len() >= MIN_CONTENT_LENGTH
}

/// Convert an HTML document to Markdown and judge its sufficiency in one
/// step.
pub fn process_html(html: &str) -> (r: (String, bool))
    ensures
        r.0@ == markdown_of(html@),
        r.1 == sufficient_html(html@),
{
    let markdown = html_to_markdown(html);
    let sufficient = is_sufficient(markdown.as_str());
    (markdown, sufficient)
}

/// Law: the converter is deterministic — converting identical HTML twice
/// yields identical Markdown.
pub fn convert_twice(html: &str) -> (r: (String, String))
    ensures
        r.0@ == r.1@,
{
    (convert(html), convert(html))
}

} // verus!
