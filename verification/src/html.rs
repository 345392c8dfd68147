//! The two HTML transforms the forum leans on: rendering markdown and
//! sanitizing fragments. Both are pure functions of their input text; their
//! full behaviour is a grammar, so contracts name the result rather than
//! restate it.
use vstd::prelude::*;

verus! {

/// The HTML the markdown transform produces for a given source text.
pub uninterp spec fn markdown_html_of(s: Seq<char>) -> Seq<char>;

/// Relies on `pulldown_cmark::html::push_html` over `pulldown_cmark::Parser`:
/// renders markdown to HTML, a function of the input text alone.
#[verifier::external_body]
pub(crate) fn markdown_to_html(markdown: &str) -> (r: String)
    ensures
        r@ == markdown_html_of(markdown@),
{
    let mut html = String::new();
    pulldown_cmark::html::push_html(&mut html, pulldown_cmark::Parser::new(markdown));
    html
}

/// The result of the strict Matrix HTML sanitizer on a given fragment, with
/// the rich-reply fallback removed.
pub uninterp spec fn sanitized_html_of(s: Seq<char>) -> Seq<char>;

/// Relies on `ruma::events::room::message::sanitize::sanitize_html` in
/// strict mode with reply fallback removal: keeps only the tags and
/// attributes of the Matrix spec, a function of the input fragment alone.
#[verifier::external_body]
pub(crate) fn sanitize_html(html: &str) -> (r: String)
    ensures
        r@ == sanitized_html_of(html@),
{
    ruma::events::room::message::sanitize::sanitize_html(
        html,
        ruma::events::room::message::sanitize::HtmlSanitizerMode::Strict,
        ruma::events::room::message::sanitize::RemoveReplyFallback::Yes,
    )
}

/// What every comment body sent or synthesized from markdown becomes:
/// rendered to HTML, then passed through the strict sanitizer.
pub open spec fn spec_markdown_comment_html(markdown: Seq<char>) -> Seq<char> {
    sanitized_html_of(markdown_html_of(markdown))
}

/// Renders a markdown comment body to sanitized HTML.
pub fn render_markdown_comment(markdown: &str) -> (r: String)
    ensures
        r@ == spec_markdown_comment_html(markdown@),
{
    let html = markdown_to_html(markdown);
    sanitize_html(html.as_str())
}

/// Sanitizes an HTML fragment that arrived pre-formatted.
pub fn sanitize_fragment(html: &str) -> (r: String)
    ensures
        r@ == sanitized_html_of(html@),
{
    sanitize_html(html)
}

} // verus!
