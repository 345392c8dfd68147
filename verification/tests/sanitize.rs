use morum::html::{render_markdown_comment, sanitize_fragment};
use morum::timeline::{
    collate_comments, FormattedContent, MessageContent, MessageEvent, TextContent, TimelineItem,
};

#[test]
fn script_tags_never_survive_sanitization() {
    let out = sanitize_fragment("<script>alert('x')</script><p>hi</p>");
    assert!(!out.contains("<script"));
    assert!(out.contains("hi"));
}

#[test]
fn event_handlers_and_javascript_urls_are_stripped() {
    let out = sanitize_fragment("<img src=x onerror=alert(1)><a href=\"javascript:alert(1)\">x</a>");
    assert!(!out.contains("onerror"));
    assert!(!out.contains("javascript:"));
}

#[test]
fn allowed_markup_survives_sanitization() {
    let out = sanitize_fragment("<p><strong>bold</strong> and <em>italic</em></p>");
    assert!(out.contains("<strong>bold</strong>"));
    assert!(out.contains("<em>italic</em>"));
}

#[test]
fn markdown_comments_are_rendered_and_sanitized() {
    let out = render_markdown_comment("**hi** <script>alert(1)</script>");
    assert!(out.contains("<strong>hi</strong>"));
    assert!(!out.contains("<script"));
}

#[test]
fn markdown_rendering_is_not_the_identity() {
    let out = render_markdown_comment("**hi**");
    assert_ne!(out, "**hi**");
    assert!(out.contains("<strong>"));
}

#[test]
fn injected_comment_bodies_come_back_defanged() {
    // A script payload in a formatted comment body never reaches the
    // comment list unescaped.
    let items = vec![TimelineItem::Message(MessageEvent {
        event_id: "$a".to_string(),
        sender: "@evil:corepaper.org".to_string(),
        content: MessageContent::Text(TextContent {
            body: "x".to_string(),
            formatted: Some(FormattedContent {
                is_html: true,
                body: "<script>document.cookie</script><p>x</p>".to_string(),
            }),
        }),
        replaces: None,
    })];
    let comments = collate_comments(&items);
    assert_eq!(comments.len(), 1);
    assert!(!comments[0].html.contains("<script"));
}

#[test]
fn injected_markdown_bodies_come_back_defanged() {
    // The same payload arriving as a plain body goes through the markdown
    // transform, which passes raw HTML along — the sanitizer must strip it.
    let items = vec![TimelineItem::Message(MessageEvent {
        event_id: "$a".to_string(),
        sender: "@evil:corepaper.org".to_string(),
        content: MessageContent::Text(TextContent {
            body: "<script>document.cookie</script>hello".to_string(),
            formatted: None,
        }),
        replaces: None,
    })];
    let comments = collate_comments(&items);
    assert_eq!(comments.len(), 1);
    assert!(!comments[0].html.contains("<script"));
    assert!(comments[0].html.contains("hello"));
}
