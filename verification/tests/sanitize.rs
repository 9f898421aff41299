use chat_context::sanitize::{is_cleanable, MAX_HTML_LEN};
use chat_context::{sanitize_html, ChatContext};

#[test]
fn ordinary_input_is_cleanable() {
    assert_eq!(MAX_HTML_LEN, 512 * 1024 * 1024);
    assert!(is_cleanable(""));
    assert!(is_cleanable("<p>short</p>"));
    assert!(is_cleanable(&"<b>x</b>".repeat(100_000)));
}

#[test]
fn nul_is_replaced_in_attribute_value() {
    assert_eq!(sanitize_html("<p title=\"a\0b\">x</p>"), "<p title=\"a\u{fffd}b\">x</p>");
}

#[test]
fn script_element_is_removed_with_its_content() {
    assert_eq!(sanitize_html("XSS<script>attack</script>"), "XSS");
}

#[test]
fn style_element_is_removed_with_its_content() {
    assert_eq!(sanitize_html("<style>p { color: red }</style><p>text</p>"), "<p>text</p>");
}

#[test]
fn event_handler_attribute_is_removed() {
    assert_eq!(sanitize_html("<b onclick=\"steal()\">bold</b>"), "<b>bold</b>");
}

#[test]
fn script_url_is_removed_from_link() {
    assert_eq!(
        sanitize_html("<a href=\"javascript:alert(1)\">x</a>"),
        "<a rel=\"noopener noreferrer\">x</a>"
    );
}

#[test]
fn allowed_markup_is_kept() {
    assert_eq!(sanitize_html("<p>Hello <em>there</em></p>"), "<p>Hello <em>there</em></p>");
}

#[test]
fn disallowed_element_keeps_its_text() {
    assert_eq!(sanitize_html("<iframe></iframe><custom>kept</custom>"), "kept");
}

#[test]
fn plain_text_is_escaped() {
    assert_eq!(sanitize_html("1 < 2 & 3"), "1 &lt; 2 &amp; 3");
}

#[test]
fn sanitize_html_is_the_default_cleaner() {
    let inputs = [
        "",
        "plain",
        "<img src=\"http://example.com/a.png\" onerror=\"x()\">",
        "<div class=\"c\" title=\"t\">d</div>",
        "<!-- note --><ul><li>a<li>b</ul>",
    ];
    for input in inputs {
        assert_eq!(sanitize_html(input), ammonia::clean(input));
    }
}

#[test]
fn sanitize_message_agrees_with_sanitize_html() {
    let ctx = ChatContext::new("page", None);
    let html = "<p onclick=\"a()\">hi<script>b()</script></p>";
    assert_eq!(ctx.sanitize_message(html), "<p>hi</p>");
    assert_eq!(ctx.sanitize_message(html), sanitize_html(html));
}
