use gchatter::markup::{convert_text, html_to_pango, replace_tag};

#[test]
fn markdown_bold_becomes_bold_markup() {
    assert_eq!(convert_text("**hi**"), "<b>hi</b>\n");
}

#[test]
fn markdown_heading_and_list() {
    assert_eq!(convert_text("# T"), "<big><span foreground=\"red\">T</span></big>\n");
    assert_eq!(convert_text("- a\n- b"), "\n- a\n- b\n\n");
}

#[test]
fn markdown_code_span_becomes_tt() {
    assert_eq!(convert_text("use `x`"), "use <tt>x</tt>\n");
}

#[test]
fn fixed_rewrites() {
    assert_eq!(html_to_pango("<strong>a</strong><em>b</em><br>"), "<b>a</b><i>b</i>");
    assert_eq!(html_to_pango("<h2>x</h2>"), "<big><span foreground=\"green\">x</span></big>");
    assert_eq!(html_to_pango("<h4>x"), "<big>x");
    assert_eq!(html_to_pango("<h5>x</h5>"), "<big>x</big>");
    assert_eq!(html_to_pango("plain"), "plain");
}

#[test]
fn tags_with_attributes_are_rewritten() {
    assert_eq!(replace_tag("<code class=\"r\">x</code>".to_string(), "code", "tt"), "<tt>x</tt>");
    assert_eq!(replace_tag("<p>a</p><pre>b</pre>".to_string(), "p", ""), "a<pre>b</pre>");
}
