use vstd::prelude::*;
use crate::chunker::opt_view;

verus! {

/// The HTML that the markdown renderer makes of a text, strikethrough enabled.
pub uninterp spec fn markdown_html(text: Seq<char>) -> Seq<char>;

/// Relies on pulldown_cmark::Parser::new_ext with ENABLE_STRIKETHROUGH and
/// pulldown_cmark::html::push_html: the rendering depends on the text alone.
#[verifier::external_body]
fn markdown_to_html(text: &str) -> (r: String)
    ensures
        r@ == markdown_html(text@),
{
    let mut options = pulldown_cmark::Options::empty();
    options.insert(pulldown_cmark::Options::ENABLE_STRIKETHROUGH);
    let parser = pulldown_cmark::Parser::new_ext(text, options);
    let mut out = String::new();
    pulldown_cmark::html::push_html(&mut out, parser);
    out
}

/// What replacing every match of a regular expression gives: `None` when the
/// pattern does not compile.
pub uninterp spec fn regex_replaced(pattern: Seq<char>, text: Seq<char>, rep: Seq<char>) -> Option<
    Seq<char>,
>;

/// Relies on regex::Regex::new and regex::Regex::replace_all: `None` when the
/// pattern is refused, else the text with every match replaced; the outcome
/// depends on the three strings alone.
#[verifier::external_body]
fn regex_replace_all(pattern: &str, text: &str, rep: &str) -> (r: Option<String>)
    ensures
        opt_view(r) == regex_replaced(pattern@, text@, rep@),
{
    match regex::Regex::new(pattern) {
        Ok(re) => Some(re.replace_all(text, rep).into_owned()),
        Err(_) => None,
    }
}

/// Every non-overlapping occurrence of `from`, leftmost first, replaced by `to`.
pub open spec fn replace_spec(s: Seq<char>, from: Seq<char>, to: Seq<char>) -> Seq<char>
    decreases s.len(),
{
    if from.len() == 0 || s.len() < from.len() {
        s
    } else if s.take(from.len() as int) == from {
        to + replace_spec(s.skip(from.len() as int), from, to)
    } else {
        seq![s[0]] + replace_spec(s.skip(1), from, to)
    }
}

/// Relies on str::replace: each non-overlapping match of a non-empty
/// pattern, from the left, replaced by `to`.
#[verifier::external_body]
fn replace_str(s: &str, from: &str, to: &str) -> (r: String)
    requires
        from@.len() > 0,
    ensures
        r@ == replace_spec(s@, from@, to@),
{
    s.replace(from, to)
}

/// Applies a regex replacement, keeping the text when the pattern is refused.
pub open spec fn regex_or_keep(pattern: Seq<char>, text: Seq<char>, rep: Seq<char>) -> Seq<char> {
    match regex_replaced(pattern, text, rep) {
        Some(t) => t,
        None => text,
    }
}

fn regex_or_keep_exec(pattern: &str, text: String, rep: &str) -> (r: String)
    ensures
        r@ == regex_or_keep(pattern@, text@, rep@),
{
    match regex_replace_all(pattern, text.as_str(), rep) {
        Some(t) => t,
        None => text,
    }
}

pub open spec fn open_pattern(tag: Seq<char>) -> Seq<char> {
    "<"@ + tag + "\\b[^>]*>"@
}

pub open spec fn close_pattern(tag: Seq<char>) -> Seq<char> {
    "</"@ + tag + "\\b[^>]*>"@
}

/// Every opening and closing `from` tag, attributes included, becomes a bare
/// `to` tag; an empty `to` removes the tags.
pub open spec fn replace_tag_spec(text: Seq<char>, from: Seq<char>, to: Seq<char>) -> Seq<char> {
    let open = if to.len() == 0 { Seq::empty() } else { "<"@ + to + ">"@ };
    let close = if to.len() == 0 { Seq::empty() } else { "</"@ + to + ">"@ };
    regex_or_keep(close_pattern(from), regex_or_keep(open_pattern(from), text, open), close)
}

fn wrap3(a: &str, b: &str, c: &str) -> (r: String)
    ensures
        r@ == a@ + b@ + c@,
{
    let mut r = String::from_str(a);
    r.append(b);
    r.append(c);
    r
}

pub fn replace_tag(text: String, from: &str, to: &str) -> (r: String)
    ensures
        r@ == replace_tag_spec(text@, from@, to@),
{
    let open_pat = wrap3("<", from, "\\b[^>]*>");
    let close_pat = wrap3("</", from, "\\b[^>]*>");
    let (open, close) = if to.is_empty() {
        (String::new(), String::new())
    } else {
        (wrap3("<", to, ">"), wrap3("</", to, ">"))
    };
    let t = regex_or_keep_exec(open_pat.as_str(), text, open.as_str());
    regex_or_keep_exec(close_pat.as_str(), t, close.as_str())
}

/// The fixed tag rewrites, in the order they are applied.
pub open spec fn simple_rewrites(h: Seq<char>) -> Seq<char> {
    let r = replace_spec(h, "<strong>"@, "<b>"@);
    let r = replace_spec(r, "</strong>"@, "</b>"@);
    let r = replace_spec(r, "<em>"@, "<i>"@);
    let r = replace_spec(r, "</em>"@, "</i>"@);
    let r = replace_spec(r, "<br>"@, ""@);
    let r = replace_spec(r, "<br/>"@, ""@);
    let r = replace_spec(r, "<li>"@, "- "@);
    let r = replace_spec(r, "</li>"@, ""@);
    let r = replace_spec(r, "<pre>"@, ""@);
    let r = replace_spec(r, "</pre>"@, ""@);
    let r = replace_spec(r, "<h3>"@, "<span foreground=\"red\"><b>"@);
    let r = replace_spec(r, "</h3>"@, "</b></span>"@);
    let r = replace_spec(r, "<h2>"@, "<big><span foreground=\"green\">"@);
    let r = replace_spec(r, "</h2>"@, "</span></big>"@);
    let r = replace_spec(r, "<h1>"@, "<big><span foreground=\"red\">"@);
    replace_spec(r, "</h1>"@, "</span></big>"@)
}

/// HTML turned into the markup of the result view.
pub open spec fn pango_spec(h: Seq<char>) -> Seq<char> {
    let r = simple_rewrites(h);
    let r = replace_tag_spec(r, "code"@, "tt"@);
    let r = replace_tag_spec(r, "ol"@, ""@);
    let r = replace_tag_spec(r, "ul"@, ""@);
    let r = replace_tag_spec(r, "p"@, ""@);
    let r = regex_or_keep("<h[4-6]>"@, r, "<big>"@);
    regex_or_keep("</h[4-6]>"@, r, "</big>"@)
}

fn simple_rewrites_exec(h: &str) -> (r: String)
    ensures
        r@ == simple_rewrites(h@),
{
    proof {
        reveal_strlit("<strong>");
        reveal_strlit("</strong>");
        reveal_strlit("<em>");
        reveal_strlit("</em>");
        reveal_strlit("<br>");
        reveal_strlit("<br/>");
        reveal_strlit("<li>");
        reveal_strlit("</li>");
        reveal_strlit("<pre>");
        reveal_strlit("</pre>");
        reveal_strlit("<h3>");
        reveal_strlit("</h3>");
        reveal_strlit("<h2>");
        reveal_strlit("</h2>");
        reveal_strlit("<h1>");
        reveal_strlit("</h1>");
    }
    let r = replace_str(h, "<strong>", "<b>");
    let r = replace_str(r.as_str(), "</strong>", "</b>");
    let r = replace_str(r.as_str(), "<em>", "<i>");
    let r = replace_str(r.as_str(), "</em>", "</i>");
    let r = replace_str(r.as_str(), "<br>", "");
    let r = replace_str(r.as_str(), "<br/>", "");
    let r = replace_str(r.as_str(), "<li>", "- ");
    let r = replace_str(r.as_str(), "</li>", "");
    let r = replace_str(r.as_str(), "<pre>", "");
    let r = replace_str(r.as_str(), "</pre>", "");
    let r = replace_str(r.as_str(), "<h3>", "<span foreground=\"red\"><b>");
    let r = replace_str(r.as_str(), "</h3>", "</b></span>");
    let r = replace_str(r.as_str(), "<h2>", "<big><span foreground=\"green\">");
    let r = replace_str(r.as_str(), "</h2>", "</span></big>");
    let r = replace_str(r.as_str(), "<h1>", "<big><span foreground=\"red\">");
    replace_str(r.as_str(), "</h1>", "</span></big>")
}

/// Rewrites rendered HTML into the markup the result view shows.
pub fn html_to_pango(html: &str) -> (r: String)
    ensures
        r@ == pango_spec(html@),
{
    let r = simple_rewrites_exec(html);
    let r = replace_tag(r, "code", "tt");
    let r = replace_tag(r, "ol", "");
    let r = replace_tag(r, "ul", "");
    let r = replace_tag(r, "p", "");
    let r = regex_or_keep_exec("<h[4-6]>", r, "<big>");
    regex_or_keep_exec("</h[4-6]>", r, "</big>")
}

/// Renders markdown text as result-view markup.
pub fn convert_text(text: &str) -> (r: String)
    ensures
        r@ == pango_spec(markdown_html(text@)),
{
    let html = markdown_to_html(text);
    html_to_pango(html.as_str())
}

} // verus!
