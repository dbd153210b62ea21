//! The rendering adapter: optional syntax highlighting of a paste.
//!
//! Highlighting itself is an external collaborator. The library decides
//! what to serve from its outcome: no highlight (the language token was
//! not recognized, or a line failed) means the verbatim content goes out
//! as plain text; a highlight goes out in the form the client asked for.

use vstd::prelude::*;
use syntect::easy::HighlightLines;
use syntect::highlighting::{Theme, ThemeSet};
use syntect::html::{
    append_highlighted_html_for_styled_line, start_highlighted_html_snippet, IncludeBackground,
};
use syntect::parsing::SyntaxSet;
use syntect::util::{as_24_bit_terminal_escaped, LinesWithEndings};

verus! {

#[verifier::external_type_specification]
#[verifier::external_body]
pub struct ExSyntaxSet(SyntaxSet);

#[verifier::external_type_specification]
#[verifier::external_body]
pub struct ExTheme(Theme);

/// The form a response body takes.
#[derive(Clone, Copy, Debug, PartialEq, Eq, Structural)]
pub enum ContentType {
    TextPlain,
    TextHtml,
}

/// Relies on syntect::parsing::SyntaxSet::load_defaults_newlines: the
/// syntax definitions bundled with syntect.
#[verifier::external_body]
pub fn load_default_syntaxes() -> SyntaxSet {
    SyntaxSet::load_defaults_newlines()
}

/// Relies on syntect::highlighting::ThemeSet::load_defaults, whose bundled
/// set carries the "base16-ocean.dark" theme; falls back to the default
/// theme rather than panic if it were ever absent.
#[verifier::external_body]
pub fn load_default_theme() -> Theme {
    let ts = ThemeSet::load_defaults();
    match ts.themes.get("base16-ocean.dark") {
        Some(t) => t.to_owned(),
        None => Theme::default(),
    }
}

/// The outcome of terminal-escape-coded highlighting: what the
/// highlighter hands back for this syntax set, theme, language token and
/// content, or nothing where the token is not recognized or a line fails.
/// Determined by those four values alone.
pub uninterp spec fn terminal_highlight_of(
    ps: SyntaxSet,
    theme: Theme,
    lang: Seq<char>,
    content: Seq<char>,
) -> Option<Seq<char>>;

/// The outcome of HTML-fragment highlighting, under the same convention
/// as `terminal_highlight_of`.
pub uninterp spec fn html_highlight_of(
    ps: SyntaxSet,
    theme: Theme,
    lang: Seq<char>,
    content: Seq<char>,
) -> Option<Seq<char>>;

/// Relies on syntect's find_syntax_by_token, HighlightLines and
/// as_24_bit_terminal_escaped: terminal-escape-coded highlighting of the
/// content, line by line; nothing if the language token is not recognized
/// or a line fails to highlight. All three are pure in their arguments,
/// so the outcome is a function of the four inputs.
#[verifier::external_body]
fn highlight_terminal(ps: &SyntaxSet, theme: &Theme, lang: &str, content: &str) -> (r: Option<
    String,
>)
    ensures
        opt_text_view(r) == terminal_highlight_of(*ps, *theme, lang@, content@),
{
    let syntax = ps.find_syntax_by_token(lang)?;
    let mut h = HighlightLines::new(syntax, theme);
    let mut out = String::new();
    for line in LinesWithEndings::from(content) {
        let ranges = h.highlight_line(line, ps).ok()?;
        out.push_str(&as_24_bit_terminal_escaped(&ranges[..], true));
    }
    Some(out)
}

/// Relies on syntect's find_syntax_by_token, HighlightLines and its html
/// helpers: an HTML fragment highlighting the content, line by line;
/// nothing if the language token is not recognized or a line fails. All
/// are pure in their arguments, so the outcome is a function of the four
/// inputs.
#[verifier::external_body]
fn highlight_html(ps: &SyntaxSet, theme: &Theme, lang: &str, content: &str) -> (r: Option<
    String,
>)
    ensures
        opt_text_view(r) == html_highlight_of(*ps, *theme, lang@, content@),
{
    let syntax = ps.find_syntax_by_token(lang)?;
    let mut h = HighlightLines::new(syntax, theme);
    let (mut out, bg) = start_highlighted_html_snippet(theme);
    for line in LinesWithEndings::from(content) {
        let regions = h.highlight_line(line, ps).ok()?;
        append_highlighted_html_for_styled_line(
            &regions[..],
            IncludeBackground::IfDifferent(bg),
            &mut out,
        ).ok()?;
    }
    out.push_str("</pre>\n");
    Some(out)
}

/// What a read serves, given the highlighter's outcome: the verbatim
/// content as plain text when there is no highlight, else the highlight,
/// plain for a terminal client and HTML for any other.
pub open spec fn spec_render(
    content: Seq<char>,
    highlighted: Option<Seq<char>>,
    terminal: bool,
) -> (Seq<char>, ContentType) {
    match highlighted {
        None => (content, ContentType::TextPlain),
        Some(h) => (h, if terminal {
            ContentType::TextPlain
        } else {
            ContentType::TextHtml
        }),
    }
}

/// The view of an optional highlight.
pub open spec fn opt_text_view(h: Option<String>) -> Option<Seq<char>> {
    match h {
        None => None,
        Some(s) => Some(s@),
    }
}

/// Combines a paste's content with the highlighter's outcome. An absent
/// highlight is not an error: the content goes out verbatim.
pub fn render_read(content: String, highlighted: Option<String>, terminal: bool) -> (r: (
    String,
    ContentType,
))
    ensures
        (r.0@, r.1) == spec_render(content@, opt_text_view(highlighted), terminal),
{
    match highlighted {
        None => (content, ContentType::TextPlain),
        Some(h) => (
            h,
            if terminal {
                ContentType::TextPlain
            } else {
                ContentType::TextHtml
            },
        ),
    }
}

/// The highlighter's outcome in the form the client asked for.
pub open spec fn spec_highlight(
    ps: SyntaxSet,
    theme: Theme,
    lang: Seq<char>,
    content: Seq<char>,
    terminal: bool,
) -> Option<Seq<char>> {
    if terminal {
        terminal_highlight_of(ps, theme, lang, content)
    } else {
        html_highlight_of(ps, theme, lang, content)
    }
}

/// Runs the highlighter over `content` in the form the client asked for.
pub fn try_highlight(
    ps: &SyntaxSet,
    theme: &Theme,
    lang: &str,
    content: &str,
    terminal: bool,
) -> (r: Option<String>)
    ensures
        opt_text_view(r) == spec_highlight(*ps, *theme, lang@, content@, terminal),
{
    if terminal {
        highlight_terminal(ps, theme, lang, content)
    } else {
        highlight_html(ps, theme, lang, content)
    }
}

} // verus!
