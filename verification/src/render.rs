//! The calls into outside text crates that the panels' formatting relies on:
//! HTML rendered to plain or rich terminal text, HTML entities decoded, and
//! timestamps formatted. Every call here computes a pure function of its
//! arguments; each result is given a name that the callers' contracts are
//! stated over.

use vstd::prelude::*;

verus! {

/// The view of an optional string's content.
pub open spec fn opt_view(r: Option<String>) -> Option<Seq<char>> {
    match r {
        Option::None => Option::None,
        Option::Some(s) => Option::Some(s@),
    }
}

/// What html2text's plain configuration renders for this input at this
/// width; `None` where rendering fails (for example, a width too narrow).
pub uninterp spec fn plain_text_of(html: Seq<char>, width: usize) -> Option<Seq<char>>;

/// Relies on html2text's `Config::string_from_read` with the plain
/// decorator: parsing and rendering read nothing but the handed text and
/// the width, so the outcome is a function of the two.
#[verifier::external_body]
pub(crate) fn render_plain(html: &str, width: usize) -> (r: Option<String>)
    ensures
        opt_view(r) == plain_text_of(html@, width),
{
    html2text::config::plain().string_from_read(html.as_bytes(), width).ok()
}

/// What html2text's plain configuration, without link footnotes and without
/// link wrapping, renders for this input at this width.
pub uninterp spec fn article_text_of(html: Seq<char>, width: usize) -> Option<Seq<char>>;

/// Relies on html2text's `Config::string_from_read` with the plain
/// decorator, `link_footnotes(false)` and `no_link_wrapping()`: the outcome
/// is a function of the handed text and the width.
#[verifier::external_body]
pub(crate) fn render_article(html: &str, width: usize) -> (r: Option<String>)
    ensures
        opt_view(r) == article_text_of(html@, width),
{
    html2text::config::plain().link_footnotes(false).no_link_wrapping().string_from_read(
        html.as_bytes(),
        width,
    ).ok()
}

/// What html2text's rich configuration, without link footnotes, renders for
/// this input at this width.
pub uninterp spec fn rich_text_of(html: Seq<char>, width: usize) -> Option<Seq<char>>;

/// Relies on html2text's `Config::string_from_read` with the rich
/// decorator and `link_footnotes(false)`: the outcome is a function of the
/// handed text and the width.
#[verifier::external_body]
pub(crate) fn render_rich(html: &str, width: usize) -> (r: Option<String>)
    ensures
        opt_view(r) == rich_text_of(html@, width),
{
    html2text::config::rich().link_footnotes(false).string_from_read(html.as_bytes(), width).ok()
}

/// What html_escape's entity decoding returns for this text.
pub uninterp spec fn decoded_entities(s: Seq<char>) -> Seq<char>;

/// Relies on html_escape::decode_html_entities, which maps the handed text
/// alone to its decoded form.
#[verifier::external_body]
pub(crate) fn decode_entities(s: &str) -> (r: String)
    ensures
        r@ == decoded_entities(s@),
{
    html_escape::decode_html_entities(s).to_string()
}

/// The text chrono renders for this UNIX timestamp under the format
/// `%Y-%m-%d %H:%M:%S`.
pub uninterp spec fn timestamp_text(secs: u64) -> Seq<char>;

/// Relies on chrono's `DateTime::from_timestamp` and its formatting: for a
/// number of seconds within chrono's documented range the conversion
/// returns a date (its source checks only that the day count and the
/// intra-day seconds are representable, which holds far beyond this bound),
/// and the formatted text is a function of the timestamp alone.
#[verifier::external_body]
pub(crate) fn format_timestamp(secs: u64) -> (r: String)
    requires
        secs <= 8_000_000_000_000u64,
    ensures
        r@ == timestamp_text(secs),
{
    let dt = chrono::DateTime::from_timestamp(secs as i64, 0).unwrap();
    dt.format("%Y-%m-%d %H:%M:%S").to_string()
}

} // verus!
