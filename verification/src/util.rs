//! Small conversions between what the service sends and what the widgets take.

use crate::data::{text_of, WebImageMsg};
use crate::render::{is_renderable, renderable};
use vstd::prelude::*;

verus! {

/// What a picture widget is told for a picture at `url`: to load it, or to
/// show nothing if there is none.
pub open spec fn image_msg(url: Option<String>) -> WebImageMsg {
    match url {
        Some(url) => WebImageMsg::LoadImage(url),
        None => WebImageMsg::Unload,
    }
}

/// Computes [`image_msg`].
pub fn get_web_image_msg(url: Option<String>) -> (msg: WebImageMsg)
    ensures
        msg == image_msg(url),
{
    if let Some(url) = url {
        WebImageMsg::LoadImage(url)
    } else {
        WebImageMsg::Unload
    }
}

/// The address a picture widget is opened with for a picture at `url`: the
/// address itself, or the empty one if there is none.
pub open spec fn image_url(url: Option<String>) -> Seq<char> {
    match url {
        Some(url) => url@,
        None => Seq::empty(),
    }
}

/// Computes [`image_url`].
pub fn get_web_image_url(url: Option<String>) -> (address: String)
    ensures
        address@ == image_url(url),
{
    if let Some(url) = url {
        url
    } else {
        String::new()
    }
}

/// The HTML that the Markdown converter makes of `text`.
pub uninterp spec fn markdown_html(text: Seq<char>) -> Seq<char>;

/// The Pango markup that the HTML converter makes of `html`, if it makes any.
pub uninterp spec fn pango_markup(html: Seq<char>) -> Option<Seq<char>>;

/// Whether `html` is what the Markdown converter makes of a text that it takes.
pub open spec fn from_markdown(html: Seq<char>) -> bool {
    exists|text: Seq<char>| renderable(text) && html == #[trigger] markdown_html(text)
}

/// Calls `markdown::to_html`. Trusted: the HTML depends on `text` alone, and
/// the call returns for every text that is [`renderable`]. On other texts it
/// can fail: it reads the first block of a list item that has none, it cuts
/// a line that holds a code fence behind its third byte, and it calls itself
/// once for each quotation or list inside another. Of the text it writes
/// all but the `id` of a heading with `<`, `>`, `&` and both quotes escaped.
#[verifier::external_body]
fn to_html(text: &str) -> (html: String)
    requires
        renderable(text@),
    ensures
        html@ == markdown_html(text@),
{
    markdown::to_html(text)
}

/// Calls `html2pango::markup_html`, and keeps the markup if it made any.
/// Trusted: the outcome depends on `html` alone, and the call returns for
/// HTML that came from a [`renderable`] text. It takes the second child of
/// the first node of the parsed document to be the body; that holds where
/// the HTML begins with an element or is empty, as all that the Markdown
/// converter makes does. It calls itself once for each element inside
/// another; those are the converter's own, one or two for each quotation or
/// list, and what the `id` of a heading opens behind an apostrophe.
#[verifier::external_body]
fn markup_html(html: &str) -> (markup: Option<String>)
    requires
        from_markdown(html@),
    ensures
        text_of(markup) == pango_markup(html@),
{
    html2pango::markup_html(html).ok()
}

/// What is shown for `text` once it has been converted: the markup, or
/// `text` itself where the conversion gave none.
pub open spec fn markup_or(markup: Option<Seq<char>>, text: Seq<char>) -> Seq<char> {
    match markup {
        Some(markup) => markup,
        None => text,
    }
}

/// Computes [`markup_or`].
pub fn markup_or_source(markup: Option<String>, text: String) -> (shown: String)
    ensures
        shown@ == markup_or(text_of(markup), text@),
{
    match markup {
        Some(markup) => markup,
        None => text,
    }
}

/// Turns Markdown into Pango markup by way of HTML, and falls back on the
/// Markdown itself where that gives no markup.
pub fn markdown_to_pango_markup(text: String) -> (shown: String)
    requires
        renderable(text@),
    ensures
        shown@ == markup_or(pango_markup(markdown_html(text@)), text@),
{
    let html = to_html(text.as_str());
    let markup = markup_html(html.as_str());
    markup_or_source(markup, text)
}

/// What [`render_markdown`] owes for `text`: the markup where the text is
/// [`renderable`], and the text handed back where it is not.
pub open spec fn rendered(text: Seq<char>) -> Result<Seq<char>, Seq<char>> {
    if renderable(text) {
        Ok(markup_or(pango_markup(markdown_html(text)), text))
    } else {
        Err(text)
    }
}

/// [`markdown_to_pango_markup`] for any text: a text that the converters
/// may fail on is not handed to them, and comes back as the error.
pub fn render_markdown(text: String) -> (r: Result<String, String>)
    ensures
        rendered(text@) == match r {
            Ok(shown) => Ok::<Seq<char>, Seq<char>>(shown@),
            Err(back) => Err(back@),
        },
        r matches Err(back) ==> back == text,
{
    if is_renderable(text.as_str()) {
        Ok(markdown_to_pango_markup(text))
    } else {
        Err(text)
    }
}

} // verus!
