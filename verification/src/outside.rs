//! The capabilities that other crates supply: URL parsing, readable-content
//! extraction, HTML text nodes and the text rendition of HTML. Their contracts
//! are believed, not proved.

use vstd::prelude::*;
use crate::model::{opt_text, text_views};

verus! {

/// A URL of the `url` crate, carried through and never looked into.
#[verifier::external_type_specification]
#[verifier::external_body]
pub struct ExUrl(url::Url);

/// The error of `url::Url::parse`, carried through and never looked into.
#[verifier::external_type_specification]
#[verifier::external_body]
pub struct ExUrlParseError(url::ParseError);

/// The error of `readability::extractor::extract`, carried through and never
/// looked into.
#[verifier::external_type_specification]
#[verifier::external_body]
pub struct ExReadabilityError(readability::error::Error);

/// The error of `html2text::from_read`, carried through and never looked into.
#[verifier::external_type_specification]
#[verifier::external_body]
pub struct ExTextError(html2text::Error);

/// What `url::Url::parse` gives for a text: `None` where the text is no
/// absolute URL, else the URL as `Url::as_str` writes it and its host as
/// `Url::host_str` gives it, `None` for a URL without a host.
pub uninterp spec fn parsed_url(text: Seq<char>) -> Option<(Seq<char>, Option<Seq<char>>)>;

/// What `readability::extractor::extract` finds in a page's markup, read from
/// memory, for the page's parsed URL, given here as `Url::as_str` writes it: the
/// title and the content as an HTML fragment; `None` where the extraction fails.
pub uninterp spec fn readable_article(markup: Seq<char>, url: Seq<char>) -> Option<
    (Seq<char>, Seq<char>),
>;

/// The text nodes below the root element of the document that
/// `scraper::Html::parse_document` builds from a markup, in document order.
pub uninterp spec fn text_nodes(markup: Seq<char>) -> Seq<Seq<char>>;

/// The text that `html2text::from_read` renders from a markup at a width;
/// `None` where it reports an error.
pub uninterp spec fn text_rendition(markup: Seq<char>, width: nat) -> Option<Seq<char>>;

/// A parsed URL, with what the pipeline reads of it held as plain values. It
/// is made by `parse_url` alone, so that the plain values are those of the URL.
pub struct ParsedUrl {
    url: url::Url,
    text: String,
    host: Option<String>,
}

impl ParsedUrl {
    /// The URL as it is written once parsed.
    pub closed spec fn text(&self) -> Seq<char> {
        self.text@
    }

    /// The host of the URL, if it has one.
    pub closed spec fn host(&self) -> Option<Seq<char>> {
        opt_text(self.host)
    }

    /// The host of the URL, if it has one.
    pub fn host_name(&self) -> (r: Option<String>)
        ensures
            opt_text(r) == self.host(),
    {
        match &self.host {
            Some(h) => Some(h.clone()),
            None => None,
        }
    }
}

/// Calls `url::Url::parse`, and copies from the URL what `Url::as_str` and
/// `Url::host_str` give. All three are functions of the text alone; the
/// contract gives the result its name and claims nothing else of it.
#[verifier::external_body]
pub(crate) fn parse_url(text: &str) -> (r: Result<ParsedUrl, url::ParseError>)
    ensures
        match r {
            Ok(parsed) => parsed_url(text@) == Some((parsed.text(), parsed.host())),
            Err(_) => parsed_url(text@) is None,
        },
{
    let url = url::Url::parse(text)?;
    let host = url.host_str().map(String::from);
    let text = String::from(url.as_str());
    Ok(ParsedUrl { url, text, host })
}

/// Calls `readability::extractor::extract` on the markup's bytes and the
/// parsed URL, and hands out the title and the content of the product. The
/// extraction reads nothing but its two arguments; the contract gives the
/// result its name and claims nothing else of it.
#[verifier::external_body]
pub(crate) fn extract_article(markup: &str, base: &ParsedUrl) -> (r: Result<
    (String, String),
    readability::error::Error,
>)
    ensures
        match r {
            Ok(article) => readable_article(markup@, base.text()) == Some(
                (article.0@, article.1@),
            ),
            Err(_) => readable_article(markup@, base.text()) is None,
        },
{
    let mut input = markup.as_bytes();
    let product = readability::extractor::extract(&mut input, &base.url)?;
    Ok((product.title, product.content))
}

/// Calls `scraper::Html::parse_document`, then `Html::root_element` and
/// `ElementRef::text`, and copies each text node. The nodes are a function of
/// the markup alone; the contract gives them their name.
#[verifier::external_body]
pub(crate) fn html_text_nodes(markup: &str) -> (r: Vec<String>)
    ensures
        text_views(r@) == text_nodes(markup@),
{
    let document = scraper::Html::parse_document(markup);
    document.root_element().text().map(|t| t.to_string()).collect()
}

/// Calls `html2text::from_read` on the markup's bytes. The rendition is a
/// function of the markup and the width alone; the contract gives it its name.
#[verifier::external_body]
pub(crate) fn html_to_text(markup: &str, width: usize) -> (r: Result<String, html2text::Error>)
    ensures
        match r {
            Ok(text) => text_rendition(markup@, width as nat) == Some(text@),
            Err(_) => text_rendition(markup@, width as nat) is None,
        },
{
    html2text::from_read(markup.as_bytes(), width)
}

} // verus!
