//! From one fetched page to one story's content: the availability heuristic,
//! the domain, the extraction and the plain text.

use vstd::prelude::*;
use crate::media::{declares_html, is_html_type};
use crate::model::{opt_text, text_views, ContentView, ExtractedContent};
use crate::outside::{
    extract_article, html_text_nodes, parse_url, parsed_url, readable_article, text_nodes,
};
use crate::text::{join_spaced, normalize, plain_text, TextPolicy};

verus! {

/// Why a story's page gave no content.
#[derive(Clone, Copy, Debug, PartialEq, Eq, Structural)]
pub enum AcquireError {
    /// The request got no response.
    RequestFailed,
    /// The response's status, which was no success.
    Status(u16),
    /// The story's link is no absolute URL.
    BadUrl,
    /// The story's link has no host.
    NoHost,
    /// The response's body could not be read as text.
    Body,
    /// No readable content was found in the page.
    Extraction,
}

/// The two classes of reasons: the page could not be had, or nothing could be
/// made of it.
#[derive(Clone, Copy, Debug, PartialEq, Eq, Structural)]
pub enum ErrorClass {
    /// The request failed or was answered with a status that is no success.
    ContentFetch,
    /// The link or the page's markup yielded nothing.
    Extraction,
}

impl AcquireError {
    /// The class of this reason.
    pub open spec fn spec_class(self) -> ErrorClass {
        match self {
            AcquireError::RequestFailed | AcquireError::Status(_) | AcquireError::Body => {
                ErrorClass::ContentFetch
            },
            AcquireError::BadUrl | AcquireError::NoHost | AcquireError::Extraction => {
                ErrorClass::Extraction
            },
        }
    }

    /// The class of this reason.
    pub fn class(&self) -> (r: ErrorClass)
        ensures
            r == self.spec_class(),
    {
        match self {
            AcquireError::RequestFailed => ErrorClass::ContentFetch,
            AcquireError::Status(_) => ErrorClass::ContentFetch,
            AcquireError::Body => ErrorClass::ContentFetch,
            AcquireError::BadUrl => ErrorClass::Extraction,
            AcquireError::NoHost => ErrorClass::Extraction,
            AcquireError::Extraction => ErrorClass::Extraction,
        }
    }
}

/// What came back for one request, as far as the pipeline reads it.
#[derive(Clone, Debug)]
pub struct PageResponse {
    /// The HTTP status code.
    pub status: u16,
    /// The declared content type, where the header is there and readable.
    pub content_type: Option<String>,
    /// The body as text, `None` where it could not be read.
    pub body: Option<String>,
}

/// What a `PageResponse` holds, as plain values.
pub struct ResponseView {
    pub status: u16,
    pub content_type: Option<Seq<char>>,
    pub body: Option<Seq<char>>,
}

impl View for PageResponse {
    type V = ResponseView;

    open spec fn view(&self) -> ResponseView {
        ResponseView {
            status: self.status,
            content_type: opt_text(self.content_type),
            body: opt_text(self.body),
        }
    }
}

/// How one request ended.
#[derive(Clone, Debug)]
pub enum FetchOutcome {
    /// No response came: the connection failed or timed out.
    Failed,
    /// A response came.
    Response(PageResponse),
}

/// A `FetchOutcome` as plain values.
pub enum OutcomeView {
    Failed,
    Response(ResponseView),
}

impl View for FetchOutcome {
    type V = OutcomeView;

    open spec fn view(&self) -> OutcomeView {
        match self {
            FetchOutcome::Failed => OutcomeView::Failed,
            FetchOutcome::Response(p) => OutcomeView::Response(p@),
        }
    }
}

/// A status code in the success class.
pub open spec fn status_ok(status: u16) -> bool {
    200 <= status < 300
}

/// The heuristic: a page may be blocked where no content type is declared, or
/// the declared media type is not that of HTML pages.
pub open spec fn looks_paywalled(content_type: Option<Seq<char>>) -> bool {
    match content_type {
        Some(t) => !is_html_type(t),
        None => true,
    }
}

/// The domain of a link, from what parsing the link gave: the host.
pub open spec fn domain_of(parsed: Option<(Seq<char>, Option<Seq<char>>)>) -> Result<
    Seq<char>,
    AcquireError,
> {
    match parsed {
        None => Err(AcquireError::BadUrl),
        Some((_, None)) => Err(AcquireError::NoHost),
        Some((_, Some(h))) => Ok(h),
    }
}

/// The content made of its parts: the declared content type, the domain, the
/// title and content fragment that the extraction found, and the fragment's
/// text nodes.
pub open spec fn assembled(
    content_type: Option<Seq<char>>,
    domain: Seq<char>,
    article: (Seq<char>, Seq<char>),
    fragments: Seq<Seq<char>>,
    policy: TextPolicy,
) -> ContentView {
    ContentView {
        title: article.0,
        text: normalize(join_spaced(fragments), policy),
        html: article.1,
        is_paywalled: looks_paywalled(content_type),
        domain: domain,
    }
}

/// The content of a page once the domain and the title and content fragment
/// that the extraction found are known.
pub open spec fn content_of(
    content_type: Option<Seq<char>>,
    domain: Seq<char>,
    article: (Seq<char>, Seq<char>),
    policy: TextPolicy,
) -> ContentView {
    assembled(content_type, domain, article, text_nodes(article.1), policy)
}

/// What a story's slot is owed for the outcome of its request.
pub open spec fn page_result(url: Seq<char>, outcome: OutcomeView, policy: TextPolicy) -> Result<
    ContentView,
    AcquireError,
> {
    match outcome {
        OutcomeView::Failed => Err(AcquireError::RequestFailed),
        OutcomeView::Response(page) => {
            if !status_ok(page.status) {
                Err(AcquireError::Status(page.status))
            } else {
                match parsed_url(url) {
                    None => Err(AcquireError::BadUrl),
                    Some((_, None)) => Err(AcquireError::NoHost),
                    Some((link, Some(domain))) => match page.body {
                        None => Err(AcquireError::Body),
                        Some(body) => match readable_article(body, link) {
                            None => Err(AcquireError::Extraction),
                            Some(article) => Ok(
                                content_of(page.content_type, domain, article, policy),
                            ),
                        },
                    },
                }
            }
        },
    }
}

/// A result of acquiring one page, as plain values.
pub open spec fn result_view(r: Result<ExtractedContent, AcquireError>) -> Result<
    ContentView,
    AcquireError,
> {
    match r {
        Ok(c) => Ok(c@),
        Err(e) => Err(e),
    }
}

/// A domain or the reason there is none, as plain values.
pub open spec fn domain_view(r: Result<String, AcquireError>) -> Result<Seq<char>, AcquireError> {
    match r {
        Ok(d) => Ok(d@),
        Err(e) => Err(e),
    }
}

/// A page that declares no content type, or one whose media type is not that
/// of HTML pages, and still yields content is flagged.
pub proof fn lemma_non_html_is_flagged(url: Seq<char>, page: ResponseView, policy: TextPolicy)
    requires
        page.content_type is None || !is_html_type(page.content_type->0),
        page_result(url, OutcomeView::Response(page), policy) is Ok,
    ensures
        page_result(url, OutcomeView::Response(page), policy)->Ok_0.is_paywalled,
{
}

/// A page that yields content is flagged if and only if it does not declare
/// the media type of HTML pages.
pub proof fn lemma_flag_follows_declared_type(
    url: Seq<char>,
    page: ResponseView,
    policy: TextPolicy,
)
    requires
        page_result(url, OutcomeView::Response(page), policy) is Ok,
    ensures
        page_result(url, OutcomeView::Response(page), policy)->Ok_0.is_paywalled <==> !(
        page.content_type is Some && is_html_type(page.content_type->0)),
{
}

/// Tells whether a status code is in the success class.
pub fn status_is_success(status: u16) -> (r: bool)
    ensures
        r == status_ok(status),
{
    200 <= status && status < 300
}

/// The availability heuristic on a response's declared content type: `true`
/// where none is declared, or the declared media type is not that of HTML
/// pages.
pub fn detect_paywall(content_type: Option<&str>) -> (r: bool)
    ensures
        r == looks_paywalled(
            match content_type {
                Some(t) => Some(t@),
                None => None,
            },
        ),
{
    match content_type {
        Some(t) => !declares_html(t),
        None => true,
    }
}

/// The domain for the host of a link: the host, where there is one.
pub fn domain_from_host(host: Option<String>) -> (r: Result<String, AcquireError>)
    ensures
        domain_view(r) == match host {
            Some(h) => Ok(h@),
            None => Err(AcquireError::NoHost),
        },
{
    match host {
        Some(h) => Ok(h),
        None => Err(AcquireError::NoHost),
    }
}

/// The domain of a link: the host of its URL.
pub fn extract_domain(url: &str) -> (r: Result<String, AcquireError>)
    ensures
        domain_view(r) == domain_of(parsed_url(url@)),
{
    match parse_url(url) {
        Ok(parsed) => domain_from_host(parsed.host_name()),
        Err(_) => Err(AcquireError::BadUrl),
    }
}

/// The content made of its parts, the text nodes of the content fragment among
/// them.
pub fn assemble_content(
    content_type: Option<&str>,
    domain: String,
    article: (String, String),
    fragments: &Vec<String>,
    policy: TextPolicy,
) -> (r: ExtractedContent)
    ensures
        r@ == assembled(
            match content_type {
                Some(t) => Some(t@),
                None => None,
            },
            domain@,
            (article.0@, article.1@),
            text_views(fragments@),
            policy,
        ),
{
    let is_paywalled = detect_paywall(content_type);
    let text = plain_text(fragments, policy);
    ExtractedContent { title: article.0, text, html: article.1, is_paywalled, domain }
}

/// The content of a page from its parts, once the extraction has been made:
/// `Extraction` where it failed, else the content with its plain text.
pub fn content_from_article(
    content_type: Option<&str>,
    domain: String,
    extracted: Result<(String, String), readability::error::Error>,
    policy: TextPolicy,
) -> (r: Result<ExtractedContent, AcquireError>)
    ensures
        result_view(r) == match extracted {
            Ok(article) => Ok(
                content_of(
                    match content_type {
                        Some(t) => Some(t@),
                        None => None,
                    },
                    domain@,
                    (article.0@, article.1@),
                    policy,
                ),
            ),
            Err(_) => Err(AcquireError::Extraction),
        },
{
    match extracted {
        Err(_) => Err(AcquireError::Extraction),
        Ok(article) => {
            let fragments = html_text_nodes(article.1.as_str());
            Ok(assemble_content(content_type, domain, article, &fragments, policy))
        },
    }
}

/// Turns the outcome of the request for `url` into the story's content, or
/// into the reason why there is none.
pub fn fetch_and_process(url: &str, outcome: &FetchOutcome, policy: TextPolicy) -> (r: Result<
    ExtractedContent,
    AcquireError,
>)
    ensures
        result_view(r) == page_result(url@, outcome@, policy),
{
    match outcome {
        FetchOutcome::Failed => Err(AcquireError::RequestFailed),
        FetchOutcome::Response(page) => {
            if !status_is_success(page.status) {
                return Err(AcquireError::Status(page.status));
            }
            let parsed = match parse_url(url) {
                Ok(p) => p,
                Err(_) => {
                    return Err(AcquireError::BadUrl);
                },
            };
            let domain = match domain_from_host(parsed.host_name()) {
                Ok(d) => d,
                Err(e) => {
                    return Err(e);
                },
            };
            let content_type: Option<&str> = match &page.content_type {
                Some(t) => Some(t.as_str()),
                None => None,
            };
            match &page.body {
                None => Err(AcquireError::Body),
                Some(body) => {
                    let extracted = extract_article(body.as_str(), &parsed);
                    content_from_article(content_type, domain, extracted, policy)
                },
            }
        },
    }
}

} // verus!
