use hn_daily::media::{
    declares_html, eq_ignoring_case, is_blank_char, media_type_of, to_ascii_lower,
};
use hn_daily::page::{
    assemble_content, content_from_article, detect_paywall, domain_from_host, extract_domain,
    fetch_and_process, status_is_success, AcquireError, ErrorClass, FetchOutcome, PageResponse,
};
use hn_daily::text::TextPolicy;

const PAGE: &str = "<html><head><title>Sample Story</title></head><body>\
<div id=\"nav\"><a href=\"/\">Home</a></div>\
<article><h1>Sample Story</h1>\
<p>First paragraph with enough words, commas, and clauses to count as readable content, \
so that the extraction keeps it as the main content of the page.</p>\
<p>Second paragraph, again with commas, words, and more words,   spaced   out, for the \
extraction to score this block above the navigation.</p>\
</article></body></html>";

fn page_response(status: u16, content_type: Option<&str>, body: Option<&str>) -> FetchOutcome {
    FetchOutcome::Response(PageResponse {
        status,
        content_type: content_type.map(String::from),
        body: body.map(String::from),
    })
}

#[test]
fn success_statuses() {
    assert!(status_is_success(200));
    assert!(status_is_success(204));
    assert!(status_is_success(299));
    assert!(!status_is_success(199));
    assert!(!status_is_success(300));
    assert!(!status_is_success(404));
    assert!(!status_is_success(0));
}

#[test]
fn paywall_heuristic_goes_by_declared_media_type() {
    assert!(!detect_paywall(Some("text/html")));
    assert!(!detect_paywall(Some("text/html; charset=UTF-8")));
    assert!(!detect_paywall(Some("text/html;charset=utf-8")));
    assert!(!detect_paywall(Some("Text/HTML; charset=UTF-8")));
    assert!(!detect_paywall(Some("TEXT/HTML")));
    assert!(!detect_paywall(Some("  text/html \t; charset=utf-8")));
    assert!(detect_paywall(Some("application/pdf")));
    assert!(detect_paywall(Some("application/json")));
    assert!(detect_paywall(Some("application/json; note=text/html")));
    assert!(detect_paywall(Some("application/xhtml+xml")));
    assert!(detect_paywall(Some("text/html2")));
    assert!(detect_paywall(Some("xtext/html")));
    assert!(detect_paywall(Some("text/ html")));
    assert!(detect_paywall(Some("text/htm")));
    assert!(detect_paywall(Some("; text/html")));
    assert!(detect_paywall(Some("")));
    assert!(detect_paywall(None));
}

#[test]
fn declared_media_types() {
    assert_eq!(media_type_of("text/html; charset=UTF-8"), "text/html");
    assert_eq!(media_type_of("Text/HTML;charset=UTF-8"), "Text/HTML");
    assert_eq!(media_type_of(" \tapplication/json \t ; note=text/html"), "application/json");
    assert_eq!(media_type_of("application/pdf"), "application/pdf");
    assert_eq!(media_type_of("a b"), "a b");
    assert_eq!(media_type_of("   "), "");
    assert_eq!(media_type_of(";x"), "");
    assert_eq!(media_type_of(""), "");
    assert!(declares_html("text/HTML ;q=1"));
    assert!(!declares_html("text/plain"));
}

#[test]
fn comparison_ignores_ascii_case_only() {
    assert!(eq_ignoring_case("Text/Html", "tEXT/hTML"));
    assert!(eq_ignoring_case("", ""));
    assert!(!eq_ignoring_case("text/html", "text/htm"));
    assert!(!eq_ignoring_case("text/html", "text_html"));
    assert!(!eq_ignoring_case("é", "É"));
    assert!(!eq_ignoring_case("@", "`"));
    assert!(!eq_ignoring_case("[", "{"));
    assert_eq!(to_ascii_lower('A'), 'a');
    assert_eq!(to_ascii_lower('Z'), 'z');
    assert_eq!(to_ascii_lower('a'), 'a');
    assert_eq!(to_ascii_lower('@'), '@');
    assert_eq!(to_ascii_lower('['), '[');
    assert_eq!(to_ascii_lower('É'), 'É');
    assert!(is_blank_char(' '));
    assert!(is_blank_char('\t'));
    assert!(!is_blank_char('\n'));
    assert!(!is_blank_char('x'));
}

#[test]
fn domain_is_the_host() {
    assert_eq!(extract_domain("https://example.com/a/b?c=d"), Ok(String::from("example.com")));
    assert_eq!(
        extract_domain("http://sub.example.org:8080/"),
        Ok(String::from("sub.example.org"))
    );
    assert_eq!(extract_domain("not a url"), Err(AcquireError::BadUrl));
    assert_eq!(extract_domain(""), Err(AcquireError::BadUrl));
    assert_eq!(extract_domain("data:text/plain,Stuff"), Err(AcquireError::NoHost));
    assert_eq!(extract_domain("unix:/run/foo.socket"), Err(AcquireError::NoHost));
    assert_eq!(extract_domain("HTTPS://EXAMPLE.com"), Ok(String::from("example.com")));
    assert_eq!(extract_domain("ftp://rms@example.com"), Ok(String::from("example.com")));
    assert_eq!(extract_domain("//example.com/relative"), Err(AcquireError::BadUrl));
}

#[test]
fn domain_from_each_host() {
    assert_eq!(domain_from_host(Some(String::from("h.example"))), Ok(String::from("h.example")));
    assert_eq!(domain_from_host(None), Err(AcquireError::NoHost));
}

#[test]
fn failed_request_gives_request_failed() {
    let r = fetch_and_process("https://example.com/", &FetchOutcome::Failed, TextPolicy::Collapse);
    assert_eq!(r.err(), Some(AcquireError::RequestFailed));
}

#[test]
fn bad_status_gives_status() {
    let r = fetch_and_process(
        "https://example.com/",
        &page_response(404, Some("text/html"), Some(PAGE)),
        TextPolicy::Collapse,
    );
    assert_eq!(r.err(), Some(AcquireError::Status(404)));
    let r = fetch_and_process(
        "https://example.com/",
        &page_response(500, None, None),
        TextPolicy::Collapse,
    );
    assert_eq!(r.err(), Some(AcquireError::Status(500)));
}

#[test]
fn unparsable_link_gives_bad_url() {
    let r = fetch_and_process(
        "no scheme here",
        &page_response(200, Some("text/html"), Some(PAGE)),
        TextPolicy::Collapse,
    );
    assert_eq!(r.err(), Some(AcquireError::BadUrl));
}

#[test]
fn hostless_link_gives_no_host() {
    let r = fetch_and_process(
        "data:text/plain,Stuff",
        &page_response(200, Some("text/html"), Some(PAGE)),
        TextPolicy::Collapse,
    );
    assert_eq!(r.err(), Some(AcquireError::NoHost));
}

#[test]
fn unreadable_body_gives_body() {
    let r = fetch_and_process(
        "https://example.com/",
        &page_response(200, Some("text/html"), None),
        TextPolicy::Collapse,
    );
    assert_eq!(r.err(), Some(AcquireError::Body));
}

#[test]
fn failed_extraction_gives_extraction() {
    let r = content_from_article(
        Some("text/html"),
        String::from("example.com"),
        Err(readability::error::Error::Unexpected),
        TextPolicy::Collapse,
    );
    assert_eq!(r.err(), Some(AcquireError::Extraction));
}

#[test]
fn content_from_a_given_article() {
    let c = content_from_article(
        Some("application/pdf"),
        String::from("example.com"),
        Ok((String::from("T"), String::from("<p>a  <i>b</i></p><p>c</p>"))),
        TextPolicy::Collapse,
    )
    .unwrap();
    assert_eq!(c.title, "T");
    assert_eq!(c.html, "<p>a  <i>b</i></p><p>c</p>");
    assert_eq!(c.text, "a b c");
    assert_eq!(c.domain, "example.com");
    assert!(c.is_paywalled);
}

#[test]
fn html_page_is_extracted() {
    let c = fetch_and_process(
        "https://news.example.com/story/1",
        &page_response(200, Some("text/html; charset=utf-8"), Some(PAGE)),
        TextPolicy::Collapse,
    )
    .unwrap();
    assert_eq!(c.domain, "news.example.com");
    assert!(!c.is_paywalled);
    let upper = fetch_and_process(
        "https://news.example.com/story/1",
        &page_response(200, Some("Text/HTML; charset=UTF-8"), Some(PAGE)),
        TextPolicy::Collapse,
    )
    .unwrap();
    assert!(!upper.is_paywalled);
    assert_eq!(c.title, "Sample Story");
    assert!(c.html.contains("First paragraph"));
    assert_ne!(c.html, PAGE);
    assert!(c.html.len() < PAGE.len());
    assert!(c.text.contains("First paragraph with enough words"));
    assert!(c.text.contains("words, spaced out, for"));
    assert!(!c.text.contains("  "));
    assert!(!c.text.contains('<'));
}

#[test]
fn non_html_type_is_flagged() {
    for declared in [
        Some("application/pdf"),
        Some("image/png"),
        Some("application/json; note=text/html"),
        None,
    ] {
        let c = fetch_and_process(
            "https://example.com/paper.pdf",
            &page_response(200, declared, Some(PAGE)),
            TextPolicy::Collapse,
        )
        .unwrap();
        assert!(c.is_paywalled);
    }
}

#[test]
fn reasons_fall_in_two_classes() {
    assert_eq!(AcquireError::RequestFailed.class(), ErrorClass::ContentFetch);
    assert_eq!(AcquireError::Status(503).class(), ErrorClass::ContentFetch);
    assert_eq!(AcquireError::Body.class(), ErrorClass::ContentFetch);
    assert_eq!(AcquireError::BadUrl.class(), ErrorClass::Extraction);
    assert_eq!(AcquireError::NoHost.class(), ErrorClass::Extraction);
    assert_eq!(AcquireError::Extraction.class(), ErrorClass::Extraction);
}

#[test]
fn content_from_given_fragments() {
    let long = "k".repeat(31);
    let fragments = vec![String::from(" one "), String::from("two\n"), long.clone()];
    let c = assemble_content(
        Some("text/html"),
        String::from("d.example"),
        (String::from("T"), String::from("<p>markup</p>")),
        &fragments,
        TextPolicy::SoftBreak,
    );
    assert_eq!(c.title, "T");
    assert_eq!(c.html, "<p>markup</p>");
    assert_eq!(c.text, format!("one two {} ", long));
    assert_eq!(c.domain, "d.example");
    assert!(!c.is_paywalled);
    let c = assemble_content(
        None,
        String::from("d.example"),
        (String::new(), String::new()),
        &Vec::new(),
        TextPolicy::Collapse,
    );
    assert_eq!(c.text, "");
    assert!(c.is_paywalled);
}
