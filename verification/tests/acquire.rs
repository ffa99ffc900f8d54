use hn_daily::acquire::{Acquisition, Action};
use hn_daily::model::{ExtractedContent, Story};
use hn_daily::page::{AcquireError, FetchOutcome, PageResponse};
use hn_daily::render::{render_html, render_text};
use hn_daily::text::TextPolicy;

const ARTICLE: &str = "<html><head><title>Readable</title></head><body>\
<article><h1>Readable</h1>\
<p>A first paragraph with enough words, commas, and clauses to count as readable content, \
so that the extraction keeps it as the main content of the page.</p>\
<p>A second paragraph, again with commas, words, and more words, for the extraction to \
score this block highly.</p>\
</article></body></html>";

fn linked(id: u64, url: Option<&str>) -> Story {
    Story {
        id,
        by: None,
        score: None,
        time: None,
        title: Some(format!("Story {}", id)),
        url: url.map(String::from),
        descendants: None,
    }
}

fn answered(status: u16, content_type: &str) -> FetchOutcome {
    FetchOutcome::Response(PageResponse {
        status,
        content_type: Some(String::from(content_type)),
        body: Some(String::from(ARTICLE)),
    })
}

fn count(hay: &str, needle: &str) -> usize {
    hay.matches(needle).count()
}

fn run(stories: Vec<Story>, mut answers: Vec<FetchOutcome>) -> (Vec<String>, Vec<Option<ExtractedContent>>) {
    answers.reverse();
    let mut requested = Vec::new();
    let mut acquisition = Acquisition::new(stories, TextPolicy::Collapse);
    loop {
        match acquisition.next_action() {
            Action::Done => break,
            Action::Fetch(url) => {
                requested.push(url);
                let _ = acquisition.record(answers.pop().unwrap());
            }
        }
    }
    assert!(acquisition.is_done());
    (requested, acquisition.into_results())
}

#[test]
fn one_slot_for_each_story_in_order() {
    let stories = vec![
        linked(1, Some("https://a.example/1")),
        linked(2, None),
        linked(3, Some("https://c.example/3")),
        linked(4, Some("")),
    ];
    let (requested, slots) = run(
        stories,
        vec![answered(200, "text/html"), answered(200, "text/html")],
    );
    assert_eq!(requested, vec!["https://a.example/1", "https://c.example/3"]);
    assert_eq!(slots.len(), 4);
    assert_eq!(slots[0].as_ref().unwrap().domain, "a.example");
    assert!(slots[1].is_none());
    assert_eq!(slots[2].as_ref().unwrap().domain, "c.example");
    assert!(slots[3].is_none());
}

#[test]
fn story_without_link_is_unavailable_and_not_requested() {
    let (requested, slots) = run(vec![linked(1, None), linked(2, Some(""))], vec![]);
    assert!(requested.is_empty());
    assert_eq!(slots.len(), 2);
    assert!(slots[0].is_none());
    assert!(slots[1].is_none());
}

#[test]
fn empty_list_is_done_at_once() {
    let mut acquisition = Acquisition::new(Vec::new(), TextPolicy::SoftBreak);
    assert!(acquisition.is_done());
    assert!(!acquisition.is_awaiting());
    assert!(matches!(acquisition.next_action(), Action::Done));
    assert_eq!(acquisition.into_results().len(), 0);
}

#[test]
fn record_reports_the_reason() {
    let mut acquisition = Acquisition::new(
        vec![linked(1, Some("https://a.example/1")), linked(2, Some("https://b.example/2"))],
        TextPolicy::Collapse,
    );
    assert!(acquisition.is_awaiting());
    assert!(matches!(acquisition.next_action(), Action::Fetch(_)));
    assert_eq!(acquisition.record(FetchOutcome::Failed), Err(AcquireError::RequestFailed));
    assert!(matches!(acquisition.next_action(), Action::Fetch(_)));
    assert_eq!(acquisition.record(answered(200, "text/html")), Ok(()));
    assert!(acquisition.is_done());
    let slots = acquisition.into_results();
    assert!(slots[0].is_none());
    assert!(slots[1].is_some());
}

#[test]
fn mixed_stories_degrade_one_by_one() {
    let stories = vec![
        linked(1, None),
        linked(2, Some("https://gone.example/2")),
        linked(3, Some("https://ok.example/3")),
    ];
    let (requested, slots) = run(
        stories.clone(),
        vec![answered(404, "text/html"), answered(200, "text/html")],
    );
    assert_eq!(requested.len(), 2);
    assert_eq!(slots.len(), 3);
    assert!(slots[0].is_none());
    assert!(slots[1].is_none());
    assert!(slots[2].is_some());
    let html = render_html("January  1, 2025", &stories, &slots);
    assert_eq!(count(&html, "<em>Could not retrieve content</em>"), 2);
    assert_eq!(count(&html, "<div class=\"full-content\">"), 1);
    assert_eq!(count(&html, "<div class=\"domain\">ok.example</div>"), 1);
    assert_eq!(count(&html, "Content may be behind a paywall"), 0);
}

#[test]
fn pdf_page_is_present_but_flagged() {
    let stories = vec![linked(1, Some("https://papers.example/p.pdf"))];
    let (_, slots) = run(stories.clone(), vec![answered(200, "application/pdf")]);
    assert_eq!(slots.len(), 1);
    let content = slots[0].as_ref().unwrap();
    assert!(content.is_paywalled);
    let html = render_html("January  1, 2025", &stories, &slots);
    let banner = "<div class=\"paywall-warning\">Content may be behind a paywall</div>";
    let expected = format!(
        "<div class=\"domain\">papers.example</div>{}<div class=\"full-content\">{}</div></div>",
        banner, content.html
    );
    assert_eq!(count(&html, banner), 1);
    assert!(html.contains(&expected));
}

#[test]
fn pdf_page_without_text_body_is_unavailable() {
    let stories = vec![linked(1, Some("https://papers.example/p.pdf"))];
    let unread = FetchOutcome::Response(PageResponse {
        status: 200,
        content_type: Some(String::from("application/pdf")),
        body: None,
    });
    let (_, slots) = run(stories.clone(), vec![unread]);
    assert!(slots[0].is_none());
    let html = render_html("January  1, 2025", &stories, &slots);
    assert_eq!(count(&html, "<em>Could not retrieve content</em>"), 1);
    assert_eq!(count(&html, "Content may be behind a paywall"), 0);
}

#[test]
fn text_rendition_of_a_digest() {
    let stories = vec![linked(1, None)];
    let html = render_html("January  1, 2025", &stories, &[None]);
    let text = render_text(&html).unwrap();
    assert_ne!(text, html);
    assert!(text.contains("Hacker News Daily"));
    assert!(text.contains("Story 1"));
    assert!(text.contains("Could not retrieve content"));
    assert!(!text.contains("<article"));
    assert!(text.lines().all(|l| l.chars().count() <= 80));
}

#[test]
fn text_rendition_of_a_paragraph() {
    assert_eq!(render_text("<p>Hello, world</p>"), Some(String::from("Hello, world\n")));
}
