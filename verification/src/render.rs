//! The digest document: an index with one entry for each story, and one
//! article section for each story, entry and section joined by the anchor of
//! the story's position.

use vstd::prelude::*;
use vstd::string::StringExecFns;
use crate::decimal::{decimal, lemma_decimal_injective, push_decimal};
use crate::model::{opt_text, slot_view, slot_views, story_views, ContentView, ExtractedContent, Story, StoryView};
use crate::outside::{html_to_text, text_rendition};
use crate::template::{PAGE_ARTICLES_OPEN, PAGE_CLOSE, PAGE_INDEX_OPEN, PAGE_OPEN, PAGE_STYLE_AND_SCRIPT};

verus! {

/// The column at which the plain-text rendition wraps.
pub const TEXT_WIDTH: usize = 80;

/// What every anchor starts with, before the story's position.
pub const ANCHOR_STEM: &'static str = "article-";

/// An index entry up to its anchor.
pub const ENTRY_OPEN: &'static str = "<li><a href=\"#";

/// An index entry between its anchor and its title.
pub const ENTRY_TITLE: &'static str = "\">";

/// An index entry after its title.
pub const ENTRY_CLOSE: &'static str = "</a></li>";

/// An article section up to its anchor.
pub const SECTION_OPEN: &'static str = "<article id=\"";

/// An article section between its anchor and the story's link.
pub const SECTION_LINK: &'static str = "\" class=\"story\"><h2><a href=\"";

/// An article section between the link and the title.
pub const SECTION_TITLE: &'static str = "\">";

/// An article section between the title and the score.
pub const SECTION_SCORE: &'static str = "</a></h2><p class=\"meta\">";

/// An article section between the score and the author.
pub const SECTION_AUTHOR: &'static str = " points • by ";

/// An article section between the author and the number of comments.
pub const SECTION_COMMENTS: &'static str = " • ";

/// An article section between the number of comments and the content block.
pub const SECTION_CONTENT: &'static str = " comments</p>";

/// An article section after its content block.
pub const SECTION_CLOSE: &'static str = "</article><hr>";

/// A content block up to the domain.
pub const CONTENT_DOMAIN: &'static str = "<div class=\"content\"><div class=\"domain\">";

/// A content block after the domain.
pub const CONTENT_DOMAIN_CLOSE: &'static str = "</div>";

/// The banner of a content that may not be freely readable.
pub const PAYWALL_WARNING: &'static str =
    "<div class=\"paywall-warning\">Content may be behind a paywall</div>";

/// A content block before the extracted content.
pub const CONTENT_FULL: &'static str = "<div class=\"full-content\">";

/// A content block after the extracted content.
pub const CONTENT_CLOSE: &'static str = "</div></div>";

/// The notice in place of a content that is not there.
pub const CONTENT_UNAVAILABLE: &'static str =
    "<div class=\"content\"><em>Could not retrieve content</em></div>";

/// The anchor of the story at position `i`.
pub open spec fn anchor(i: nat) -> Seq<char> {
    ANCHOR_STEM@ + decimal(i)
}

/// What the index entry of position `i` starts with: the link to the anchor.
pub open spec fn entry_link(i: nat) -> Seq<char> {
    ENTRY_OPEN@ + anchor(i) + ENTRY_TITLE@
}

/// What the article section of position `i` starts with: the element that
/// carries the anchor.
pub open spec fn section_head(i: nat) -> Seq<char> {
    SECTION_OPEN@ + anchor(i) + SECTION_LINK@
}

/// The index entry of the story at position `i`.
pub open spec fn index_entry(i: nat, story: StoryView) -> Seq<char> {
    entry_link(i) + story.shown_title() + ENTRY_CLOSE@
}

/// The content block of a slot: the domain, the banner where the content is
/// flagged, and the content as it was extracted; or the notice.
pub open spec fn content_block(slot: Option<ContentView>) -> Seq<char> {
    match slot {
        Some(c) => CONTENT_DOMAIN@ + c.domain + CONTENT_DOMAIN_CLOSE@ + (if c.is_paywalled {
            PAYWALL_WARNING@
        } else {
            Seq::empty()
        }) + CONTENT_FULL@ + c.html + CONTENT_CLOSE@,
        None => CONTENT_UNAVAILABLE@,
    }
}

/// The article section of the story at position `i`.
pub open spec fn article_section(i: nat, story: StoryView, slot: Option<ContentView>) -> Seq<char> {
    section_head(i) + story.shown_link() + SECTION_TITLE@ + story.shown_title() + SECTION_SCORE@
        + decimal(story.shown_score() as nat) + SECTION_AUTHOR@ + story.shown_author()
        + SECTION_COMMENTS@ + decimal(story.shown_comments() as nat) + SECTION_CONTENT@
        + content_block(slot) + SECTION_CLOSE@
}

/// The slot at position `i`, empty where the slots end before it.
pub open spec fn slot_at(slots: Seq<Option<ContentView>>, i: int) -> Option<ContentView> {
    if 0 <= i < slots.len() {
        slots[i]
    } else {
        None
    }
}

/// The index entries, one for each story.
pub open spec fn index_entries(stories: Seq<StoryView>) -> Seq<Seq<char>> {
    Seq::new(stories.len(), |i: int| index_entry(i as nat, stories[i]))
}

/// The article sections, one for each story.
pub open spec fn article_sections(
    stories: Seq<StoryView>,
    slots: Seq<Option<ContentView>>,
) -> Seq<Seq<char>> {
    Seq::new(stories.len(), |i: int| article_section(i as nat, stories[i], slot_at(slots, i)))
}

/// The parts one after the other.
pub open spec fn concat(parts: Seq<Seq<char>>) -> Seq<char>
    decreases parts.len(),
{
    if parts.len() == 0 {
        Seq::empty()
    } else {
        concat(parts.drop_last()) + parts.last()
    }
}

/// The digest document.
pub open spec fn document(
    date: Seq<char>,
    stories: Seq<StoryView>,
    slots: Seq<Option<ContentView>>,
) -> Seq<char> {
    PAGE_OPEN@ + date + PAGE_STYLE_AND_SCRIPT@ + date + PAGE_INDEX_OPEN@ + concat(
        index_entries(stories),
    ) + PAGE_ARTICLES_OPEN@ + concat(article_sections(stories, slots)) + PAGE_CLOSE@
}

/// Different positions have different anchors.
pub proof fn lemma_anchor_injective(i: nat, j: nat)
    requires
        anchor(i) == anchor(j),
    ensures
        i == j,
{
    let n = ANCHOR_STEM@.len() as int;
    assert(anchor(i).subrange(n, anchor(i).len() as int) =~= decimal(i));
    assert(anchor(j).subrange(n, anchor(j).len() as int) =~= decimal(j));
    lemma_decimal_injective(i, j);
}

/// The index has as many entries as there are stories, and so many article
/// sections are there; entry `i` links to the anchor that section `i` carries,
/// and to that of no other section.
pub proof fn lemma_index_matches_sections(stories: Seq<StoryView>, slots: Seq<Option<ContentView>>)
    ensures
        index_entries(stories).len() == stories.len(),
        article_sections(stories, slots).len() == stories.len(),
        forall|i: int|
            0 <= i < stories.len() ==> entry_link(i as nat).is_prefix_of(
                #[trigger] index_entries(stories)[i],
            ),
        forall|i: int|
            0 <= i < stories.len() ==> section_head(i as nat).is_prefix_of(
                #[trigger] article_sections(stories, slots)[i],
            ),
        forall|i: nat, j: nat| #![trigger anchor(i), anchor(j)] anchor(i) == anchor(j) ==> i == j,
{
    assert forall|i: nat, j: nat| #![trigger anchor(i), anchor(j)] anchor(i) == anchor(j) implies i
        == j by {
        lemma_anchor_injective(i, j);
    }
}

fn push_anchor(out: &mut String, i: usize)
    ensures
        final(out)@ == old(out)@ + anchor(i as nat),
{
    out.append(ANCHOR_STEM);
    push_decimal(out, i as u64);
    proof {
        assert(out@ =~= old(out)@ + anchor(i as nat));
    }
}

/// The index entry of the story at position `i`.
pub fn index_entry_html(i: usize, story: &Story) -> (r: String)
    ensures
        r@ == index_entry(i as nat, story@),
{
    let mut out = ENTRY_OPEN.to_owned();
    push_anchor(&mut out, i);
    out.append(ENTRY_TITLE);
    out.append(story.title_or_default());
    out.append(ENTRY_CLOSE);
    out
}

/// The content block of a slot.
pub fn content_block_html(slot: &Option<ExtractedContent>) -> (r: String)
    ensures
        r@ == content_block(slot_view(*slot)),
{
    match slot {
        Some(c) => {
            let mut out = CONTENT_DOMAIN.to_owned();
            out.append(c.domain.as_str());
            out.append(CONTENT_DOMAIN_CLOSE);
            if c.is_paywalled {
                out.append(PAYWALL_WARNING);
            }
            proof {
                assert(out@ =~= CONTENT_DOMAIN@ + c.domain@ + CONTENT_DOMAIN_CLOSE@ + (if c.is_paywalled {
                    PAYWALL_WARNING@
                } else {
                    Seq::empty()
                }));
            }
            out.append(CONTENT_FULL);
            out.append(c.html.as_str());
            out.append(CONTENT_CLOSE);
            out
        },
        None => CONTENT_UNAVAILABLE.to_owned(),
    }
}

/// The article section of the story at position `i` with its slot.
pub fn article_section_html(i: usize, story: &Story, slot: &Option<ExtractedContent>) -> (r: String)
    ensures
        r@ == article_section(i as nat, story@, slot_view(*slot)),
{
    let mut out = SECTION_OPEN.to_owned();
    push_anchor(&mut out, i);
    out.append(SECTION_LINK);
    out.append(story.link_or_default());
    out.append(SECTION_TITLE);
    out.append(story.title_or_default());
    out.append(SECTION_SCORE);
    push_decimal(&mut out, story.score_or_default() as u64);
    out.append(SECTION_AUTHOR);
    out.append(story.author_or_default());
    out.append(SECTION_COMMENTS);
    push_decimal(&mut out, story.comments_or_default() as u64);
    out.append(SECTION_CONTENT);
    let block = content_block_html(slot);
    out.append(block.as_str());
    out.append(SECTION_CLOSE);
    out
}

/// The index: the entries of all stories, in order.
pub fn index_html(stories: &[Story]) -> (r: String)
    ensures
        r@ == concat(index_entries(story_views(stories@))),
{
    let mut out = String::new();
    let mut i: usize = 0;
    let ghost all = index_entries(story_views(stories@));
    while i < stories.len()
        invariant
            i <= stories.len(),
            all == index_entries(story_views(stories@)),
            out@ == concat(all.take(i as int)),
        decreases stories.len() - i,
    {
        let entry = index_entry_html(i, &stories[i]);
        out.append(entry.as_str());
        proof {
            assert(all.take(i + 1).drop_last() =~= all.take(i as int));
            assert(all.take(i + 1).last() == entry@);
        }
        i = i + 1;
    }
    proof {
        assert(all.take(i as int) =~= all);
    }
    out
}

/// The articles: the sections of all stories, in order, each with the slot at
/// its position.
pub fn articles_html(stories: &[Story], contents: &[Option<ExtractedContent>]) -> (r: String)
    ensures
        r@ == concat(article_sections(story_views(stories@), slot_views(contents@))),
{
    let mut out = String::new();
    let mut i: usize = 0;
    let ghost all = article_sections(story_views(stories@), slot_views(contents@));
    while i < stories.len()
        invariant
            i <= stories.len(),
            all == article_sections(story_views(stories@), slot_views(contents@)),
            out@ == concat(all.take(i as int)),
        decreases stories.len() - i,
    {
        let section = if i < contents.len() {
            article_section_html(i, &stories[i], &contents[i])
        } else {
            article_section_html(i, &stories[i], &None)
        };
        out.append(section.as_str());
        proof {
            assert(all.take(i + 1).drop_last() =~= all.take(i as int));
            assert(all.take(i + 1).last() == section@);
        }
        i = i + 1;
    }
    proof {
        assert(all.take(i as int) =~= all);
    }
    out
}

/// Renders the digest document for a date, the stories and their slots.
pub fn render_html(date: &str, stories: &[Story], contents: &[Option<ExtractedContent>]) -> (r:
    String)
    ensures
        r@ == document(date@, story_views(stories@), slot_views(contents@)),
{
    let mut out = PAGE_OPEN.to_owned();
    out.append(date);
    out.append(PAGE_STYLE_AND_SCRIPT);
    out.append(date);
    out.append(PAGE_INDEX_OPEN);
    let index = index_html(stories);
    out.append(index.as_str());
    out.append(PAGE_ARTICLES_OPEN);
    let articles = articles_html(stories, contents);
    out.append(articles.as_str());
    out.append(PAGE_CLOSE);
    out
}

/// The artifacts of a run.
#[derive(Clone, Copy, Debug, PartialEq, Eq, Structural)]
pub enum Artifact {
    /// The digest document.
    Html,
    /// Its plain-text rendition.
    Text,
    /// Its paginated rendition.
    Pdf,
}

/// The ending of an artifact's file name.
pub open spec fn extension(artifact: Artifact) -> Seq<char> {
    match artifact {
        Artifact::Html => ".html"@,
        Artifact::Text => ".txt"@,
        Artifact::Pdf => ".pdf"@,
    }
}

/// The file name of an artifact of the day `date`: the date, then the ending.
pub fn file_name(date: &str, artifact: Artifact) -> (r: String)
    ensures
        r@ == date@ + extension(artifact),
{
    let mut out = date.to_owned();
    match artifact {
        Artifact::Html => out.append(".html"),
        Artifact::Text => out.append(".txt"),
        Artifact::Pdf => out.append(".pdf"),
    }
    out
}

/// The plain-text rendition of a document: its text wrapped at `TEXT_WIDTH`
/// columns, a function of the document alone; `None` where the document cannot
/// be rendered.
pub fn render_text(html: &str) -> (r: Option<String>)
    ensures
        opt_text(r) == text_rendition(html@, TEXT_WIDTH as nat),
{
    match html_to_text(html, TEXT_WIDTH) {
        Ok(text) => Some(text),
        Err(_) => None,
    }
}

} // verus!
