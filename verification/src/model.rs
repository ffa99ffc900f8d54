//! The data of a digest: stories as listed, and what was acquired for each.

use vstd::prelude::*;

verus! {

/// The title shown for a story that has none.
pub const NO_TITLE: &'static str = "[no title]";

/// The author shown for a story that names none.
pub const NO_AUTHOR: &'static str = "unknown";

/// The link target of a story that has no link of its own.
pub const NO_LINK: &'static str = "#";

/// An optional string as an optional sequence of characters.
pub open spec fn opt_text(o: Option<String>) -> Option<Seq<char>> {
    match o {
        Some(s) => Some(s@),
        None => None,
    }
}

/// The strings of a list as sequences of characters, in order.
pub open spec fn text_views(parts: Seq<String>) -> Seq<Seq<char>> {
    Seq::new(parts.len(), |i: int| parts[i]@)
}

/// One listed item, as the aggregator gave it.
#[derive(Clone, Debug)]
pub struct Story {
    pub id: u64,
    pub by: Option<String>,
    pub score: Option<u32>,
    pub time: Option<u64>,
    pub title: Option<String>,
    pub url: Option<String>,
    pub descendants: Option<u32>,
}

/// What a `Story` holds, as plain values.
pub struct StoryView {
    pub id: u64,
    pub by: Option<Seq<char>>,
    pub score: Option<u32>,
    pub time: Option<u64>,
    pub title: Option<Seq<char>>,
    pub url: Option<Seq<char>>,
    pub descendants: Option<u32>,
}

impl View for Story {
    type V = StoryView;

    open spec fn view(&self) -> StoryView {
        StoryView {
            id: self.id,
            by: opt_text(self.by),
            score: self.score,
            time: self.time,
            title: opt_text(self.title),
            url: opt_text(self.url),
            descendants: self.descendants,
        }
    }
}

impl StoryView {
    /// The story links to a page: it has a link, and the link is not empty.
    pub open spec fn has_link(self) -> bool {
        self.url is Some && self.url->0.len() > 0
    }

    /// The title, or the placeholder.
    pub open spec fn shown_title(self) -> Seq<char> {
        match self.title {
            Some(t) => t,
            None => NO_TITLE@,
        }
    }

    /// The author, or the placeholder.
    pub open spec fn shown_author(self) -> Seq<char> {
        match self.by {
            Some(a) => a,
            None => NO_AUTHOR@,
        }
    }

    /// The link target, or the placeholder.
    pub open spec fn shown_link(self) -> Seq<char> {
        match self.url {
            Some(u) => u,
            None => NO_LINK@,
        }
    }

    /// The score, 0 where there is none.
    pub open spec fn shown_score(self) -> u32 {
        match self.score {
            Some(n) => n,
            None => 0,
        }
    }

    /// The number of comments, 0 where there is none.
    pub open spec fn shown_comments(self) -> u32 {
        match self.descendants {
            Some(n) => n,
            None => 0,
        }
    }
}

impl Story {
    /// The page to fetch for this story, if it links to one.
    pub fn link(&self) -> (r: Option<&str>)
        ensures
            r is Some == self@.has_link(),
            r is Some ==> r->0@ == self@.url->0,
    {
        match &self.url {
            Some(u) => {
                if u.as_str().is_empty() {
                    None
                } else {
                    Some(u.as_str())
                }
            },
            None => None,
        }
    }

    /// The title to show.
    pub fn title_or_default(&self) -> (r: &str)
        ensures
            r@ == self@.shown_title(),
    {
        match &self.title {
            Some(t) => t.as_str(),
            None => NO_TITLE,
        }
    }

    /// The author to show.
    pub fn author_or_default(&self) -> (r: &str)
        ensures
            r@ == self@.shown_author(),
    {
        match &self.by {
            Some(a) => a.as_str(),
            None => NO_AUTHOR,
        }
    }

    /// The link target to show.
    pub fn link_or_default(&self) -> (r: &str)
        ensures
            r@ == self@.shown_link(),
    {
        match &self.url {
            Some(u) => u.as_str(),
            None => NO_LINK,
        }
    }

    /// The score to show.
    pub fn score_or_default(&self) -> (r: u32)
        ensures
            r == self@.shown_score(),
    {
        match self.score {
            Some(n) => n,
            None => 0,
        }
    }

    /// The number of comments to show.
    pub fn comments_or_default(&self) -> (r: u32)
        ensures
            r == self@.shown_comments(),
    {
        match self.descendants {
            Some(n) => n,
            None => 0,
        }
    }
}

/// The readable content of one story's page.
#[derive(Clone, Debug)]
pub struct ExtractedContent {
    /// The title that the extraction found.
    pub title: String,
    /// The content as normalised plain text.
    pub text: String,
    /// The content as an HTML fragment.
    pub html: String,
    /// The page may not be freely readable.
    pub is_paywalled: bool,
    /// The host of the story's link.
    pub domain: String,
}

/// What an `ExtractedContent` holds, as plain values.
pub struct ContentView {
    pub title: Seq<char>,
    pub text: Seq<char>,
    pub html: Seq<char>,
    pub is_paywalled: bool,
    pub domain: Seq<char>,
}

impl View for ExtractedContent {
    type V = ContentView;

    open spec fn view(&self) -> ContentView {
        ContentView {
            title: self.title@,
            text: self.text@,
            html: self.html@,
            is_paywalled: self.is_paywalled,
            domain: self.domain@,
        }
    }
}

/// One slot of an acquisition as plain values: `None` marks a story without content.
pub open spec fn slot_view(slot: Option<ExtractedContent>) -> Option<ContentView> {
    match slot {
        Some(c) => Some(c@),
        None => None,
    }
}

/// The stories of a list as plain values, in order.
pub open spec fn story_views(stories: Seq<Story>) -> Seq<StoryView> {
    Seq::new(stories.len(), |i: int| stories[i]@)
}

/// The slots of an acquisition as plain values, in order.
pub open spec fn slot_views(slots: Seq<Option<ExtractedContent>>) -> Seq<Option<ContentView>> {
    Seq::new(slots.len(), |i: int| slot_view(slots[i]))
}

} // verus!
