//! Listing the top stories: which items to ask for, in which order, and when
//! the listing has failed. One failure fails the whole listing: there are no
//! partial results.

use vstd::prelude::*;
use vstd::string::StringExecFns;
use crate::decimal::{decimal, push_decimal};
use crate::model::{story_views, Story, StoryView};

verus! {

/// Where the ordered list of the top stories' identifiers is found.
pub const TOP_URL: &'static str = "https://hacker-news.firebaseio.com/v0/topstories.json";

/// What an item's address starts with, before its identifier.
pub const ITEM_URL: &'static str = "https://hacker-news.firebaseio.com/v0/item/";

/// What an item's address ends with, after its identifier.
pub const ITEM_SUFFIX: &'static str = ".json";

/// Why a listing failed.
#[derive(Clone, Copy, Debug, PartialEq, Eq, Structural)]
pub enum ListingError {
    /// The list of identifiers could not be fetched or read.
    TopStories,
    /// The item with this identifier could not be fetched or read.
    Item(u64),
}

/// The identifiers to list: the first `limit` of those given, in their order.
pub open spec fn planned(ids: Seq<u64>, limit: nat) -> Seq<u64> {
    if limit <= ids.len() {
        ids.take(limit as int)
    } else {
        ids
    }
}

/// The address of an item's record: the base, the identifier as a decimal
/// numeral, and the suffix.
pub open spec fn item_address(base: Seq<char>, id: u64) -> Seq<char> {
    base + decimal(id as nat) + ITEM_SUFFIX@
}

/// The address of the record of the item `id` under `base`.
pub fn item_url(base: &str, id: u64) -> (r: String)
    ensures
        r@ == item_address(base@, id),
{
    let mut out = base.to_owned();
    push_decimal(&mut out, id);
    out.append(ITEM_SUFFIX);
    out
}

/// A listing under way: the identifiers to list and the stories read so far.
pub struct Listing {
    ids: Vec<u64>,
    stories: Vec<Story>,
    failed: bool,
}

impl Listing {
    /// The identifiers to list, in display order.
    pub closed spec fn ids(&self) -> Seq<u64> {
        self.ids@
    }

    /// The stories read so far, in display order.
    pub closed spec fn stories(&self) -> Seq<StoryView> {
        story_views(self.stories@)
    }

    /// An item could not be read.
    pub closed spec fn failed(&self) -> bool {
        self.failed
    }

    /// No more stories were read than identifiers are listed, and after a
    /// failure one item at least is missing.
    pub open spec fn wf(&self) -> bool {
        &&& self.stories().len() <= self.ids().len()
        &&& self.failed() ==> self.stories().len() < self.ids().len()
    }

    /// The identifier of the item to read next: the first without a story,
    /// unless the listing has failed.
    pub open spec fn pending(&self) -> Option<u64> {
        if !self.failed() && self.stories().len() < self.ids().len() {
            Some(self.ids()[self.stories().len() as int])
        } else {
            None
        }
    }

    /// Starts a listing of the first `limit` identifiers of the top list;
    /// without a top list the listing has failed before it began.
    pub fn start(top: Option<Vec<u64>>, limit: usize) -> (r: Result<Listing, ListingError>)
        ensures
            match top {
                None => r == Err::<Listing, ListingError>(ListingError::TopStories),
                Some(ids) => r is Ok && r->Ok_0.wf() && r->Ok_0.ids() == planned(
                    ids@,
                    limit as nat,
                ) && r->Ok_0.ids().len() <= limit && r->Ok_0.stories().len() == 0
                    && !r->Ok_0.failed(),
            },
    {
        match top {
            None => Err(ListingError::TopStories),
            Some(ids) => {
                let mut ids = ids;
                if limit < ids.len() {
                    ids.truncate(limit);
                }
                Ok(Listing { ids, stories: Vec::new(), failed: false })
            },
        }
    }

    /// The item to read next, if the listing is neither complete nor failed.
    pub fn next_id(&self) -> (r: Option<u64>)
        requires
            self.wf(),
        ensures
            r == self.pending(),
    {
        if !self.failed && self.stories.len() < self.ids.len() {
            Some(self.ids[self.stories.len()])
        } else {
            None
        }
    }

    /// Records what reading the pending item gave: its story, or `None` where
    /// it could not be fetched or read, which fails the listing.
    pub fn record(&mut self, item: Option<Story>)
        requires
            old(self).wf(),
            old(self).pending() is Some,
        ensures
            final(self).wf(),
            final(self).ids() == old(self).ids(),
            match item {
                Some(story) => final(self).stories() == old(self).stories().push(story@)
                    && !final(self).failed(),
                None => final(self).stories() == old(self).stories() && final(self).failed(),
            },
    {
        match item {
            Some(story) => {
                let ghost prev = *old(self);
                self.stories.push(story);
                proof {
                    assert(self.stories() =~= prev.stories().push(story@));
                }
            },
            None => {
                self.failed = true;
            },
        }
    }

    /// Ends the listing: the stories, one for each identifier and in their
    /// order, if every item was read; else the first item that is missing.
    pub fn finish(self) -> (r: Result<Vec<Story>, ListingError>)
        requires
            self.wf(),
        ensures
            match r {
                Ok(stories) => self.stories().len() == self.ids().len() && story_views(stories@)
                    == self.stories(),
                Err(e) => self.stories().len() < self.ids().len() && e == ListingError::Item(
                    self.ids()[self.stories().len() as int],
                ),
            },
    {
        if self.stories.len() == self.ids.len() {
            Ok(self.stories)
        } else {
            Err(ListingError::Item(self.ids[self.stories.len()]))
        }
    }
}

} // verus!
