//! Acquisition of the stories' contents, one story at a time and in order. The
//! caller makes the requests; what to request next and what a response means
//! is decided here. A story that fails leaves its own slot empty and no other.

use vstd::prelude::*;
use crate::listing::planned;
use crate::model::{slot_views, story_views, ContentView, ExtractedContent, Story, StoryView};
use crate::page::{fetch_and_process, page_result, AcquireError, FetchOutcome, OutcomeView};
use crate::text::TextPolicy;

verus! {

/// What the caller is to do next.
#[derive(Debug)]
pub enum Action {
    /// Request this page and record how the request ended.
    Fetch(String),
    /// Every story has its slot.
    Done,
}

/// The slot that a story is owed: empty for a story without a link, for which
/// no request is made, and for one whose page gave no content.
pub open spec fn slot_for(story: StoryView, outcome: Option<OutcomeView>, policy: TextPolicy) -> Option<
    ContentView,
> {
    if !story.has_link() || outcome is None {
        None
    } else {
        match page_result(story.url->0, outcome->0, policy) {
            Ok(c) => Some(c),
            Err(_) => None,
        }
    }
}

/// The slots of a whole acquisition: one for each story, at the story's position.
pub open spec fn acquired(
    stories: Seq<StoryView>,
    outcomes: Seq<Option<OutcomeView>>,
    policy: TextPolicy,
) -> Seq<Option<ContentView>> {
    Seq::new(stories.len(), |i: int| slot_for(stories[i], outcomes[i], policy))
}

/// An acquisition has as many slots as there are stories, and slot `i` is the
/// one owed to story `i`.
pub proof fn lemma_acquired_aligned(
    stories: Seq<StoryView>,
    outcomes: Seq<Option<OutcomeView>>,
    policy: TextPolicy,
)
    ensures
        acquired(stories, outcomes, policy).len() == stories.len(),
        forall|i: int|
            0 <= i < stories.len() ==> #[trigger] acquired(stories, outcomes, policy)[i]
                == slot_for(stories[i], outcomes[i], policy),
{
}

/// Where the limit does not exceed the number of identifiers on offer, the
/// listing plans `limit` stories, and the acquisition of as many stories has
/// `limit` slots, slot `i` being the one owed to story `i`.
pub proof fn lemma_limit_gives_as_many_slots(
    ids: Seq<u64>,
    limit: nat,
    stories: Seq<StoryView>,
    outcomes: Seq<Option<OutcomeView>>,
    policy: TextPolicy,
)
    requires
        limit <= ids.len(),
        stories.len() == planned(ids, limit).len(),
    ensures
        planned(ids, limit).len() == limit,
        acquired(stories, outcomes, policy).len() == limit,
        forall|i: int|
            0 <= i < limit ==> #[trigger] acquired(stories, outcomes, policy)[i] == slot_for(
                stories[i],
                outcomes[i],
                policy,
            ),
{
}

/// A story without a link, or with an empty one, has an empty slot whatever
/// else is the case.
pub proof fn lemma_linkless_unavailable(
    story: StoryView,
    outcome: Option<OutcomeView>,
    policy: TextPolicy,
)
    requires
        story.url is None || story.url->0.len() == 0,
    ensures
        slot_for(story, outcome, policy) is None,
{
}

/// An acquisition under way: the stories, and the slots filled so far.
pub struct Acquisition {
    stories: Vec<Story>,
    slots: Vec<Option<ExtractedContent>>,
    policy: TextPolicy,
    outcomes: Ghost<Seq<Option<OutcomeView>>>,
}

impl Acquisition {
    /// The stories to acquire.
    pub closed spec fn stories(&self) -> Seq<StoryView> {
        story_views(self.stories@)
    }

    /// The slots filled so far, in the order of the stories.
    pub closed spec fn slots(&self) -> Seq<Option<ContentView>> {
        slot_views(self.slots@)
    }

    /// For each slot filled so far, how the story's request ended; `None` where
    /// none was made.
    pub closed spec fn outcomes(&self) -> Seq<Option<OutcomeView>> {
        self.outcomes@
    }

    /// The policy under which plain text is normalised.
    pub closed spec fn policy(&self) -> TextPolicy {
        self.policy
    }

    /// The slots filled so far are those owed to the first stories, and a
    /// request was made for exactly the stories among them that have a link.
    pub open spec fn wf(&self) -> bool {
        &&& self.slots().len() <= self.stories().len()
        &&& self.outcomes().len() == self.slots().len()
        &&& forall|i: int|
            0 <= i < self.slots().len() ==> {
                &&& (#[trigger] self.outcomes()[i]) is Some == self.stories()[i].has_link()
                &&& self.slots()[i] == slot_for(self.stories()[i], self.outcomes()[i], self.policy())
            }
    }

    /// Every story has its slot.
    pub open spec fn done(&self) -> bool {
        self.slots().len() == self.stories().len()
    }

    /// The next story has a link, and its request has not been recorded yet.
    pub open spec fn awaiting(&self) -> bool {
        &&& self.slots().len() < self.stories().len()
        &&& self.stories()[self.slots().len() as int].has_link()
    }

    /// The link of the next story, where there is a next story and it has one.
    pub open spec fn next_link(&self) -> Option<Seq<char>> {
        if self.awaiting() {
            self.stories()[self.slots().len() as int].url
        } else {
            None
        }
    }

    /// Filling the next story's slot with the slot owed to it keeps an
    /// acquisition well-formed.
    proof fn lemma_wf_after_push(
        self,
        next: Acquisition,
        slot: Option<ContentView>,
        outcome: Option<OutcomeView>,
    )
        requires
            self.wf(),
            self.slots().len() < self.stories().len(),
            next.stories() == self.stories(),
            next.policy() == self.policy(),
            next.slots() == self.slots().push(slot),
            next.outcomes() == self.outcomes().push(outcome),
            outcome is Some == self.stories()[self.slots().len() as int].has_link(),
            slot == slot_for(self.stories()[self.slots().len() as int], outcome, self.policy()),
        ensures
            next.wf(),
    {
        assert forall|i: int| 0 <= i < next.slots().len() implies {
            &&& (#[trigger] next.outcomes()[i]) is Some == next.stories()[i].has_link()
            &&& next.slots()[i] == slot_for(next.stories()[i], next.outcomes()[i], next.policy())
        } by {
            if i < self.slots().len() {
                assert(next.slots()[i] == self.slots()[i]);
                assert(next.outcomes()[i] == self.outcomes()[i]);
            }
        }
    }

    /// Starts an acquisition with no slot filled.
    pub fn new(stories: Vec<Story>, policy: TextPolicy) -> (r: Self)
        ensures
            r.wf(),
            r.stories() == story_views(stories@),
            r.slots().len() == 0,
            r.policy() == policy,
    {
        Acquisition { stories, slots: Vec::new(), policy, outcomes: Ghost(Seq::empty()) }
    }

    /// Tells whether every story has its slot.
    pub fn is_done(&self) -> (r: bool)
        requires
            self.wf(),
        ensures
            r == self.done(),
    {
        self.slots.len() == self.stories.len()
    }

    /// Tells whether the next story has a link, so that `record` may be called.
    pub fn is_awaiting(&self) -> (r: bool)
        requires
            self.wf(),
        ensures
            r == self.awaiting(),
    {
        let at = self.slots.len();
        at < self.stories.len() && self.stories[at].link().is_some()
    }

    /// Leaves the slot of each story without a link empty, making no request for
    /// it, up to the first story that has one, and asks for that story's page;
    /// `Done` where no story is left.
    pub fn next_action(&mut self) -> (r: Action)
        requires
            old(self).wf(),
        ensures
            final(self).wf(),
            final(self).stories() == old(self).stories(),
            final(self).policy() == old(self).policy(),
            final(self).slots().len() >= old(self).slots().len(),
            final(self).slots().take(old(self).slots().len() as int) == old(self).slots(),
            final(self).outcomes().take(old(self).slots().len() as int) == old(self).outcomes(),
            forall|i: int|
                old(self).slots().len() <= i < final(self).slots().len() ==> {
                    &&& !(#[trigger] final(self).stories()[i]).has_link()
                    &&& final(self).slots()[i] is None
                    &&& final(self).outcomes()[i] is None
                },
            match r {
                Action::Done => final(self).done(),
                Action::Fetch(url) => final(self).awaiting() && Some(url@) == final(
                    self).next_link(),
            },
    {
        let ghost before = *old(self);
        loop
            invariant
                before == *old(self),
                self.wf(),
                self.stories() == before.stories(),
                self.stories@ == before.stories@,
                self.policy() == before.policy(),
                self.slots().len() >= before.slots().len(),
                self.slots().take(before.slots().len() as int) == before.slots(),
                self.outcomes().take(before.slots().len() as int) == before.outcomes(),
                forall|i: int|
                    before.slots().len() <= i < self.slots().len() ==> {
                        &&& !(#[trigger] self.stories()[i]).has_link()
                        &&& self.slots()[i] is None
                        &&& self.outcomes()[i] is None
                    },
            decreases self.stories@.len() - self.slots@.len(),
        {
            let at = self.slots.len();
            if at >= self.stories.len() {
                return Action::Done;
            }
            match self.stories[at].link() {
                Some(url) => {
                    return Action::Fetch(url.to_owned());
                },
                None => {
                    let ghost prev = *self;
                    self.slots.push(None);
                    proof {
                        self.outcomes@ = self.outcomes@.push(None);
                        assert(self.slots().take(before.slots().len() as int) =~= prev.slots().take(
                            before.slots().len() as int,
                        ));
                        assert(self.outcomes().take(before.slots().len() as int)
                            =~= prev.outcomes().take(before.slots().len() as int));
                        assert(self.slots() =~= prev.slots().push(None));
                        prev.lemma_wf_after_push(*self, None, None);
                    }
                },
            }
        }
    }

    /// Records how the request for the next story's page ended: the story's
    /// slot is filled with the content, or left empty for the reason returned.
    pub fn record(&mut self, outcome: FetchOutcome) -> (r: Result<(), AcquireError>)
        requires
            old(self).wf(),
            old(self).awaiting(),
        ensures
            final(self).wf(),
            final(self).stories() == old(self).stories(),
            final(self).policy() == old(self).policy(),
            final(self).outcomes() == old(self).outcomes().push(Some(outcome@)),
            final(self).slots() == old(self).slots().push(
                slot_for(
                    old(self).stories()[old(self).slots().len() as int],
                    Some(outcome@),
                    old(self).policy(),
                ),
            ),
            r == match page_result(
                old(self).stories()[old(self).slots().len() as int].url->0,
                outcome@,
                old(self).policy(),
            ) {
                Ok(_) => Ok::<(), AcquireError>(()),
                Err(e) => Err(e),
            },
    {
        let ghost prev = *self;
        let at = self.slots.len();
        let (slot, report) = match self.stories[at].link() {
            Some(url) => match fetch_and_process(url, &outcome, self.policy) {
                Ok(content) => (Some(content), Ok(())),
                Err(e) => (None, Err(e)),
            },
            None => (None, Ok(())),
        };
        self.slots.push(slot);
        proof {
            self.outcomes@ = self.outcomes@.push(Some(outcome@));
            assert(self.slots() =~= prev.slots().push(
                slot_for(prev.stories()[at as int], Some(outcome@), prev.policy()),
            ));
            prev.lemma_wf_after_push(
                *self,
                slot_for(prev.stories()[at as int], Some(outcome@), prev.policy()),
                Some(outcome@),
            );
        }
        report
    }

    /// Hands out the slots filled so far: once the acquisition is done, one for
    /// each story, at the story's position.
    pub fn into_results(self) -> (r: Vec<Option<ExtractedContent>>)
        requires
            self.wf(),
        ensures
            slot_views(r@) == self.slots(),
            self.done() ==> slot_views(r@) == acquired(
                self.stories(),
                self.outcomes(),
                self.policy(),
            ),
    {
        proof {
            if self.done() {
                assert(self.slots() =~= acquired(self.stories(), self.outcomes(), self.policy()));
            }
        }
        self.slots
    }
}

} // verus!
