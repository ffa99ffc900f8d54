//! The settings of a run: made once at startup and handed to whatever needs
//! them, so that a run against other endpoints needs no other code.

use vstd::prelude::*;
use crate::listing::{ITEM_URL, TOP_URL};
use crate::text::TextPolicy;

verus! {

/// How the listing client names itself.
pub const LISTING_AGENT: &'static str = "hn_daily/0.1";

/// How the content client names itself: as an ordinary browser does.
pub const BROWSER_AGENT: &'static str =
    "Mozilla/5.0 (Windows NT 10.0; Win64; x64) AppleWebKit/537.36 (KHTML, like Gecko) Chrome/112.0.0.0 Safari/537.36";

/// The seconds after which a request to the listing API is given up.
pub const LISTING_TIMEOUT_SECS: u64 = 10;

/// The seconds after which a request for a story's page is given up.
pub const FETCH_TIMEOUT_SECS: u64 = 10;

/// The number of stories in a digest.
pub const STORY_LIMIT: usize = 30;

/// The settings of a run.
#[derive(Clone, Debug)]
pub struct Config {
    /// Where the ordered list of the top stories' identifiers is found.
    pub top_url: String,
    /// What an item's address starts with, before its identifier.
    pub item_url: String,
    /// The user agent of the listing client.
    pub listing_agent: String,
    /// The user agent of the content client.
    pub browser_agent: String,
    /// The timeout of the listing client, in seconds.
    pub listing_timeout_secs: u64,
    /// The timeout of the content client, in seconds.
    pub fetch_timeout_secs: u64,
    /// The number of stories to list.
    pub limit: usize,
    /// How the contents' plain text is normalised.
    pub policy: TextPolicy,
}

impl Config {
    /// The settings of an ordinary run, with the text policy chosen.
    pub fn standard(policy: TextPolicy) -> (r: Config)
        ensures
            r.top_url@ == TOP_URL@,
            r.item_url@ == ITEM_URL@,
            r.listing_agent@ == LISTING_AGENT@,
            r.browser_agent@ == BROWSER_AGENT@,
            r.listing_timeout_secs == LISTING_TIMEOUT_SECS,
            r.fetch_timeout_secs == FETCH_TIMEOUT_SECS,
            r.limit == STORY_LIMIT,
            r.policy == policy,
    {
        Config {
            top_url: TOP_URL.to_owned(),
            item_url: ITEM_URL.to_owned(),
            listing_agent: LISTING_AGENT.to_owned(),
            browser_agent: BROWSER_AGENT.to_owned(),
            listing_timeout_secs: LISTING_TIMEOUT_SECS,
            fetch_timeout_secs: FETCH_TIMEOUT_SECS,
            limit: STORY_LIMIT,
            policy,
        }
    }
}

} // verus!
