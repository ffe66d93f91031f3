//! Story records as the remote API and the favorites store hand them over,
//! and the derived, presentation-ready view of one story.

use vstd::prelude::*;
use crate::text::{dec_rep, u64_to_string};

verus! {

/// One fetched item: identity is the identifier alone; the other fields are
/// display data that may drift between fetches.
#[derive(Debug)]
pub struct Story {
    pub id: u64,
    pub title: String,
    pub url: Option<String>,
    pub by: String,
    pub score: i32,
    pub time: u64,
    pub descendants: Option<u64>,
}

/// The mathematical value of a story: its text fields as character
/// sequences.
pub struct StoryView {
    pub id: u64,
    pub title: Seq<char>,
    pub url: Option<Seq<char>>,
    pub by: Seq<char>,
    pub score: i32,
    pub time: u64,
    pub descendants: Option<u64>,
}

pub open spec fn opt_string_view(o: Option<String>) -> Option<Seq<char>> {
    match o {
        Some(s) => Some(s@),
        None => None,
    }
}

impl View for Story {
    type V = StoryView;

    open spec fn view(&self) -> StoryView {
        StoryView {
            id: self.id,
            title: self.title@,
            url: opt_string_view(self.url),
            by: self.by@,
            score: self.score,
            time: self.time,
            descendants: self.descendants,
        }
    }
}

impl Clone for Story {
    fn clone(&self) -> (r: Self)
        ensures
            r@ == self@,
    {
        Story {
            id: self.id,
            title: self.title.clone(),
            url: match &self.url {
                Some(u) => Some(u.clone()),
                None => None,
            },
            by: self.by.clone(),
            score: self.score,
            time: self.time,
            descendants: self.descendants,
        }
    }
}

/// A derived view over a story: the parsed host of its URL, if any. The
/// relative-age caption is recomputed on render rather than stored.
#[derive(Debug)]
pub struct StoryDisplay {
    pub story: Story,
    pub domain: Option<String>,
}

/// The mathematical value of a display row.
pub struct StoryDisplayView {
    pub story: StoryView,
    pub domain: Option<Seq<char>>,
}

impl View for StoryDisplay {
    type V = StoryDisplayView;

    open spec fn view(&self) -> StoryDisplayView {
        StoryDisplayView { story: self.story@, domain: opt_string_view(self.domain) }
    }
}

impl Clone for StoryDisplay {
    fn clone(&self) -> (r: Self)
        ensures
            r@ == self@,
    {
        StoryDisplay {
            story: self.story.clone(),
            domain: match &self.domain {
                Some(d) => Some(d.clone()),
                None => None,
            },
        }
    }
}

/// The host part of a URL as its parser reports it, or `None` where the text
/// does not parse as a URL or the URL has no host.
pub uninterp spec fn host_of(url: Seq<char>) -> Option<Seq<char>>;

/// Relies on `reqwest::Url::parse` and `Url::host_str`: the host of a URL is
/// a function of its text alone.
#[verifier::external_body]
fn url_host(url: &str) -> (r: Option<String>)
    ensures
        opt_string_view(r) == host_of(url@),
{
    url.parse::<reqwest::Url>()
        .ok()
        .and_then(|parsed| parsed.host_str().map(|s| s.to_string()))
}

/// The domain a display row shows for a story: the host of its URL, absent
/// for text posts and for URLs without a parseable host.
pub open spec fn spec_domain_of(story: StoryView) -> Option<Seq<char>> {
    match story.url {
        Some(u) => host_of(u),
        None => None,
    }
}

/// The display row a story derives.
pub open spec fn display_of(story: StoryView) -> StoryDisplayView {
    StoryDisplayView { story: story, domain: spec_domain_of(story) }
}

/// The earliest Unix second a datetime value can carry (year -9999).
pub const MIN_UNIX_SECOND: i64 = -377705116800;

/// The latest Unix second a datetime value can carry (year 9999).
pub const MAX_UNIX_SECOND: i64 = 253402300799;

/// A story timestamp is carried as an unsigned field but read as a signed
/// Unix second, so large values wrap: this is that reading.
pub open spec fn wrapped_seconds(t: u64) -> i64 {
    t as i64
}

/// What the relative-age caption says for a story time `t` and the clock
/// reading `now`, both in Unix seconds. Outside the representable datetime
/// range the age is unknown; otherwise the first of days, hours and minutes
/// that is past its threshold names the caption, all divisions truncating.
pub open spec fn age_text(t: u64, now: i64) -> Seq<char> {
    let ti = wrapped_seconds(t);
    if ti < MIN_UNIX_SECOND || ti > MAX_UNIX_SECOND {
        "unknown time"@
    } else if now <= ti {
        "just now"@
    } else {
        let secs = now - ti;
        if secs / 3600 > 24 {
            dec_rep((secs / 86400) as nat) + " days ago"@
        } else if secs / 3600 > 0 {
            dec_rep((secs / 3600) as nat) + " hours ago"@
        } else if secs / 60 > 0 {
            dec_rep((secs / 60) as nat) + " minutes ago"@
        } else {
            "just now"@
        }
    }
}

/// Relies on `time::OffsetDateTime::now_utc` and `unix_timestamp`: the
/// current wall-clock time in Unix seconds. The reading depends on the
/// machine's clock, so nothing is promised of the value.
#[verifier::external_body]
fn now_unix() -> i64 {
    time::OffsetDateTime::now_utc().unix_timestamp()
}

/// The relative-age caption for story time `t` at clock reading `now`.
pub fn time_ago_at(t: u64, now: i64) -> (r: String)
    ensures
        r@ == age_text(t, now),
{
    proof {
        reveal_strlit("unknown time");
        reveal_strlit("just now");
        reveal_strlit(" days ago");
        reveal_strlit(" hours ago");
        reveal_strlit(" minutes ago");
    }
    #[verifier::truncate]
    let ti: i64 = t as i64;
    if ti < MIN_UNIX_SECOND || ti > MAX_UNIX_SECOND {
        "unknown time".to_owned()
    } else if now <= ti {
        "just now".to_owned()
    } else {
        let secs_wide: i128 = now as i128 - ti as i128;
        let secs: u64 = secs_wide as u64;
        let hours: u64 = secs / 3600;
        let minutes: u64 = secs / 60;
        if hours > 24 {
            let days: u64 = secs / 86400;
            u64_to_string(days).concat(" days ago")
        } else if hours > 0 {
            u64_to_string(hours).concat(" hours ago")
        } else if minutes > 0 {
            u64_to_string(minutes).concat(" minutes ago")
        } else {
            "just now".to_owned()
        }
    }
}

impl StoryDisplay {
    /// Derives the display view of a story at the moment it is accepted into
    /// visible state.
    pub fn from_story(story: Story) -> (r: StoryDisplay)
        ensures
            r.story == story,
            r@ == display_of(story@),
    {
        let domain = match &story.url {
            Some(u) => url_host(u.as_str()),
            None => None,
        };
        StoryDisplay { story, domain }
    }

    /// The relative-age caption of this story against the wall clock now.
    /// The clock is read once per call; the text itself is computed by
    /// [`time_ago_at`], whose contract is exact.
    pub fn time_ago(&self) -> (r: String)
        ensures
            exists|now: i64| r@ == age_text(self.story.time, now),
    {
        let now = now_unix();
        let r = time_ago_at(self.story.time, now);
        proof {
            assert(r@ == age_text(self.story.time, now));
        }
        r
    }

    /// The discussion permalink for this story.
    pub fn hn_url(&self) -> (r: String)
        ensures
            r@ == "https://news.ycombinator.com/item?id="@ + dec_rep(self.story.id as nat),
    {
        let base: String = "https://news.ycombinator.com/item?id=".to_owned();
        base.concat(u64_to_string(self.story.id).as_str())
    }
}

/// The values of a sequence of story records.
pub open spec fn views_of(s: Seq<Story>) -> Seq<StoryView> {
    s.map_values(|x: Story| x@)
}

/// Derives the display row of every story, keeping the order.
pub fn derive_displays(stories: &Vec<Story>) -> (r: Vec<StoryDisplay>)
    ensures
        r@.len() == stories@.len(),
        forall|i: int| 0 <= i < r@.len() ==> (#[trigger] r@[i])@ == display_of(stories@[i]@),
{
    let mut r: Vec<StoryDisplay> = Vec::new();
    let mut i: usize = 0;
    while i < stories.len()
        invariant
            i <= stories@.len(),
            r@.len() == i,
            forall|k: int| 0 <= k < i ==> (#[trigger] r@[k])@ == display_of(stories@[k]@),
        decreases stories@.len() - i,
    {
        r.push(StoryDisplay::from_story(stories[i].clone()));
        i = i + 1;
    }
    r
}

} // verus!
