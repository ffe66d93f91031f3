//! The listing-fetch protocol: one request for the category's identifier
//! list, then one item request per surviving identifier. A failure of the
//! identifier list fails the whole fetch; a failed or malformed item is
//! skipped silently. `FetchSession` is the verified state machine of that
//! protocol; an outside driver performs the requests and feeds the answers
//! in order.

use vstd::prelude::*;
use crate::story::Story;

verus! {

/// Why a category fetch failed as a whole.
#[derive(Debug)]
pub enum ApiError {
    /// The identifier-list request failed or timed out.
    Request(String),
    /// The identifier-list payload did not parse.
    Parse(String),
}

impl ApiError {
    /// The user-visible wording of this error.
    pub fn message(&self) -> (r: String)
        ensures
            r@ == self.spec_message(),
    {
        proof {
            reveal_strlit("Request error: ");
            reveal_strlit("Parse error: ");
        }
        match self {
            ApiError::Request(msg) => "Request error: ".to_owned().concat(msg.as_str()),
            ApiError::Parse(msg) => "Parse error: ".to_owned().concat(msg.as_str()),
        }
    }

    pub open spec fn spec_message(self) -> Seq<char> {
        match self {
            ApiError::Request(msg) => "Request error: "@ + msg@,
            ApiError::Parse(msg) => "Parse error: "@ + msg@,
        }
    }
}

/// How many identifiers of a listing are followed up with item requests.
pub const STORY_LIMIT: usize = 30;

/// The identifiers that survive truncation: the first `STORY_LIMIT`, in the
/// rank order the listing gave them.
pub open spec fn spec_truncate_ids(ids: Seq<u64>) -> Seq<u64> {
    if ids.len() <= STORY_LIMIT {
        ids
    } else {
        ids.take(STORY_LIMIT as int)
    }
}

/// The stories of the answered item requests, skipping the failures, in the
/// order the requests were answered.
pub open spec fn somes(resps: Seq<Option<Story>>) -> Seq<Story>
    decreases resps.len(),
{
    if resps.len() == 0 {
        Seq::empty()
    } else {
        match resps.last() {
            Some(story) => somes(resps.drop_last()).push(story),
            None => somes(resps.drop_last()),
        }
    }
}

/// How many item requests failed.
pub open spec fn count_nones(resps: Seq<Option<Story>>) -> nat
    decreases resps.len(),
{
    if resps.len() == 0 {
        0
    } else {
        count_nones(resps.drop_last()) + (if resps.last() is None {
            1nat
        } else {
            0nat
        })
    }
}

/// Of `N` answered item requests of which `k` failed, exactly `N - k`
/// stories survive.
pub proof fn lemma_somes_len(resps: Seq<Option<Story>>)
    ensures
        somes(resps).len() + count_nones(resps) == resps.len(),
    decreases resps.len(),
{
    if resps.len() > 0 {
        lemma_somes_len(resps.drop_last());
    }
}

/// Survivors keep the relative order of their requests: the survivors of
/// answers given in two runs are the survivors of each, in that order.
pub proof fn lemma_somes_distributes_over_add(a: Seq<Option<Story>>, b: Seq<Option<Story>>)
    ensures
        somes(a + b) =~= somes(a) + somes(b),
    decreases b.len(),
{
    if b.len() == 0 {
        assert(a + b =~= a);
    } else {
        lemma_somes_distributes_over_add(a, b.drop_last());
        assert((a + b).drop_last() =~= a + b.drop_last());
        assert((a + b).last() == b.last());
    }
}

/// Every surviving story was the answer of one of the requests.
pub proof fn lemma_somes_membership(resps: Seq<Option<Story>>, j: int)
    requires
        0 <= j < somes(resps).len(),
    ensures
        exists|i: int| 0 <= i < resps.len() && resps[i] == Some(somes(resps)[j]),
    decreases resps.len(),
{
    if resps.len() > 0 {
        if resps.last() is Some && j == somes(resps).len() - 1 {
            assert(resps[resps.len() - 1] == Some(somes(resps)[j]));
        } else {
            lemma_somes_membership(resps.drop_last(), j);
            let i = choose|i: int|
                0 <= i < resps.drop_last().len() && resps.drop_last()[i] == Some(
                    somes(resps.drop_last())[j],
                );
            assert(resps[i] == Some(somes(resps)[j]));
        }
    }
}

/// The positions, in ascending order, of the answered item requests that
/// succeeded: the `j`-th surviving story answered the request at position
/// `some_positions(resps)[j]`.
pub open spec fn some_positions(resps: Seq<Option<Story>>) -> Seq<int>
    decreases resps.len(),
{
    if resps.len() == 0 {
        Seq::empty()
    } else {
        match resps.last() {
            Some(story) => some_positions(resps.drop_last()).push(resps.len() - 1),
            None => some_positions(resps.drop_last()),
        }
    }
}

/// The survivors embed into the answered requests at strictly increasing
/// positions: one position per survivor, in range, ascending, and the answer
/// recorded there is that survivor.
pub proof fn lemma_some_positions(resps: Seq<Option<Story>>)
    ensures
        some_positions(resps).len() == somes(resps).len(),
        forall|j: int|
            0 <= j < some_positions(resps).len() ==> 0 <= #[trigger] some_positions(resps)[j]
                < resps.len(),
        forall|j1: int, j2: int|
            #![trigger some_positions(resps)[j1], some_positions(resps)[j2]]
            0 <= j1 < j2 < some_positions(resps).len() ==> some_positions(resps)[j1]
                < some_positions(resps)[j2],
        forall|j: int|
            0 <= j < some_positions(resps).len() ==> resps[#[trigger] some_positions(resps)[j]]
                == Some(somes(resps)[j]),
    decreases resps.len(),
{
    if resps.len() > 0 {
        lemma_some_positions(resps.drop_last());
        let prev = some_positions(resps.drop_last());
        let pos = some_positions(resps);
        assert(forall|i: int| 0 <= i < resps.len() - 1 ==> resps.drop_last()[i] == resps[i]);
        if resps.last() is Some {
            assert(pos == prev.push(resps.len() - 1));
            assert(somes(resps) == somes(resps.drop_last()).push(resps.last()->0));
            assert forall|j: int| 0 <= j < pos.len() implies resps[#[trigger] pos[j]] == Some(
                somes(resps)[j],
            ) by {
                if j < pos.len() - 1 {
                    assert(pos[j] == prev[j]);
                    assert(resps.drop_last()[prev[j]] == Some(somes(resps.drop_last())[j]));
                }
            }
        } else {
            assert(pos == prev);
            assert forall|j: int| 0 <= j < pos.len() implies resps[#[trigger] pos[j]] == Some(
                somes(resps)[j],
            ) by {
                assert(resps.drop_last()[prev[j]] == Some(somes(resps.drop_last())[j]));
            }
        }
    }
}

/// Surviving identifiers keep the listing's rank order: where each answered
/// item carries the identifier it was requested under, the survivors'
/// identifiers are the truncated identifier list read at a strictly
/// increasing sequence of positions — a subsequence, in the same relative
/// order.
pub proof fn lemma_fetch_rank_order(orig: Seq<u64>, resps: Seq<Option<Story>>)
    requires
        resps.len() <= spec_truncate_ids(orig).len(),
        forall|i: int|
            0 <= i < resps.len() && resps[i] is Some ==> (#[trigger] resps[i])->Some_0.id
                == spec_truncate_ids(orig)[i],
    ensures
        some_positions(resps).len() == somes(resps).len(),
        forall|j: int|
            0 <= j < some_positions(resps).len() ==> 0 <= #[trigger] some_positions(resps)[j]
                < spec_truncate_ids(orig).len(),
        forall|j1: int, j2: int|
            #![trigger some_positions(resps)[j1], some_positions(resps)[j2]]
            0 <= j1 < j2 < some_positions(resps).len() ==> some_positions(resps)[j1]
                < some_positions(resps)[j2],
        forall|j: int|
            0 <= j < somes(resps).len() ==> (#[trigger] somes(resps)[j]).id == spec_truncate_ids(
                orig,
            )[some_positions(resps)[j]],
{
    lemma_some_positions(resps);
    assert forall|j: int| 0 <= j < somes(resps).len() implies (#[trigger] somes(resps)[j]).id
        == spec_truncate_ids(orig)[some_positions(resps)[j]] by {
        let i = some_positions(resps)[j];
        assert(resps[i] == Some(somes(resps)[j]));
    }
}

/// The category fetch never hands back more than `STORY_LIMIT` stories, and
/// where each answered item carries the identifier it was requested under,
/// every surviving story's identifier stands among the first `STORY_LIMIT`
/// entries of the original identifier list.
pub proof fn lemma_fetch_bounded(orig: Seq<u64>, resps: Seq<Option<Story>>)
    requires
        resps.len() <= spec_truncate_ids(orig).len(),
        forall|i: int|
            0 <= i < resps.len() && resps[i] is Some ==> (#[trigger] resps[i])->Some_0.id
                == spec_truncate_ids(orig)[i],
    ensures
        somes(resps).len() <= STORY_LIMIT,
        forall|j: int|
            0 <= j < somes(resps).len() ==> spec_truncate_ids(orig).contains(
                (#[trigger] somes(resps)[j]).id,
            ),
{
    lemma_somes_len(resps);
    assert forall|j: int| 0 <= j < somes(resps).len() implies spec_truncate_ids(orig).contains(
        (#[trigger] somes(resps)[j]).id,
    ) by {
        lemma_somes_membership(resps, j);
        let i = choose|i: int| 0 <= i < resps.len() && resps[i] == Some(somes(resps)[j]);
        assert(spec_truncate_ids(orig)[i] == somes(resps)[j].id);
    }
}

/// One in-flight category fetch, after its identifier list arrived: which
/// identifiers are still to be requested, and which stories survived so far.
pub struct FetchSession {
    ids: Vec<u64>,
    answered: usize,
    stories: Vec<Story>,
    responses: Ghost<Seq<Option<Story>>>,
}

impl FetchSession {
    /// The identifiers this session requests, in order.
    pub closed spec fn ids(self) -> Seq<u64> {
        self.ids@
    }

    /// The answers recorded so far, one per identifier already requested.
    pub closed spec fn responses(self) -> Seq<Option<Story>> {
        self.responses@
    }

    /// The stories accepted so far.
    pub closed spec fn stories_so_far(self) -> Seq<Story> {
        self.stories@
    }

    pub closed spec fn wf(self) -> bool {
        &&& self.answered == self.responses@.len()
        &&& self.responses@.len() <= self.ids@.len()
        &&& self.stories@ == somes(self.responses@)
    }

    /// Starts a session from the outcome of the identifier-list request.
    /// A transport failure of that first request fails the whole fetch, and
    /// no session exists on which an item request could be made; a received
    /// list is truncated to the first `STORY_LIMIT` identifiers.
    pub fn begin(list: Result<Vec<u64>, String>) -> (r: Result<FetchSession, ApiError>)
        ensures
            match r {
                Ok(session) => {
                    &&& list is Ok
                    &&& session.wf()
                    &&& session.ids() == spec_truncate_ids(list->Ok_0@)
                    &&& session.responses() == Seq::<Option<Story>>::empty()
                    &&& session.stories_so_far() == Seq::<Story>::empty()
                },
                Err(e) => {
                    &&& list is Err
                    &&& e == ApiError::Request(list->Err_0)
                },
            },
    {
        match list {
            Ok(mut ids) => {
                if ids.len() > STORY_LIMIT {
                    ids.truncate(STORY_LIMIT);
                }
                Ok(
                    FetchSession {
                        ids,
                        answered: 0,
                        stories: Vec::new(),
                        responses: Ghost(Seq::empty()),
                    },
                )
            },
            Err(msg) => Err(ApiError::Request(msg)),
        }
    }

    /// The identifier whose item is to be requested next, or `None` when
    /// every identifier has been answered.
    pub fn next_request(&self) -> (r: Option<u64>)
        requires
            self.wf(),
        ensures
            r == if self.responses().len() < self.ids().len() {
                Some(self.ids()[self.responses().len() as int])
            } else {
                None::<u64>
            },
    {
        if self.answered < self.ids.len() {
            Some(self.ids[self.answered])
        } else {
            None
        }
    }

    /// Records the answer of the next item request: the parsed story, or
    /// `None` where the request failed or its payload was malformed — that
    /// item is skipped and the fetch goes on.
    pub fn record(&mut self, response: Option<Story>)
        requires
            old(self).wf(),
            old(self).responses().len() < old(self).ids().len(),
        ensures
            final(self).wf(),
            final(self).ids() == old(self).ids(),
            final(self).responses() == old(self).responses().push(response),
    {
        let n: usize = self.ids.len();
        proof {
            assert(old(self).responses@.len() < n);
            self.responses@ = self.responses@.push(response);
        }
        self.answered = self.answered + 1;
        match response {
            Some(story) => self.stories.push(story),
            None => (),
        }
        proof {
            assert(old(self).responses@.push(response).drop_last() =~= old(self).responses@);
        }
    }

    /// Hands out the surviving stories, in request order.
    pub fn finish(self) -> (r: Vec<Story>)
        requires
            self.wf(),
        ensures
            r@ == somes(self.responses()),
    {
        self.stories
    }
}

} // verus!
