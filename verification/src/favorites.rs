//! The in-memory model of the durable favorites store: stories keyed by
//! identifier, ordered by story creation time descending. Adding upserts
//! (replace on an identifier conflict); removing an absent identifier is a
//! no-op. The durable mirror performs the same writes, handed to it as
//! [`StoreAction`] values; this model is the verified source of the store's
//! read results.

use vstd::prelude::*;
use crate::story::{views_of, Story, StoryView};

verus! {

/// A write the durable store is asked to mirror.
#[derive(Debug)]
pub enum StoreAction {
    /// Upsert this story by its identifier.
    Insert(Story),
    /// Delete by identifier; a no-op where absent.
    Delete(u64),
}

/// Whether some entry carries this identifier.
pub open spec fn has_id(s: Seq<StoryView>, id: u64) -> bool {
    exists|i: int| 0 <= i < s.len() && s[i].id == id
}

/// The set of identifiers present.
pub open spec fn id_set(s: Seq<StoryView>) -> Set<u64> {
    Set::new(|id: u64| has_id(s, id))
}

/// Entry times never increase along the sequence.
pub open spec fn sorted_desc(s: Seq<StoryView>) -> bool {
    forall|i: int, j: int| 0 <= i < j < s.len() ==> s[i].time >= s[j].time
}

/// No identifier occurs twice.
pub open spec fn unique_ids(s: Seq<StoryView>) -> bool {
    forall|i: int, j: int| 0 <= i < j < s.len() ==> s[i].id != s[j].id
}

/// The sequence without the entries that carry `id`.
pub open spec fn remove_id(s: Seq<StoryView>, id: u64) -> Seq<StoryView>
    decreases s.len(),
{
    if s.len() == 0 {
        s
    } else if s.first().id == id {
        remove_id(s.drop_first(), id)
    } else {
        seq![s.first()] + remove_id(s.drop_first(), id)
    }
}

/// Where a story of time `t` goes in a time-descending sequence: after every
/// entry at least as recent.
pub open spec fn find_pos(s: Seq<StoryView>, t: u64) -> int
    decreases s.len(),
{
    if s.len() == 0 {
        0
    } else if s.first().time >= t {
        1 + find_pos(s.drop_first(), t)
    } else {
        0
    }
}

/// The sequence with `v` inserted after every entry at least as recent.
pub open spec fn insert_sorted(s: Seq<StoryView>, v: StoryView) -> Seq<StoryView>
    decreases s.len(),
{
    if s.len() == 0 {
        seq![v]
    } else if s.first().time >= v.time {
        seq![s.first()] + insert_sorted(s.drop_first(), v)
    } else {
        seq![v] + s
    }
}

/// What adding a story does: drop any entry with its identifier, then insert
/// at the time-descending position.
pub open spec fn fav_add(s: Seq<StoryView>, v: StoryView) -> Seq<StoryView> {
    insert_sorted(remove_id(s, v.id), v)
}

/// What removing an identifier does.
pub open spec fn fav_remove(s: Seq<StoryView>, id: u64) -> Seq<StoryView> {
    remove_id(s, id)
}

/// `remove_id` keeps exactly the entries with another identifier, in order:
/// it equals the sequence with the (unique) matching position cut out, and
/// leaves a sequence without the identifier untouched.
pub proof fn lemma_remove_id_absent(s: Seq<StoryView>, id: u64)
    requires
        !has_id(s, id),
    ensures
        remove_id(s, id) =~= s,
    decreases s.len(),
{
    if s.len() > 0 {
        assert(forall|i: int| 0 <= i < s.drop_first().len() ==> s.drop_first()[i] == s[i + 1]);
        lemma_remove_id_absent(s.drop_first(), id);
    }
}

/// With unique identifiers and a match at `idx`, removal cuts exactly that
/// position.
pub proof fn lemma_remove_id_at(s: Seq<StoryView>, id: u64, idx: int)
    requires
        unique_ids(s),
        0 <= idx < s.len(),
        s[idx].id == id,
        forall|k: int| 0 <= k < idx ==> s[k].id != id,
    ensures
        remove_id(s, id) =~= s.take(idx) + s.skip(idx + 1),
    decreases s.len(),
{
    if idx == 0 {
        assert(!has_id(s.drop_first(), id));
        lemma_remove_id_absent(s.drop_first(), id);
        assert(s.take(0) + s.skip(1) =~= s.drop_first());
    } else {
        lemma_remove_id_at(s.drop_first(), id, idx - 1);
        assert(s.take(idx) =~= seq![s.first()] + s.drop_first().take(idx - 1));
        assert(s.skip(idx + 1) =~= s.drop_first().skip(idx));
    }
}

/// `insert_sorted` places `v` exactly at `find_pos`, leaving everything else
/// where it stood.
pub proof fn lemma_insert_sorted_at(s: Seq<StoryView>, v: StoryView)
    ensures
        0 <= find_pos(s, v.time) <= s.len(),
        forall|k: int| 0 <= k < find_pos(s, v.time) ==> s[k].time >= v.time,
        find_pos(s, v.time) < s.len() ==> s[find_pos(s, v.time)].time < v.time,
        insert_sorted(s, v) =~= s.take(find_pos(s, v.time)) + seq![v] + s.skip(
            find_pos(s, v.time),
        ),
    decreases s.len(),
{
    if s.len() > 0 && s.first().time >= v.time {
        lemma_insert_sorted_at(s.drop_first(), v);
        let idx = find_pos(s, v.time);
        assert(s.take(idx) =~= seq![s.first()] + s.drop_first().take(idx - 1));
        assert(s.skip(idx) =~= s.drop_first().skip(idx - 1));
        assert(insert_sorted(s, v) =~= s.take(idx) + seq![v] + s.skip(idx));
        assert forall|k: int| 0 <= k < idx implies s[k].time >= v.time by {
            if k > 0 {
                assert(s.drop_first()[k - 1] == s[k]);
            }
        }
        assert(idx < s.len() ==> s.drop_first()[idx - 1] == s[idx]);
    }
}

/// Removal from a well-formed sequence keeps order and uniqueness, removes
/// the named identifier wholly, keeps every other identifier and entry, and
/// shortens the sequence by one exactly where the identifier was present.
pub proof fn lemma_fav_remove_props(s: Seq<StoryView>, id: u64)
    requires
        sorted_desc(s),
        unique_ids(s),
    ensures
        sorted_desc(fav_remove(s, id)),
        unique_ids(fav_remove(s, id)),
        !has_id(fav_remove(s, id), id),
        forall|x: u64| x != id ==> has_id(fav_remove(s, id), x) == has_id(s, x),
        fav_remove(s, id).len() == if has_id(s, id) {
            s.len() - 1
        } else {
            s.len() as int
        },
        forall|j: int|
            0 <= j < fav_remove(s, id).len() ==> exists|i: int|
                0 <= i < s.len() && s[i] == #[trigger] fav_remove(s, id)[j],
{
    let r = fav_remove(s, id);
    if has_id(s, id) {
        let idx = choose|i: int| 0 <= i < s.len() && s[i].id == id;
        assert forall|k: int| 0 <= k < idx implies s[k].id != id by {
            assert(s[k].id != s[idx].id);
        }
        lemma_remove_id_at(s, id, idx);
        assert forall|j: int| 0 <= j < r.len() implies exists|i: int|
            0 <= i < s.len() && s[i] == #[trigger] r[j] by {
            if j < idx {
                assert(s[j] == r[j]);
            } else {
                assert(s[j + 1] == r[j]);
            }
        }
        assert forall|x: u64| x != id implies has_id(r, x) == has_id(s, x) by {
            if has_id(r, x) {
                let j = choose|j: int| 0 <= j < r.len() && r[j].id == x;
                if j < idx {
                    assert(s[j].id == x);
                } else {
                    assert(s[j + 1].id == x);
                }
            }
            if has_id(s, x) {
                let i = choose|i: int| 0 <= i < s.len() && s[i].id == x;
                if i < idx {
                    assert(r[i].id == x);
                } else {
                    assert(i != idx);
                    assert(r[i - 1].id == x);
                }
            }
        }
        assert(!has_id(r, id)) by {
            if has_id(r, id) {
                let j = choose|j: int| 0 <= j < r.len() && r[j].id == id;
                if j < idx {
                    assert(s[j].id == s[idx].id);
                } else {
                    assert(s[j + 1].id == s[idx].id);
                }
            }
        }
        assert forall|i: int, j: int| 0 <= i < j < r.len() implies r[i].time >= r[j].time && r[i].id
            != r[j].id by {
            let i0 = if i < idx {
                i
            } else {
                i + 1
            };
            let j0 = if j < idx {
                j
            } else {
                j + 1
            };
            assert(s[i0] == r[i] && s[j0] == r[j]);
        }
    } else {
        lemma_remove_id_absent(s, id);
    }
}

/// Adding to a well-formed sequence keeps order and uniqueness, places the
/// story itself, drops any prior entry under its identifier (replace, never
/// duplicate), and keeps every other identifier.
pub proof fn lemma_fav_add_props(s: Seq<StoryView>, v: StoryView)
    requires
        sorted_desc(s),
        unique_ids(s),
    ensures
        sorted_desc(fav_add(s, v)),
        unique_ids(fav_add(s, v)),
        has_id(fav_add(s, v), v.id),
        exists|j: int| 0 <= j < fav_add(s, v).len() && fav_add(s, v)[j] == v,
        forall|x: u64| x != v.id ==> has_id(fav_add(s, v), x) == has_id(s, x),
        fav_add(s, v).len() == if has_id(s, v.id) {
            s.len() as int
        } else {
            s.len() + 1 as int
        },
{
    lemma_fav_remove_props(s, v.id);
    let t = remove_id(s, v.id);
    lemma_insert_sorted_at(t, v);
    let p = find_pos(t, v.time);
    let r = fav_add(s, v);
    assert(r =~= t.take(p) + seq![v] + t.skip(p));
    assert(r[p] == v);
    assert forall|j: int| 0 <= j < r.len() && j != p implies r[j] == (if j < p {
        t[j]
    } else {
        t[j - 1]
    }) by {}
    assert forall|x: u64| x != v.id implies has_id(r, x) == has_id(t, x) by {
        if has_id(r, x) {
            let j = choose|j: int| 0 <= j < r.len() && r[j].id == x;
            if j < p {
                assert(t[j].id == x);
            } else {
                assert(j != p);
                assert(t[j - 1].id == x);
            }
        }
        if has_id(t, x) {
            let i = choose|i: int| 0 <= i < t.len() && t[i].id == x;
            if i < p {
                assert(r[i].id == x);
            } else {
                assert(r[i + 1].id == x);
            }
        }
    }
    assert forall|i: int, j: int| 0 <= i < j < r.len() implies r[i].time >= r[j].time && r[i].id
        != r[j].id by {
        if i != p && j != p {
            let i0 = if i < p {
                i
            } else {
                i - 1
            };
            let j0 = if j < p {
                j
            } else {
                j - 1
            };
            assert(t[i0] == r[i] && t[j0] == r[j]);
            assert(t[i0].time >= t[j0].time);
        } else if i == p {
            assert(t[j - 1] == r[j]);
            assert(t[p].time < v.time);
            assert(t[p].time >= t[j - 1].time);
        } else {
            assert(t[i] == r[i]);
            assert(t[i].time >= v.time);
        }
    }
}

/// The round trip of the favorites model: what was added is present, with
/// its record; what was removed is absent; an add under an existing
/// identifier replaces the record and adds nothing.
pub proof fn lemma_favorites_round_trip(s: Seq<StoryView>, v: StoryView, w: StoryView)
    requires
        sorted_desc(s),
        unique_ids(s),
        w.id == v.id,
    ensures
        has_id(fav_add(s, v), v.id),
        exists|j: int| 0 <= j < fav_add(s, v).len() && fav_add(s, v)[j] == v,
        !has_id(fav_remove(fav_add(s, v), v.id), v.id),
        fav_add(fav_add(s, v), w) == fav_add(s, w),
        fav_add(fav_add(s, v), w).len() == fav_add(s, v).len(),
        !has_id(s, v.id) ==> fav_remove(fav_add(s, v), v.id) == s,
{
    lemma_fav_add_props(s, v);
    let r = fav_add(s, v);
    lemma_fav_remove_props(r, v.id);
    lemma_fav_remove_props(s, v.id);
    let t = remove_id(s, v.id);
    lemma_insert_sorted_at(t, v);
    let p = find_pos(t, v.time);
    assert(r =~= t.take(p) + seq![v] + t.skip(p));
    assert(r[p].id == v.id);
    assert forall|k: int| 0 <= k < p implies r[k].id != v.id by {
        assert(r[k] == t[k]);
        assert(!has_id(t, v.id));
    }
    lemma_remove_id_at(r, v.id, p);
    assert(remove_id(r, v.id) =~= t);
    assert(fav_add(r, w) == insert_sorted(remove_id(r, w.id), w));
    assert(remove_id(r, w.id) == t);
    assert(fav_add(s, w) == insert_sorted(remove_id(s, w.id), w));
    assert(remove_id(s, w.id) == t);
    lemma_fav_add_props(r, w);
    if !has_id(s, v.id) {
        lemma_remove_id_absent(s, v.id);
    }
}

/// The identifier sequence of a favorites sequence.
pub open spec fn ids_seq(s: Seq<StoryView>) -> Seq<u64> {
    s.map_values(|x: StoryView| x.id)
}

/// Two well-formed favorites sequences over the same identifier set carry
/// the same identifiers with the same multiplicities: with unique
/// identifiers, the multiset of identifiers is the set itself.
pub proof fn lemma_unique_ids_multiset(a: Seq<StoryView>, b: Seq<StoryView>)
    requires
        unique_ids(a),
        unique_ids(b),
        id_set(a) == id_set(b),
    ensures
        ids_seq(a).to_multiset() =~= ids_seq(b).to_multiset(),
{
    broadcast use vstd::seq_lib::group_to_multiset_ensures;

    lemma_ids_seq_no_duplicates(a);
    lemma_ids_seq_no_duplicates(b);
    ids_seq(a).lemma_multiset_has_no_duplicates();
    ids_seq(b).lemma_multiset_has_no_duplicates();
    assert forall|x: u64| true implies ids_seq(a).to_multiset().count(x) == ids_seq(
        b,
    ).to_multiset().count(x) by {
        assert(ids_seq(a).contains(x) == has_id(a, x)) by {
            lemma_ids_seq_contains(a, x);
        }
        assert(ids_seq(b).contains(x) == has_id(b, x)) by {
            lemma_ids_seq_contains(b, x);
        }
        assert(has_id(a, x) == has_id(b, x)) by {
            assert(id_set(a).contains(x) == has_id(a, x));
            assert(id_set(b).contains(x) == has_id(b, x));
            assert(id_set(a).contains(x) == id_set(b).contains(x));
        }
    }
}

/// With unique identifiers, the identifier sequence has no duplicates.
pub proof fn lemma_ids_seq_no_duplicates(s: Seq<StoryView>)
    requires
        unique_ids(s),
    ensures
        ids_seq(s).no_duplicates(),
{
}

/// An identifier stands in the identifier sequence exactly where some entry
/// carries it.
pub proof fn lemma_ids_seq_contains(s: Seq<StoryView>, x: u64)
    ensures
        ids_seq(s).contains(x) == has_id(s, x),
{
    if has_id(s, x) {
        let i = choose|i: int| 0 <= i < s.len() && s[i].id == x;
        assert(ids_seq(s)[i] == x);
    }
    if ids_seq(s).contains(x) {
        let i = choose|i: int| 0 <= i < ids_seq(s).len() && ids_seq(s)[i] == x;
        assert(s[i].id == x);
    }
}

/// What loading the store row by row leaves behind: every row added in turn.
pub open spec fn fav_add_all(acc: Seq<StoryView>, rows: Seq<StoryView>) -> Seq<StoryView>
    decreases rows.len(),
{
    if rows.len() == 0 {
        acc
    } else {
        fav_add_all(fav_add(acc, rows.first()), rows.drop_first())
    }
}

pub proof fn lemma_fav_add_all_snoc(acc: Seq<StoryView>, rows: Seq<StoryView>, v: StoryView)
    ensures
        fav_add_all(acc, rows.push(v)) == fav_add(fav_add_all(acc, rows), v),
    decreases rows.len(),
{
    if rows.len() == 0 {
        assert(rows.push(v).drop_first() =~= Seq::<StoryView>::empty());
        assert(rows.push(v).first() == v);
        assert(fav_add_all(fav_add(acc, v), Seq::<StoryView>::empty()) == fav_add(acc, v));
        assert(fav_add_all(acc, rows) == acc);
    } else {
        assert(rows.push(v).first() == rows.first());
        assert(rows.push(v).drop_first() =~= rows.drop_first().push(v));
        lemma_fav_add_all_snoc(fav_add(acc, rows.first()), rows.drop_first(), v);
        assert(fav_add_all(acc, rows.push(v)) == fav_add_all(
            fav_add(acc, rows.first()),
            rows.drop_first().push(v),
        ));
        assert(fav_add_all(acc, rows) == fav_add_all(fav_add(acc, rows.first()), rows.drop_first()));
    }
}

/// Whatever rows are loaded, in whatever order, the favorites stay sorted by
/// story creation time descending with unique identifiers: what `get_all`
/// reads back is sorted for any insertion order.
pub proof fn lemma_fav_add_all_wf(acc: Seq<StoryView>, rows: Seq<StoryView>)
    requires
        sorted_desc(acc),
        unique_ids(acc),
    ensures
        sorted_desc(fav_add_all(acc, rows)),
        unique_ids(fav_add_all(acc, rows)),
    decreases rows.len(),
{
    if rows.len() > 0 {
        lemma_fav_add_props(acc, rows.first());
        lemma_fav_add_all_wf(fav_add(acc, rows.first()), rows.drop_first());
    }
}

/// The favorites themselves: unique identifiers, most recent story first.
#[derive(Debug)]
pub struct Favorites {
    stories: Vec<Story>,
}

impl View for Favorites {
    type V = Seq<StoryView>;

    closed spec fn view(&self) -> Seq<StoryView> {
        views_of(self.stories@)
    }
}

impl Favorites {
    pub open spec fn wf(self) -> bool {
        sorted_desc(self@) && unique_ids(self@)
    }

    /// An empty store.
    pub fn new() -> (r: Favorites)
        ensures
            r.wf(),
            r@ == Seq::<StoryView>::empty(),
    {
        let r = Favorites { stories: Vec::new() };
        proof {
            assert(r@ =~= Seq::<StoryView>::empty());
        }
        r
    }

    /// Rebuilds the in-memory favorites from rows read back from the durable
    /// store, in row order; a repeated identifier keeps the later row.
    pub fn from_rows(rows: &Vec<Story>) -> (r: Favorites)
        ensures
            r.wf(),
            r@ == fav_add_all(Seq::<StoryView>::empty(), views_of(rows@)),
    {
        let mut r = Favorites::new();
        let mut i: usize = 0;
        proof {
            assert(views_of(rows@).take(0) =~= Seq::<StoryView>::empty());
        }
        while i < rows.len()
            invariant
                i <= rows@.len(),
                r.wf(),
                r@ == fav_add_all(Seq::<StoryView>::empty(), views_of(rows@).take(i as int)),
            decreases rows@.len() - i,
        {
            let ghost prefix = views_of(rows@).take(i as int);
            r.add_favorite(rows[i].clone());
            i = i + 1;
            proof {
                assert(views_of(rows@).take(i as int) =~= prefix.push(views_of(rows@)[i - 1]));
                lemma_fav_add_all_snoc(Seq::<StoryView>::empty(), prefix, views_of(rows@)[i - 1]);
            }
        }
        proof {
            assert(views_of(rows@).take(rows@.len() as int) =~= views_of(rows@));
        }
        r
    }

    /// How many stories are favorited.
    pub fn len(&self) -> (r: usize)
        ensures
            r == self@.len(),
    {
        self.stories.len()
    }

    /// Whether the identifier is favorited.
    pub fn is_favorite(&self, id: u64) -> (r: bool)
        ensures
            r == has_id(self@, id),
    {
        let mut i: usize = 0;
        while i < self.stories.len()
            invariant
                i <= self@.len(),
                forall|k: int| 0 <= k < i ==> self@[k].id != id,
            decreases self@.len() - i,
        {
            if self.stories[i].id == id {
                proof {
                    assert(self@[i as int].id == id);
                }
                return true;
            }
            i = i + 1;
        }
        false
    }

    /// Upserts by identifier: any entry under this identifier leaves, and the
    /// story takes its time-descending place.
    pub fn add_favorite(&mut self, story: Story)
        requires
            old(self).wf(),
        ensures
            final(self).wf(),
            final(self)@ == fav_add(old(self)@, story@),
    {
        let ghost s0 = self@;
        self.remove_favorite(story.id);
        let ghost t = self@;
        proof {
            lemma_fav_remove_props(s0, story@.id);
            lemma_insert_sorted_at(t, story@);
        }
        let mut idx: usize = 0;
        while idx < self.stories.len() && self.stories[idx].time >= story.time
            invariant
                idx <= self@.len(),
                forall|k: int| 0 <= k < idx ==> self@[k].time >= story@.time,
                self@ == t,
            decreases self@.len() - idx,
        {
            idx = idx + 1;
        }
        proof {
            let p = find_pos(t, story@.time);
            assert(idx == p) by {
                if (idx as int) < p {
                    assert(t[idx as int].time >= story@.time);
                } else if p < (idx as int) {
                    assert(t[p].time < story@.time);
                    assert(t[p].time >= story@.time);
                }
            }
        }
        self.stories.insert(idx, story);
        proof {
            assert(self@ =~= t.take(idx as int) + seq![story@] + t.skip(idx as int));
            lemma_fav_add_props(s0, story@);
        }
    }

    /// Deletes by identifier; a no-op where the identifier is absent.
    pub fn remove_favorite(&mut self, id: u64)
        requires
            old(self).wf(),
        ensures
            final(self).wf(),
            final(self)@ == fav_remove(old(self)@, id),
    {
        let ghost s0 = self@;
        let mut idx: usize = 0;
        while idx < self.stories.len() && self.stories[idx].id != id
            invariant
                idx <= self@.len(),
                forall|k: int| 0 <= k < idx ==> self@[k].id != id,
                self@ == s0,
            decreases self@.len() - idx,
        {
            idx = idx + 1;
        }
        proof {
            lemma_fav_remove_props(s0, id);
        }
        if idx < self.stories.len() {
            proof {
                assert(s0[idx as int].id == id);
                lemma_remove_id_at(s0, id, idx as int);
            }
            self.stories.remove(idx);
            proof {
                assert(self@ =~= s0.take(idx as int) + s0.skip(idx as int + 1));
            }
        } else {
            proof {
                assert(!has_id(s0, id));
                lemma_remove_id_absent(s0, id);
            }
        }
    }

    /// The identifiers of the favorited stories, most recent first.
    pub fn id_vec(&self) -> (r: Vec<u64>)
        ensures
            r@ == ids_seq(self@),
    {
        let mut r: Vec<u64> = Vec::new();
        let mut i: usize = 0;
        while i < self.stories.len()
            invariant
                i <= self@.len(),
                r@ =~= ids_seq(self@).take(i as int),
            decreases self@.len() - i,
        {
            r.push(self.stories[i].id);
            i = i + 1;
            proof {
                assert(r@ =~= ids_seq(self@).take(i as int));
            }
        }
        proof {
            assert(ids_seq(self@).take(self@.len() as int) =~= ids_seq(self@));
        }
        r
    }

    /// All favorited stories, most recent first.
    pub fn get_all(&self) -> (r: Vec<Story>)
        ensures
            views_of(r@) == self@,
    {
        let mut r: Vec<Story> = Vec::new();
        let mut i: usize = 0;
        while i < self.stories.len()
            invariant
                i <= self@.len(),
                views_of(r@) =~= self@.take(i as int),
            decreases self@.len() - i,
        {
            let ghost old_r = r@;
            r.push(self.stories[i].clone());
            i = i + 1;
            proof {
                assert(views_of(r@) =~= views_of(old_r).push(self@[i - 1]));
                assert(self@.take(i as int) =~= self@.take(i - 1).push(self@[i - 1]));
            }
        }
        proof {
            assert(self@.take(self@.len() as int) =~= self@);
            assert(views_of(r@) =~= self@);
        }
        r
    }
}

} // verus!
