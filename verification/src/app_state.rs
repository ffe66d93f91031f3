//! The presentation-ready application state and its transitions. Every
//! mutation the presentation loop can ask for is a verified function here;
//! the durable store and the background fetch hand their work in and out as
//! plain values.

use vstd::prelude::*;
use crate::category::Category;
use crate::favorites::{fav_add, fav_remove, has_id, id_set, Favorites, StoreAction};
use crate::story::{Story, StoryDisplay};
use crate::theme::GruvboxTheme;
use crate::config::AppConfig;
use vstd::hash_set::HashSetWithView;

verus! {

/// Which listing the central panel shows.
#[derive(Debug, Clone, Copy, PartialEq, Eq, Structural)]
pub enum ViewMode {
    Fetched,
    Saved,
}

/// What one background fetch left in the handoff slot: the derived display
/// rows on success, the user-visible message on a transport failure.
#[derive(Debug)]
pub enum FetchOutcome {
    Stories(Vec<StoryDisplay>),
    Failure(String),
}

/// The reconciled, presentation-ready snapshot.
pub struct AppState {
    pub current_category: Category,
    pub view_mode: ViewMode,
    /// The last successfully fetched listing, replaced wholesale on success.
    pub stories: Vec<StoryDisplay>,
    /// The favorites cache, mutated in lockstep with the durable store.
    pub saved_stories: Favorites,
    /// The lookup index over the favorites cache.
    pub favorite_ids: HashSetWithView<u64>,
    pub is_loading: bool,
    pub error_message: Option<String>,
    pub theme: GruvboxTheme,
}

impl AppState {
    /// The state invariant: the identifier index names exactly the saved
    /// stories, and the saved stories are well-formed.
    pub open spec fn wf(self) -> bool {
        &&& self.favorite_ids@ == id_set(self.saved_stories@)
        &&& self.saved_stories.wf()
    }

    /// The startup state over the favorites read back from the store: the
    /// default category, the fetched view, no listing yet, nothing loading
    /// and no error. The caller dispatches the first fetch.
    pub fn new(theme: GruvboxTheme, saved_stories: Favorites) -> (r: AppState)
        requires
            saved_stories.wf(),
        ensures
            r.wf(),
            r.current_category == Category::Top,
            r.view_mode == ViewMode::Fetched,
            r.stories@ == Seq::<StoryDisplay>::empty(),
            r.saved_stories == saved_stories,
            r.is_loading == false,
            r.error_message is None,
            r.theme == theme,
    {
        broadcast use vstd::std_specs::hash::group_hash_axioms;

        let ids = saved_stories.id_vec();
        let mut favorite_ids: HashSetWithView<u64> = HashSetWithView::new();
        let mut i: usize = 0;
        while i < ids.len()
            invariant
                i <= ids@.len(),
                forall|x: u64|
                    favorite_ids@.contains(x) == exists|k: int| 0 <= k < i && ids@[k] == x,
            decreases ids@.len() - i,
        {
            favorite_ids.insert(ids[i]);
            i = i + 1;
            proof {
                assert forall|x: u64|
                    favorite_ids@.contains(x) == exists|k: int|
                        0 <= k < i && ids@[k] == x by {
                    if x == ids@[i - 1] {
                        assert(ids@[i - 1] == x);
                    }
                }
            }
        }
        proof {
            assert forall|x: u64| favorite_ids@.contains(x) == has_id(saved_stories@, x) by {
                if favorite_ids@.contains(x) {
                    let k = choose|k: int| 0 <= k < i && ids@[k] == x;
                    assert(saved_stories@[k].id == x);
                }
                if has_id(saved_stories@, x) {
                    let k = choose|k: int|
                        0 <= k < saved_stories@.len() && saved_stories@[k].id == x;
                    assert(ids@[k] == x);
                }
            }
            assert(favorite_ids@ =~= id_set(saved_stories@));
        }
        let r = AppState {
            current_category: Category::Top,
            view_mode: ViewMode::Fetched,
            stories: Vec::new(),
            saved_stories,
            favorite_ids,
            is_loading: false,
            error_message: None,
            theme,
        };
        proof {
            assert(r.stories@ =~= Seq::<StoryDisplay>::empty());
        }
        r
    }

    /// Marks a dispatch: the loop is now waiting on a background fetch, and
    /// any previous error is withdrawn. Nothing else moves.
    pub fn begin_fetch(&mut self)
        ensures
            final(self).is_loading == true,
            final(self).error_message is None,
            final(self).current_category == old(self).current_category,
            final(self).view_mode == old(self).view_mode,
            final(self).stories == old(self).stories,
            final(self).saved_stories == old(self).saved_stories,
            final(self).favorite_ids == old(self).favorite_ids,
            final(self).theme == old(self).theme,
    {
        self.is_loading = true;
        self.error_message = None;
    }

    /// Switches the listing category and clears the error; the stale listing
    /// stays visible until the dispatched fetch reconciles (the caller
    /// dispatches).
    pub fn select_category(&mut self, category: Category)
        ensures
            final(self).current_category == category,
            final(self).error_message is None,
            final(self).view_mode == old(self).view_mode,
            final(self).stories == old(self).stories,
            final(self).saved_stories == old(self).saved_stories,
            final(self).favorite_ids == old(self).favorite_ids,
            final(self).is_loading == old(self).is_loading,
            final(self).theme == old(self).theme,
    {
        self.current_category = category;
        self.error_message = None;
    }

    /// Switches the view. Returns whether the caller must dispatch a fetch:
    /// only when entering the fetched view with no listing and none loading.
    pub fn set_view_mode(&mut self, mode: ViewMode) -> (dispatch: bool)
        ensures
            final(self).view_mode == mode,
            final(self).error_message is None,
            dispatch == (mode == ViewMode::Fetched && old(self).stories@.len() == 0 && !old(
                self,
            ).is_loading),
            final(self).current_category == old(self).current_category,
            final(self).stories == old(self).stories,
            final(self).saved_stories == old(self).saved_stories,
            final(self).favorite_ids == old(self).favorite_ids,
            final(self).is_loading == old(self).is_loading,
            final(self).theme == old(self).theme,
    {
        self.view_mode = mode;
        self.error_message = None;
        mode == ViewMode::Fetched && self.stories.is_empty() && !self.is_loading
    }

    /// Whether the identifier is favorited.
    pub fn is_favorite(&self, id: u64) -> (r: bool)
        ensures
            r == self.favorite_ids@.contains(id),
    {
        self.favorite_ids.contains(&id)
    }

    /// Favorites the story, or unfavorites it where its identifier is
    /// already saved, keeping index and cache in lockstep, and hands back
    /// the write the durable store must mirror. The cache mutates whether or
    /// not that durable write later succeeds (best-effort favorites).
    pub fn toggle_favorite(&mut self, story: &Story) -> (action: StoreAction)
        requires
            old(self).wf(),
        ensures
            final(self).wf(),
            old(self).favorite_ids@.contains(story.id) ==> {
                &&& action == StoreAction::Delete(story.id)
                &&& final(self).saved_stories@ == fav_remove(old(self).saved_stories@, story.id)
                &&& final(self).favorite_ids@ == old(self).favorite_ids@.remove(story.id)
            },
            !old(self).favorite_ids@.contains(story.id) ==> {
                &&& action matches StoreAction::Insert(s) && s@ == story@
                &&& final(self).saved_stories@ == fav_add(old(self).saved_stories@, story@)
                &&& final(self).favorite_ids@ == old(self).favorite_ids@.insert(story.id)
            },
            final(self).current_category == old(self).current_category,
            final(self).view_mode == old(self).view_mode,
            final(self).stories == old(self).stories,
            final(self).is_loading == old(self).is_loading,
            final(self).error_message == old(self).error_message,
            final(self).theme == old(self).theme,
    {
        let ghost s0 = self.saved_stories@;
        if self.favorite_ids.contains(&story.id) {
            self.favorite_ids.remove(&story.id);
            self.saved_stories.remove_favorite(story.id);
            proof {
                crate::favorites::lemma_fav_remove_props(s0, story.id);
                assert(self.favorite_ids@ =~= id_set(self.saved_stories@));
            }
            StoreAction::Delete(story.id)
        } else {
            let owned = story.clone();
            self.favorite_ids.insert(story.id);
            self.saved_stories.add_favorite(owned);
            proof {
                crate::favorites::lemma_fav_add_props(s0, story@);
                assert(self.favorite_ids@ =~= id_set(self.saved_stories@));
            }
            StoreAction::Insert(story.clone())
        }
    }

    /// Flips the theme and hands back the preference record to persist.
    pub fn toggle_theme(&mut self) -> (config: AppConfig)
        ensures
            final(self).theme == old(self).theme.spec_toggled(),
            config.theme == final(self).theme,
            final(self).current_category == old(self).current_category,
            final(self).view_mode == old(self).view_mode,
            final(self).stories == old(self).stories,
            final(self).saved_stories == old(self).saved_stories,
            final(self).favorite_ids == old(self).favorite_ids,
            final(self).is_loading == old(self).is_loading,
            final(self).error_message == old(self).error_message,
    {
        self.theme = self.theme.toggled();
        AppConfig { theme: self.theme }
    }

    /// Merges one drained outcome into the visible state: a story list
    /// replaces the listing wholesale and clears both flags; a failure sets
    /// the error, ends loading and leaves the listing as it stood.
    pub fn reconcile(&mut self, outcome: FetchOutcome)
        ensures
            reconciled(*old(self), outcome, *final(self)),
    {
        match outcome {
            FetchOutcome::Stories(stories) => {
                self.stories = stories;
                self.is_loading = false;
                self.error_message = None;
            },
            FetchOutcome::Failure(message) => {
                self.error_message = Some(message);
                self.is_loading = false;
            },
        }
    }
}

/// How a drained outcome relates the state before to the state after.
pub open spec fn reconciled(pre: AppState, outcome: FetchOutcome, post: AppState) -> bool {
    &&& post.is_loading == false
    &&& match outcome {
        FetchOutcome::Stories(stories) => post.stories == stories && post.error_message is None,
        FetchOutcome::Failure(message) => post.error_message == Some(message) && post.stories
            == pre.stories,
    }
    &&& post.current_category == pre.current_category
    &&& post.view_mode == pre.view_mode
    &&& post.saved_stories == pre.saved_stories
    &&& post.favorite_ids == pre.favorite_ids
    &&& post.theme == pre.theme
}

/// What one toggle leaves of the saved stories: removal where the identifier
/// is saved, an add where it is not — exactly what
/// [`AppState::toggle_favorite`] does to its cache.
pub open spec fn toggle_saved(s: Seq<crate::story::StoryView>, v: crate::story::StoryView) -> Seq<
    crate::story::StoryView,
> {
    if has_id(s, v.id) {
        fav_remove(s, v.id)
    } else {
        fav_add(s, v)
    }
}

/// Toggling the same story twice is its own inverse: the identifier set is
/// restored exactly, and the saved stories carry the same identifiers with
/// the same multiplicities as before. (Where the identifier was saved under
/// an older record, the record itself is replaced by the toggled story; the
/// identifiers are unchanged.)
pub proof fn lemma_toggle_twice(s: Seq<crate::story::StoryView>, v: crate::story::StoryView)
    requires
        crate::favorites::sorted_desc(s),
        crate::favorites::unique_ids(s),
    ensures
        id_set(toggle_saved(toggle_saved(s, v), v)) == id_set(s),
        crate::favorites::ids_seq(toggle_saved(toggle_saved(s, v), v)).to_multiset()
            == crate::favorites::ids_seq(s).to_multiset(),
        !has_id(s, v.id) ==> toggle_saved(toggle_saved(s, v), v) == s,
{
    if !has_id(s, v.id) {
        crate::favorites::lemma_fav_add_props(s, v);
        crate::favorites::lemma_favorites_round_trip(s, v, v);
        assert(toggle_saved(toggle_saved(s, v), v) == s);
    } else {
        crate::favorites::lemma_fav_remove_props(s, v.id);
        let t1 = fav_remove(s, v.id);
        crate::favorites::lemma_fav_add_props(t1, v);
        let t2 = fav_add(t1, v);
        assert(toggle_saved(toggle_saved(s, v), v) == t2);
        assert forall|x: u64| id_set(t2).contains(x) == id_set(s).contains(x) by {
            if x != v.id {
                assert(has_id(t2, x) == has_id(t1, x));
                assert(has_id(t1, x) == has_id(s, x));
            } else {
                assert(has_id(t2, v.id));
            }
        }
        assert(id_set(t2) =~= id_set(s));
        crate::favorites::lemma_unique_ids_multiset(t2, s);
        assert(crate::favorites::ids_seq(t2).to_multiset() =~= crate::favorites::ids_seq(
            s,
        ).to_multiset());
    }
}

} // verus!
