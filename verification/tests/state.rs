use hn_reader::app_state::{AppState, FetchOutcome, ViewMode};
use hn_reader::category::Category;
use hn_reader::coordinator::{Coordinator, PendingSlot};
use hn_reader::favorites::{Favorites, StoreAction};
use hn_reader::story::{derive_displays, Story};
use hn_reader::theme::GruvboxTheme;

fn story(id: u64, time: u64) -> Story {
    Story {
        id,
        title: format!("story {}", id),
        url: Some(format!("https://example.com/{}", id)),
        by: "author".to_string(),
        score: 1,
        time,
        descendants: Some(2),
    }
}

fn fresh_state() -> AppState {
    AppState::new(GruvboxTheme::Dark, Favorites::new())
}

#[test]
fn favorites_round_trip() {
    let mut f = Favorites::new();
    f.add_favorite(story(10, 100));
    let all = f.get_all();
    assert!(all.iter().any(|s| s.id == 10));
    f.remove_favorite(10);
    let all = f.get_all();
    assert!(!all.iter().any(|s| s.id == 10));
}

#[test]
fn add_with_same_id_replaces() {
    let mut f = Favorites::new();
    f.add_favorite(story(10, 100));
    let mut newer = story(10, 350);
    newer.title = "updated title".to_string();
    f.add_favorite(newer);
    let all = f.get_all();
    assert_eq!(all.len(), 1);
    assert_eq!(all[0].id, 10);
    assert_eq!(all[0].title, "updated title");
    assert_eq!(all[0].time, 350);
}

#[test]
fn get_all_is_sorted_by_time_descending() {
    let mut f = Favorites::new();
    for (id, time) in [(1u64, 50u64), (2, 400), (3, 120), (4, 990), (5, 5)] {
        f.add_favorite(story(id, time));
    }
    let times: Vec<u64> = f.get_all().iter().map(|s| s.time).collect();
    assert_eq!(times, vec![990, 400, 120, 50, 5]);
}

#[test]
fn from_rows_sorts_and_keeps_the_later_duplicate() {
    let rows = vec![story(1, 10), story(2, 30), story(1, 20)];
    let f = Favorites::from_rows(&rows);
    let all = f.get_all();
    assert_eq!(all.len(), 2);
    assert_eq!(all[0].id, 2);
    assert_eq!(all[1].id, 1);
    assert_eq!(all[1].time, 20);
    assert!(f.is_favorite(1));
    assert!(f.is_favorite(2));
    assert!(!f.is_favorite(3));
}

#[test]
fn startup_state() {
    let rows = vec![story(7, 70), story(8, 80)];
    let state = AppState::new(GruvboxTheme::Light, Favorites::from_rows(&rows));
    assert_eq!(state.current_category, Category::Top);
    assert_eq!(state.view_mode, ViewMode::Fetched);
    assert!(state.stories.is_empty());
    assert!(!state.is_loading);
    assert!(state.error_message.is_none());
    assert_eq!(state.theme, GruvboxTheme::Light);
    assert!(state.is_favorite(7));
    assert!(state.is_favorite(8));
    assert!(!state.is_favorite(9));
}

#[test]
fn toggle_favorite_twice_restores_the_state() {
    let rows = vec![story(1, 10), story(2, 20)];
    let mut state = AppState::new(GruvboxTheme::Dark, Favorites::from_rows(&rows));
    let before: Vec<u64> = state.saved_stories.id_vec();

    let s = story(33, 15);
    let action = state.toggle_favorite(&s);
    match action {
        StoreAction::Insert(inserted) => assert_eq!(inserted.id, 33),
        _ => panic!("first toggle of a new story must insert"),
    }
    assert!(state.is_favorite(33));
    assert_eq!(state.saved_stories.id_vec(), vec![2, 33, 1]);

    let action = state.toggle_favorite(&s);
    match action {
        StoreAction::Delete(id) => assert_eq!(id, 33),
        _ => panic!("second toggle must delete"),
    }
    assert!(!state.is_favorite(33));
    assert_eq!(state.saved_stories.id_vec(), before);
}

#[test]
fn set_view_mode_dispatch_rules() {
    let mut state = fresh_state();
    // Entering the fetched view with no listing and none loading dispatches.
    assert!(state.set_view_mode(ViewMode::Fetched));
    // The saved view never dispatches.
    assert!(!state.set_view_mode(ViewMode::Saved));
    assert_eq!(state.view_mode, ViewMode::Saved);
    // While loading, entering the fetched view does not dispatch again.
    state.begin_fetch();
    assert!(!state.set_view_mode(ViewMode::Fetched));
}

#[test]
fn select_category_clears_the_error() {
    let mut state = fresh_state();
    let coordinator = Coordinator::new();
    let writer = coordinator.dispatch(&mut state);
    writer.put(FetchOutcome::Failure("boom".to_string()));
    coordinator.drain(&mut state);
    assert!(state.error_message.is_some());
    state.select_category(Category::Ask);
    assert_eq!(state.current_category, Category::Ask);
    assert!(state.error_message.is_none());
}

#[test]
fn toggle_theme_returns_the_config_to_save() {
    let mut state = fresh_state();
    let config = state.toggle_theme();
    assert_eq!(state.theme, GruvboxTheme::Light);
    assert_eq!(config.theme, GruvboxTheme::Light);
    let config = state.toggle_theme();
    assert_eq!(config.theme, GruvboxTheme::Dark);
}

#[test]
fn successful_fetch_reconciles_on_drain() {
    // 30 identifiers dispatched, 25 parse, 5 are skipped: the next drain
    // yields exactly those 25, done loading, with no error.
    let mut state = fresh_state();
    let coordinator = Coordinator::new();
    let writer = coordinator.dispatch(&mut state);
    assert!(state.is_loading);

    let stories: Vec<Story> = (1..=30)
        .filter(|id| id % 6 != 0)
        .map(|id| story(id, 1000 + id))
        .collect();
    assert_eq!(stories.len(), 25);
    writer.put(FetchOutcome::Stories(derive_displays(&stories)));

    coordinator.drain(&mut state);
    assert_eq!(state.stories.len(), 25);
    assert!(!state.is_loading);
    assert!(state.error_message.is_none());
}

#[test]
fn failed_fetch_reconciles_the_error_and_keeps_the_listing() {
    let mut state = fresh_state();
    let coordinator = Coordinator::new();

    // A first fetch fills the listing.
    let writer = coordinator.dispatch(&mut state);
    let stories = vec![story(1, 11), story(2, 12)];
    writer.put(FetchOutcome::Stories(derive_displays(&stories)));
    coordinator.drain(&mut state);
    assert_eq!(state.stories.len(), 2);

    // The next fetch fails in transport: the error lands, the listing stays.
    let writer = coordinator.dispatch(&mut state);
    assert!(state.is_loading);
    writer.put(FetchOutcome::Failure("Failed to fetch: Request error: timeout".to_string()));
    coordinator.drain(&mut state);
    assert!(!state.is_loading);
    assert_eq!(
        state.error_message.as_deref(),
        Some("Failed to fetch: Request error: timeout")
    );
    assert_eq!(state.stories.len(), 2);
}

#[test]
fn drain_after_consumption_changes_nothing() {
    let mut state = fresh_state();
    let coordinator = Coordinator::new();
    let writer = coordinator.dispatch(&mut state);
    writer.put(FetchOutcome::Stories(derive_displays(&vec![story(1, 1)])));
    coordinator.drain(&mut state);
    assert_eq!(state.stories.len(), 1);
    assert!(!state.is_loading);

    // The slot stays empty until the next dispatch: further drains are no-ops.
    for _ in 0..3 {
        coordinator.drain(&mut state);
        assert_eq!(state.stories.len(), 1);
        assert!(!state.is_loading);
        assert!(state.error_message.is_none());
    }
}

#[test]
fn slot_is_emptied_by_take() {
    let slot = PendingSlot::new();
    assert!(slot.take().is_none());
    slot.put(FetchOutcome::Failure("x".to_string()));
    assert!(slot.take().is_some());
    assert!(slot.take().is_none());
    assert!(slot.take().is_none());
}

#[test]
fn last_writer_wins_in_the_slot() {
    // Nothing is cancelled: a superseded result is simply overwritten.
    let slot = PendingSlot::new();
    slot.put(FetchOutcome::Failure("old".to_string()));
    slot.put(FetchOutcome::Failure("new".to_string()));
    match slot.take() {
        Some(FetchOutcome::Failure(m)) => assert_eq!(m, "new"),
        _ => panic!("the later write must be the one read"),
    }
    assert!(slot.take().is_none());
}
