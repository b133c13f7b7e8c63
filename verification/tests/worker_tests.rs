use bsky_tui::config::AppConfig;
use bsky_tui::io::{SearchEvent, TimelineEvent};
use bsky_tui::state::{AppState, Post, Notification, Tab};
use bsky_tui::worker::FetchPlan;

fn cfg() -> AppConfig {
    AppConfig::new("user@example.com".to_string(), "hunter2".to_string(), true)
}

fn active() -> AppState {
    AppState::initialized("alice.example".to_string(), "did:plc:alice".to_string(), cfg())
}

fn post(n: u32) -> Post {
    Post {
        uri: format!("at://did:plc:alice/app.bsky.feed.post/p{}", n),
        cid: format!("cid{}", n),
        author_handle: "alice.example".to_string(),
        author_display_name: Some("Alice".to_string()),
        text: format!("post number {}", n),
        created_at: "2024-05-01T12:00:00Z".to_string(),
        reply_count: 0,
        repost_count: 0,
        like_count: 0,
        viewer: None,
    }
}

fn page(count: u32) -> Vec<Post> {
    (0..count).map(post).collect()
}

#[test]
fn plan_on_uninitialized_state_is_skip() {
    let st = AppState::Init;
    assert_eq!(st.timeline_fetch_plan(TimelineEvent::Load), FetchPlan::Skip);
    assert_eq!(st.search_fetch_plan(&SearchEvent::Reload), FetchPlan::Skip);
}

#[test]
fn plan_load_fetches_from_the_top() {
    let st = active();
    assert_eq!(st.timeline_fetch_plan(TimelineEvent::Load), FetchPlan::Fetch(None));
}

#[test]
fn plan_prev_at_start_is_skip() {
    let mut st = active();
    st.apply_timeline_fetch(TimelineEvent::Load, page(20), Some("abc".to_string()));
    assert_eq!(st.timeline_fetch_plan(TimelineEvent::Prev), FetchPlan::Skip);
}

#[test]
fn plan_next_without_forward_token_is_skip() {
    let mut st = active();
    st.apply_timeline_fetch(TimelineEvent::Load, page(5), None);
    assert_eq!(st.timeline_fetch_plan(TimelineEvent::Next), FetchPlan::Skip);
}

#[test]
fn plan_next_while_loading_is_skip() {
    let mut st = active();
    st.apply_timeline_fetch(TimelineEvent::Load, page(5), Some("abc".to_string()));
    st.set_loading(true);
    assert_eq!(st.timeline_fetch_plan(TimelineEvent::Next), FetchPlan::Skip);
}

#[test]
fn plan_reload_reuses_current_token() {
    let mut st = active();
    st.apply_timeline_fetch(TimelineEvent::Load, page(5), Some("abc".to_string()));
    // position 0 was fetched with no token
    assert_eq!(st.timeline_fetch_plan(TimelineEvent::Reload), FetchPlan::Fetch(None));
    st.apply_timeline_fetch(TimelineEvent::Next, page(5), Some("def".to_string()));
    assert_eq!(
        st.timeline_fetch_plan(TimelineEvent::Reload),
        FetchPlan::Fetch(Some("abc".to_string()))
    );
}

#[test]
fn timeline_paging_scenario() {
    // a fresh load returns 20 items and token "abc"
    let mut st = active();
    st.apply_timeline_fetch(TimelineEvent::Load, page(20), Some("abc".to_string()));
    assert_eq!(st.get_timeline().unwrap().len(), 20);
    assert_eq!(st.get_tl_current_cursor_index(), 0);

    // moving forward fetches with "abc"
    assert_eq!(
        st.timeline_fetch_plan(TimelineEvent::Next),
        FetchPlan::Fetch(Some("abc".to_string()))
    );

    // the fetch returns 20 items and token "def"
    st.apply_timeline_fetch(TimelineEvent::Next, page(20), Some("def".to_string()));

    // history is [None, "abc", "def"] with the cursor on "abc"
    assert_eq!(st.get_tl_current_cursor_index(), 1);
    assert_eq!(st.get_prev_cursor(), None);
    assert_eq!(st.get_current_cursor(), Some("abc".to_string()));
    assert_eq!(st.get_next_cursor(), Some("def".to_string()));
    if let AppState::Initialized(s) = &st {
        assert_eq!(s.timeline_history.len(), 3);
    } else {
        panic!("state lost its session");
    }
}

#[test]
fn apply_timeline_fetch_resets_selection_and_loading() {
    let mut st = active();
    st.apply_timeline_fetch(TimelineEvent::Load, page(5), Some("abc".to_string()));
    st.move_tl_scroll_down();
    st.move_tl_scroll_down();
    assert_eq!(st.get_tl_list_position(), 2);
    st.set_loading(true);
    st.apply_timeline_fetch(TimelineEvent::Reload, page(3), Some("abc2".to_string()));
    assert_eq!(st.get_tl_list_position(), 0);
    assert!(!st.is_loading());
    assert_eq!(st.get_timeline().unwrap().len(), 3);
}

#[test]
fn reload_changes_only_content_never_history() {
    let mut st = active();
    st.apply_timeline_fetch(TimelineEvent::Load, page(5), Some("abc".to_string()));
    st.apply_timeline_fetch(TimelineEvent::Next, page(5), Some("def".to_string()));
    let (len_before, pos_before) = if let AppState::Initialized(s) = &st {
        (s.timeline_history.len(), s.timeline_history.position())
    } else {
        panic!("state lost its session");
    };
    st.apply_timeline_fetch(TimelineEvent::Reload, page(2), Some("ignored".to_string()));
    if let AppState::Initialized(s) = &st {
        assert_eq!(s.timeline_history.len(), len_before);
        assert_eq!(s.timeline_history.position(), pos_before);
    }
    assert_eq!(st.get_timeline().unwrap().len(), 2);
}

#[test]
fn search_load_remembers_query_and_activates_search_tab() {
    let mut st = active();
    assert_eq!(st.get_tab(), Tab::Home);
    st.apply_search_fetch(
        SearchEvent::Load("cats".to_string()),
        page(7),
        Some("s1".to_string()),
    );
    assert_eq!(st.get_tab(), Tab::Search);
    assert_eq!(st.get_search_query(), Some("cats".to_string()));
    assert_eq!(st.get_search_results().unwrap().len(), 7);
    assert_eq!(st.get_search_current_cursor_index(), 0);
    assert_eq!(st.get_search_next_cursor(), Some("s1".to_string()));
}

#[test]
fn search_query_to_use_prefers_the_loaded_query() {
    let mut st = active();
    st.apply_search_fetch(SearchEvent::Load("cats".to_string()), page(3), None);
    assert_eq!(st.search_query_to_use(&SearchEvent::Reload), "cats".to_string());
    assert_eq!(
        st.search_query_to_use(&SearchEvent::Load("dogs".to_string())),
        "dogs".to_string()
    );
    let fresh = active();
    assert_eq!(fresh.search_query_to_use(&SearchEvent::Reload), String::new());
}

#[test]
fn search_paging_mirrors_timeline_paging() {
    let mut st = active();
    st.apply_search_fetch(SearchEvent::Load("cats".to_string()), page(3), Some("s1".to_string()));
    assert_eq!(st.search_fetch_plan(&SearchEvent::Next), FetchPlan::Fetch(Some("s1".to_string())));
    st.apply_search_fetch(SearchEvent::Next, page(3), Some("s2".to_string()));
    assert_eq!(st.get_search_current_cursor_index(), 1);
    assert_eq!(st.get_search_prev_cursor(), None);
    assert_eq!(st.get_search_current_cursor(), Some("s1".to_string()));
    assert_eq!(st.get_search_next_cursor(), Some("s2".to_string()));
    assert_eq!(st.search_fetch_plan(&SearchEvent::Prev), FetchPlan::Fetch(None));
}

#[test]
fn apply_notifications_keeps_valid_selection_and_clears_loading() {
    let mut st = active();
    let notes: Vec<Notification> = (0..4)
        .map(|n| Notification {
            author_handle: "bob.example".to_string(),
            author_display_name: None,
            reason: "like".to_string(),
            subject_uri: Some(format!("at://did:plc:alice/app.bsky.feed.post/p{}", n)),
        })
        .collect();
    st.set_loading(true);
    st.apply_notifications(notes.clone());
    assert!(!st.is_loading());
    assert_eq!(st.get_notifications().unwrap().len(), 4);
    st.move_notifications_scroll_down();
    st.move_notifications_scroll_down();
    st.move_notifications_scroll_down();
    assert_eq!(st.get_notifications_list_position(), 3);
    // a shorter page pulls an out-of-range selection back to the top
    st.apply_notifications(notes[..2].to_vec());
    assert_eq!(st.get_notifications_list_position(), 0);
}

#[test]
fn fresh_session_exposes_identity_and_defaults() {
    let st = active();
    assert!(st.is_initialized());
    assert_eq!(st.get_handle(), "alice.example");
    assert_eq!(st.get_did(), "did:plc:alice");
    assert!(st.is_normal_mode());
    assert!(!st.is_help_mode());
    assert!(!st.is_post_mode());
    assert!(!st.is_reply_mode());
    assert!(!st.is_search_mode());
    assert!(!st.is_loading());
    assert_eq!(st.get_tab(), Tab::Home);
    assert_eq!(st.get_cursors(), vec![None]);
    assert_eq!(st.get_search_cursors(), vec![None]);
}

#[test]
fn default_state_is_uninitialized() {
    let st = AppState::default();
    assert!(!st.is_initialized());
    assert_eq!(st.get_handle(), "");
    assert_eq!(st.get_cursors(), Vec::<Option<String>>::new());
}

#[test]
fn cursor_vector_records_the_paging_tokens() {
    let mut st = active();
    st.apply_timeline_fetch(TimelineEvent::Load, page(2), Some("abc".to_string()));
    st.apply_timeline_fetch(TimelineEvent::Next, page(2), Some("def".to_string()));
    assert_eq!(
        st.get_cursors(),
        vec![None, Some("abc".to_string()), Some("def".to_string())]
    );
}
