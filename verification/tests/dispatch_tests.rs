use bsky_tui::actions::{AppReturn, Effect};
use bsky_tui::config::AppConfig;
use bsky_tui::io::{IoEvent, SearchEvent, TimelineEvent};
use bsky_tui::keys::Key;
use bsky_tui::state::{AppState, Mode, Post, Tab, ViewerState};

fn cfg() -> AppConfig {
    AppConfig::new("user@example.com".to_string(), "hunter2".to_string(), true)
}

fn active() -> AppState {
    AppState::initialized("alice.example".to_string(), "did:plc:alice".to_string(), cfg())
}

fn post(n: u32) -> Post {
    Post {
        uri: format!("at://did:plc:alice/app.bsky.feed.post/p{}", n),
        cid: format!("cid{}", n),
        author_handle: "alice.example".to_string(),
        author_display_name: Some("Alice".to_string()),
        text: format!("post number {}", n),
        created_at: "2024-05-01T12:00:00Z".to_string(),
        reply_count: 0,
        repost_count: 0,
        like_count: 0,
        viewer: Some(ViewerState { like: None, repost: None }),
    }
}

fn active_with_timeline(count: u32) -> AppState {
    let mut st = active();
    st.apply_timeline_fetch(
        TimelineEvent::Load,
        (0..count).map(post).collect(),
        Some("abc".to_string()),
    );
    st
}

#[test]
fn undefined_key_leaves_state_unchanged() {
    let mut st = active_with_timeline(3);
    let before = st.clone();
    let (ret, eff) = st.do_action(Key::F5);
    assert_eq!(ret, AppReturn::Continue);
    assert_eq!(eff, Effect::Nothing);
    assert_eq!(st, before);
}

#[test]
fn undefined_key_in_every_mode_leaves_state_unchanged() {
    for opener in [Key::Char('n'), Key::Char('/'), Key::Char('?')] {
        let mut st = active_with_timeline(3);
        st.do_action(opener);
        let before = st.clone();
        let (ret, eff) = st.do_action(Key::PageDown);
        assert_eq!(ret, AppReturn::Continue);
        assert_eq!(eff, Effect::Nothing);
        assert_eq!(st, before);
    }
}

#[test]
fn quit_key_exits_only_from_normal_mode() {
    let mut st = active_with_timeline(1);
    let (ret, _) = st.do_action(Key::Char('q'));
    assert_eq!(ret, AppReturn::Exit);

    let mut st = active_with_timeline(1);
    st.do_action(Key::Char('n'));
    let (ret, _) = st.do_action(Key::Char('q'));
    assert_eq!(ret, AppReturn::Continue);
    assert_eq!(st.get_input_value(), "q");
}

#[test]
fn reply_with_no_selection_is_suppressed() {
    // fresh session: the timeline is empty, so there is nothing to reply to
    let mut st = active();
    let before = st.clone();
    let (ret, eff) = st.do_action(Key::Char('N'));
    assert_eq!(ret, AppReturn::Continue);
    assert_eq!(eff, Effect::Nothing);
    assert_eq!(st.get_mode(), Mode::Normal);
    assert_eq!(st, before);
}

#[test]
fn reply_with_selection_enters_reply_mode() {
    let mut st = active_with_timeline(3);
    let (_, eff) = st.do_action(Key::Char('N'));
    assert_eq!(eff, Effect::Nothing);
    assert_eq!(st.get_mode(), Mode::Reply);
    assert_eq!(st.get_input_value(), "");
}

#[test]
fn compose_submit_carries_buffer_and_resets_before_the_worker_runs() {
    let mut st = active_with_timeline(1);
    st.do_action(Key::Char('n'));
    assert_eq!(st.get_mode(), Mode::Post);
    st.do_action(Key::Char('h'));
    st.do_action(Key::Char('i'));
    let (ret, eff) = st.do_action(Key::Enter);
    assert_eq!(ret, AppReturn::Continue);
    assert_eq!(eff, Effect::Dispatch(IoEvent::SendPost("hi".to_string())));
    // the local reset happened already, independent of the network outcome
    assert_eq!(st.get_mode(), Mode::Normal);
    assert_eq!(st.get_input_value(), "");
}

#[test]
fn compose_cancel_clears_the_buffer() {
    let mut st = active_with_timeline(1);
    st.do_action(Key::Char('n'));
    st.do_action(Key::Char('x'));
    let (_, eff) = st.do_action(Key::Esc);
    assert_eq!(eff, Effect::Nothing);
    assert_eq!(st.get_mode(), Mode::Normal);
    assert_eq!(st.get_input_value(), "");
}

#[test]
fn editing_keys_move_the_caret_in_characters() {
    let mut st = active_with_timeline(1);
    st.do_action(Key::Char('n'));
    st.do_action(Key::Char('猫'));
    st.do_action(Key::Char('b'));
    st.do_action(Key::Left);
    st.do_action(Key::Char('a'));
    assert_eq!(st.get_input_value(), "猫ab");
    st.do_action(Key::Ctrl('a'));
    assert_eq!(st.get_input_caret(), 0);
    st.do_action(Key::Ctrl('e'));
    assert_eq!(st.get_input_caret(), 3);
    st.do_action(Key::Backspace);
    assert_eq!(st.get_input_value(), "猫a");
}

#[test]
fn selection_moves_and_stays_in_bounds() {
    let mut st = active_with_timeline(3);
    assert_eq!(st.get_tl_list_position(), 0);
    st.do_action(Key::Char('k'));
    assert_eq!(st.get_tl_list_position(), 0);
    st.do_action(Key::Char('j'));
    st.do_action(Key::Down);
    assert_eq!(st.get_tl_list_position(), 2);
    st.do_action(Key::Char('j'));
    assert_eq!(st.get_tl_list_position(), 2);
    st.do_action(Key::Up);
    assert_eq!(st.get_tl_list_position(), 1);
}

#[test]
fn tab_key_cycles_and_loads_the_new_tab() {
    let mut st = active_with_timeline(1);
    let (_, eff) = st.do_action(Key::Tab);
    assert_eq!(st.get_tab(), Tab::Notifications);
    assert_eq!(eff, Effect::Dispatch(IoEvent::LoadNotifications));
    let (_, eff) = st.do_action(Key::Tab);
    assert_eq!(st.get_tab(), Tab::Search);
    assert_eq!(eff, Effect::Nothing);
    let (_, eff) = st.do_action(Key::Tab);
    assert_eq!(st.get_tab(), Tab::Home);
    assert_eq!(eff, Effect::Dispatch(IoEvent::LoadTimeline(TimelineEvent::Reload)));
}

#[test]
fn timeline_keys_emit_the_expected_commands() {
    let mut st = active_with_timeline(1);
    let (_, eff) = st.do_action(Key::Char('r'));
    assert_eq!(eff, Effect::Dispatch(IoEvent::LoadTimeline(TimelineEvent::Reload)));
    let (_, eff) = st.do_action(Key::Char('l'));
    assert_eq!(eff, Effect::Dispatch(IoEvent::LoadTimeline(TimelineEvent::Next)));
    let (_, eff) = st.do_action(Key::Char('h'));
    assert_eq!(eff, Effect::Dispatch(IoEvent::LoadTimeline(TimelineEvent::Prev)));
    let (_, eff) = st.do_action(Key::Ctrl('l'));
    assert_eq!(eff, Effect::Dispatch(IoEvent::Like));
    let (_, eff) = st.do_action(Key::Ctrl('r'));
    assert_eq!(eff, Effect::Dispatch(IoEvent::Repost));
}

#[test]
fn enter_opens_the_selected_post_in_the_browser() {
    let mut st = active_with_timeline(2);
    st.do_action(Key::Char('j'));
    let (_, eff) = st.do_action(Key::Enter);
    assert_eq!(
        eff,
        Effect::OpenUrl("https://bsky.app/profile/alice.example/post/p1".to_string())
    );
}

#[test]
fn enter_with_no_timeline_opens_nothing() {
    let mut st = active();
    let (_, eff) = st.do_action(Key::Enter);
    assert_eq!(eff, Effect::Nothing);
}

#[test]
fn help_overlay_opens_and_returns_to_normal_only() {
    let mut st = active_with_timeline(1);
    st.do_action(Key::Char('?'));
    assert_eq!(st.get_mode(), Mode::Help);
    // other keys do nothing while help is up
    let before = st.clone();
    let (ret, eff) = st.do_action(Key::Char('j'));
    assert_eq!(ret, AppReturn::Continue);
    assert_eq!(eff, Effect::Nothing);
    assert_eq!(st, before);
    st.do_action(Key::Char('?'));
    assert_eq!(st.get_mode(), Mode::Normal);
}

#[test]
fn search_input_submit_loads_the_query_and_switches_tabs() {
    let mut st = active_with_timeline(1);
    st.do_action(Key::Char('/'));
    assert_eq!(st.get_mode(), Mode::Search);
    for c in ['c', 'a', 't', 's'] {
        st.do_action(Key::Char(c));
    }
    let (_, eff) = st.do_action(Key::Enter);
    assert_eq!(eff, Effect::Dispatch(IoEvent::Search(SearchEvent::Load("cats".to_string()))));
    assert_eq!(st.get_mode(), Mode::Normal);
    assert_eq!(st.get_tab(), Tab::Search);
    assert_eq!(st.get_search_query(), Some("cats".to_string()));
    assert_eq!(st.get_input_value(), "");
}

#[test]
fn empty_search_query_is_suppressed() {
    let mut st = active_with_timeline(1);
    st.do_action(Key::Char('/'));
    let before = st.clone();
    let (_, eff) = st.do_action(Key::Enter);
    assert_eq!(eff, Effect::Nothing);
    assert_eq!(st, before);
    assert_eq!(st.get_mode(), Mode::Search);
}

#[test]
fn search_tab_paging_emits_search_commands() {
    let mut st = active();
    st.apply_search_fetch(
        SearchEvent::Load("cats".to_string()),
        vec![post(0)],
        Some("s1".to_string()),
    );
    assert_eq!(st.get_tab(), Tab::Search);
    let (_, eff) = st.do_action(Key::Char('l'));
    assert_eq!(eff, Effect::Dispatch(IoEvent::Search(SearchEvent::Next)));
    let (_, eff) = st.do_action(Key::Char('h'));
    assert_eq!(eff, Effect::Dispatch(IoEvent::Search(SearchEvent::Prev)));
    let (_, eff) = st.do_action(Key::Char('r'));
    assert_eq!(eff, Effect::Dispatch(IoEvent::Search(SearchEvent::Reload)));
    let (_, eff) = st.do_action(Key::Ctrl('l'));
    assert_eq!(eff, Effect::Dispatch(IoEvent::SearchLike));
    let (_, eff) = st.do_action(Key::Ctrl('r'));
    assert_eq!(eff, Effect::Dispatch(IoEvent::SearchRepost));
}

#[test]
fn search_paging_adopts_the_typed_query_when_none_is_remembered() {
    let mut st = active_with_timeline(1);
    // get to the Search tab without ever loading a search
    st.do_action(Key::Tab);
    st.do_action(Key::Tab);
    assert_eq!(st.get_tab(), Tab::Search);
    assert_eq!(st.get_search_query(), None);
    let (_, eff) = st.do_action(Key::Char('l'));
    assert_eq!(eff, Effect::Dispatch(IoEvent::Search(SearchEvent::Next)));
    assert_eq!(st.get_search_query(), Some(String::new()));
}

#[test]
fn reply_submit_targets_the_selected_post() {
    let mut st = active_with_timeline(3);
    st.do_action(Key::Char('j'));
    st.do_action(Key::Char('N'));
    st.do_action(Key::Char('y'));
    st.do_action(Key::Char('o'));
    let (_, eff) = st.do_action(Key::Enter);
    match eff {
        Effect::Dispatch(IoEvent::Reply(target)) => {
            assert_eq!(target.text, "yo");
            assert_eq!(target.cid, "cid1");
            assert_eq!(target.uri, "at://did:plc:alice/app.bsky.feed.post/p1");
        }
        other => panic!("expected a reply command, got {:?}", other),
    }
    assert_eq!(st.get_mode(), Mode::Normal);
    assert_eq!(st.get_input_value(), "");
}

#[test]
fn reply_on_the_search_tab_targets_the_search_selection() {
    let mut st = active();
    st.apply_search_fetch(
        SearchEvent::Load("cats".to_string()),
        vec![post(7)],
        Some("s1".to_string()),
    );
    let (_, eff) = st.do_action(Key::Char('N'));
    assert_eq!(eff, Effect::Nothing);
    assert_eq!(st.get_mode(), Mode::Reply);
    st.do_action(Key::Char('k'));
    let (_, eff) = st.do_action(Key::Enter);
    match eff {
        Effect::Dispatch(IoEvent::SearchReply(target)) => {
            assert_eq!(target.text, "k");
            assert_eq!(target.cid, "cid7");
        }
        other => panic!("expected a search reply command, got {:?}", other),
    }
    assert_eq!(st.get_mode(), Mode::Normal);
}

#[test]
fn keys_on_an_uninitialized_session_do_not_crash_or_mutate() {
    let mut st = AppState::Init;
    let (ret, eff) = st.do_action(Key::Char('j'));
    assert_eq!(ret, AppReturn::Continue);
    assert_eq!(eff, Effect::Nothing);
    assert_eq!(st, AppState::Init);
    let (ret, _) = st.do_action(Key::Esc);
    assert_eq!(ret, AppReturn::Exit);
    assert_eq!(st, AppState::Init);
}
