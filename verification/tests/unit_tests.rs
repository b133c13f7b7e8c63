use bsky_tui::bsky::{get_url, toggle_like_plan, toggle_repost_plan, uri_to_rkey, ToggleAction};
use bsky_tui::config::{AppConfig, ConfigError};
use bsky_tui::keys::Key;
use bsky_tui::state::{Post, ViewerState};
use bsky_tui::text::InputBuffer;
use bsky_tui::utils::{get_duration_string, u64_to_string};

fn post_with_viewer(viewer: Option<ViewerState>) -> Post {
    Post {
        uri: "at://did:plc:alice/app.bsky.feed.post/3kpost".to_string(),
        cid: "cidpost".to_string(),
        author_handle: "alice.example".to_string(),
        author_display_name: None,
        text: "hello".to_string(),
        created_at: "2024-05-01T12:00:00Z".to_string(),
        reply_count: 1,
        repost_count: 2,
        like_count: 3,
        viewer,
    }
}

// --- configuration ---

#[test]
fn config_with_both_credentials_is_accepted() {
    let c = AppConfig::new("user@example.com".to_string(), "hunter2".to_string(), false);
    assert!(c.check_required_fields().is_ok());
    assert_eq!(c.email, "user@example.com");
    assert_eq!(c.password, "hunter2");
    assert!(!c.skip_splash);
}

#[test]
fn config_without_email_is_rejected() {
    let c = AppConfig::new(String::new(), "hunter2".to_string(), false);
    assert_eq!(c.check_required_fields(), Err(ConfigError::MissingEmail));
}

#[test]
fn config_without_password_is_rejected() {
    let c = AppConfig::new("user@example.com".to_string(), String::new(), false);
    assert_eq!(c.check_required_fields(), Err(ConfigError::MissingPassword));
}

#[test]
fn config_missing_email_is_reported_before_missing_password() {
    let c = AppConfig::new(String::new(), String::new(), true);
    assert_eq!(c.check_required_fields(), Err(ConfigError::MissingEmail));
}

// --- keys ---

#[test]
fn exit_keys_are_recognized() {
    assert!(Key::Ctrl('c').is_exit());
    assert!(Key::Char('q').is_exit());
    assert!(Key::Esc.is_exit());
    assert!(!Key::Char('x').is_exit());
    assert!(!Key::Ctrl('q').is_exit());
    assert!(!Key::Enter.is_exit());
}

#[test]
fn function_keys_come_from_their_number() {
    assert_eq!(Key::from_f(0), Key::F0);
    assert_eq!(Key::from_f(1), Key::F1);
    assert_eq!(Key::from_f(5), Key::F5);
    assert_eq!(Key::from_f(12), Key::F12);
}

// --- input buffer ---

#[test]
fn input_buffer_inserts_at_the_caret() {
    let mut b = InputBuffer::new();
    b.insert_char('a');
    b.insert_char('c');
    b.caret_prev();
    b.insert_char('b');
    assert_eq!(b.value(), "abc");
    assert_eq!(b.caret(), 2);
    assert_eq!(b.len(), 3);
}

#[test]
fn input_buffer_caret_counts_characters_not_bytes() {
    let mut b = InputBuffer::new();
    b.insert_char('猫');
    b.insert_char('é');
    b.insert_char('!');
    assert_eq!(b.len(), 3);
    assert_eq!(b.caret(), 3);
    b.caret_prev();
    b.caret_prev();
    b.delete_prev();
    assert_eq!(b.value(), "é!");
    assert_eq!(b.caret(), 0);
}

#[test]
fn input_buffer_edges_are_no_ops() {
    let mut b = InputBuffer::new();
    b.caret_prev();
    b.delete_prev();
    assert_eq!(b.value(), "");
    assert_eq!(b.caret(), 0);
    b.insert_char('x');
    b.caret_next();
    assert_eq!(b.caret(), 1);
    b.caret_start();
    assert_eq!(b.caret(), 0);
    b.caret_end();
    assert_eq!(b.caret(), 1);
    b.clear();
    assert_eq!(b.value(), "");
    assert_eq!(b.len(), 0);
}

// --- record keys and addresses ---

#[test]
fn uri_to_rkey_takes_the_last_segment() {
    assert_eq!(
        uri_to_rkey("at://did:plc:alice/app.bsky.feed.post/3k2a".to_string()),
        Some("3k2a".to_string())
    );
    assert_eq!(uri_to_rkey("plain".to_string()), Some("plain".to_string()));
    assert_eq!(uri_to_rkey("trailing/".to_string()), Some(String::new()));
    assert_eq!(uri_to_rkey(String::new()), Some(String::new()));
}

#[test]
fn get_url_builds_the_profile_address() {
    assert_eq!(
        get_url(
            "alice.example".to_string(),
            "at://did:plc:alice/app.bsky.feed.post/3k2a".to_string()
        ),
        Some("https://bsky.app/profile/alice.example/post/3k2a".to_string())
    );
}

// --- like and repost toggles ---

#[test]
fn liking_an_already_liked_post_deletes_the_like() {
    let p = post_with_viewer(Some(ViewerState {
        like: Some("at://did:plc:alice/app.bsky.feed.like/3klike".to_string()),
        repost: None,
    }));
    assert_eq!(toggle_like_plan(&p), ToggleAction::Delete { rkey: "3klike".to_string() });
}

#[test]
fn liking_an_unliked_post_creates_a_like() {
    let p = post_with_viewer(Some(ViewerState { like: None, repost: None }));
    assert_eq!(
        toggle_like_plan(&p),
        ToggleAction::Create {
            cid: "cidpost".to_string(),
            uri: "at://did:plc:alice/app.bsky.feed.post/3kpost".to_string(),
        }
    );
}

#[test]
fn toggling_without_viewer_state_does_nothing() {
    let p = post_with_viewer(None);
    assert_eq!(toggle_like_plan(&p), ToggleAction::Skip);
    assert_eq!(toggle_repost_plan(&p), ToggleAction::Skip);
}

#[test]
fn reposting_an_already_reposted_post_deletes_the_repost() {
    let p = post_with_viewer(Some(ViewerState {
        like: None,
        repost: Some("at://did:plc:alice/app.bsky.feed.repost/3krep".to_string()),
    }));
    assert_eq!(toggle_repost_plan(&p), ToggleAction::Delete { rkey: "3krep".to_string() });
}

#[test]
fn reposting_an_unreposted_post_creates_a_repost() {
    let p = post_with_viewer(Some(ViewerState {
        like: Some("at://did:plc:alice/app.bsky.feed.like/3klike".to_string()),
        repost: None,
    }));
    assert_eq!(
        toggle_repost_plan(&p),
        ToggleAction::Create {
            cid: "cidpost".to_string(),
            uri: "at://did:plc:alice/app.bsky.feed.post/3kpost".to_string(),
        }
    );
}

// --- duration labels ---

#[test]
fn decimal_writing_is_exact() {
    assert_eq!(u64_to_string(0), "0");
    assert_eq!(u64_to_string(7), "7");
    assert_eq!(u64_to_string(10), "10");
    assert_eq!(u64_to_string(409), "409");
    assert_eq!(u64_to_string(1000000), "1000000");
    assert_eq!(u64_to_string(u64::MAX), "18446744073709551615");
}

#[test]
fn duration_labels_pick_the_largest_whole_unit() {
    assert_eq!(get_duration_string(0), "0ms");
    assert_eq!(get_duration_string(999), "999ms");
    assert_eq!(get_duration_string(1000), "1s");
    assert_eq!(get_duration_string(59999), "59s");
    assert_eq!(get_duration_string(60000), "1m");
    assert_eq!(get_duration_string(3600000), "1h");
    assert_eq!(get_duration_string(86400000), "1d");
    assert_eq!(get_duration_string(604800000), "1w");
    assert_eq!(get_duration_string(3 * 604800000), "3w");
    assert_eq!(get_duration_string(12 * 604800000), "12w");
}

#[test]
fn negative_durations_keep_their_sign() {
    assert_eq!(get_duration_string(-1), "-1ms");
    assert_eq!(get_duration_string(-90000), "-1m");
    assert_eq!(get_duration_string(-604800000), "-1w");
}
