use bsky_tui::history::TokenHistory;

#[test]
fn fresh_history_has_one_entry() {
    let h = TokenHistory::new();
    assert_eq!(h.len(), 1);
    assert_eq!(h.position(), 0);
    assert_eq!(h.current_token(), None);
    assert_eq!(h.next_token(), None);
    assert_eq!(h.prev_token(), None);
    assert!(!h.can_advance());
}

#[test]
fn load_with_token_gives_two_entries_position_zero() {
    let mut h = TokenHistory::new();
    h.apply_load(Some("t1".to_string()));
    assert_eq!(h.len(), 2);
    assert_eq!(h.position(), 0);
    assert_eq!(h.current_token(), None);
    assert_eq!(h.next_token(), Some("t1".to_string()));
}

#[test]
fn load_without_token_gives_one_entry() {
    let mut h = TokenHistory::new();
    h.apply_load(None);
    assert_eq!(h.len(), 1);
    assert_eq!(h.position(), 0);
    assert!(!h.can_advance());
}

#[test]
fn load_resets_an_advanced_history() {
    let mut h = TokenHistory::new();
    h.apply_load(Some("t1".to_string()));
    h.apply_next(Some("t2".to_string()));
    h.apply_next(Some("t3".to_string()));
    assert_eq!(h.len(), 4);
    assert_eq!(h.position(), 2);
    h.apply_load(Some("fresh".to_string()));
    assert_eq!(h.len(), 2);
    assert_eq!(h.position(), 0);
    assert_eq!(h.next_token(), Some("fresh".to_string()));
}

#[test]
fn prev_at_position_zero_is_idempotent() {
    let mut h = TokenHistory::new();
    h.apply_load(Some("t1".to_string()));
    let before = h.clone();
    h.apply_prev();
    assert_eq!(h, before);
    h.apply_prev();
    assert_eq!(h, before);
}

#[test]
fn next_twice_from_zero_no_further_pages_gives_three_entries() {
    let mut h = TokenHistory::new();
    h.apply_load(Some("t1".to_string()));
    h.apply_next(Some("t2".to_string()));
    assert_eq!(h.position(), 1);
    assert_eq!(h.len(), 3);
    // the server signals the end of the list: nothing is appended
    h.apply_next(None);
    assert_eq!(h.position(), 2);
    assert_eq!(h.len(), 3);
    assert!(!h.can_advance());
}

#[test]
fn next_then_prev_restores_position_and_token() {
    let mut h = TokenHistory::new();
    h.apply_load(Some("t1".to_string()));
    let position_before = h.position();
    let token_before = h.current_token();
    h.apply_next(Some("t2".to_string()));
    assert_eq!(h.position(), position_before + 1);
    h.apply_prev();
    assert_eq!(h.position(), position_before);
    // the refetch after prev reuses exactly the token recorded for this page
    assert_eq!(h.current_token(), token_before);
}

#[test]
fn position_stays_in_bounds_across_a_long_walk() {
    let mut h = TokenHistory::new();
    h.apply_load(Some("t1".to_string()));
    for round in 0..6u32 {
        if h.can_advance() {
            let tok = if round % 2 == 0 { Some(format!("t{}", round + 2)) } else { None };
            h.apply_next(tok);
        } else {
            h.apply_prev();
        }
        assert!(h.position() < h.len());
    }
    for _ in 0..10 {
        h.apply_prev();
        assert!(h.position() < h.len());
    }
    assert_eq!(h.position(), 0);
}

#[test]
fn revisiting_known_ground_does_not_append() {
    let mut h = TokenHistory::new();
    h.apply_load(Some("t1".to_string()));
    h.apply_next(Some("t2".to_string()));
    h.apply_prev();
    let len_before = h.len();
    // moving forward over a page whose token is already recorded keeps the
    // history as it is, whatever the refetch returned
    h.apply_next(Some("t2-refetched".to_string()));
    assert_eq!(h.len(), len_before);
    assert_eq!(h.position(), 1);
    assert_eq!(h.next_token(), Some("t2".to_string()));
}
