//! The action dispatcher: what one logical key means in the current mode and
//! tab.
//!
//! Every handler either mutates the session locally (mode and tab changes,
//! selection movement, text edits) or asks its caller for one side effect: a
//! command for the worker queue, or opening a post in the browser. A key
//! with no meaning in the current mode and tab leaves the session exactly as
//! it was; a guard that fails (no selection, empty query) suppresses the
//! action instead of erring.
//!
//! Each handler's whole behaviour is written down as a spec predicate over
//! the session before and after, the key, and what the handler returned;
//! `do_action` promises the predicate of whichever handler the current mode
//! and tab select.

use vstd::prelude::*;

use crate::bsky::get_url;
use crate::bsky::url_view;
use crate::io::IoEvent;
use crate::io::ReplyTarget;
use crate::io::SearchEvent;
use crate::io::TimelineEvent;
use crate::keys::spec_is_exit;
use crate::keys::Key;
use crate::state::next_tab;
use crate::state::scroll_down_pos;
use crate::state::scroll_up_pos;
use crate::state::sel_item;
use crate::state::AppState;
use crate::state::Mode;
use crate::state::Post;
use crate::state::Session;
use crate::state::Tab;
use crate::text::InputBuffer;

verus! {

#[derive(Debug, Clone, Copy, PartialEq, Eq, Structural)]
pub enum AppReturn {
    Exit,
    Continue,
}

/// The one side effect a key handler may ask its caller to perform.
#[derive(Debug, Clone, PartialEq, Eq)]
pub enum Effect {
    Nothing,
    Dispatch(IoEvent),
    OpenUrl(String),
}

// --- key classes ---

pub open spec fn is_down_key(k: Key) -> bool {
    k == Key::Down || k == Key::Char('j') || k == Key::Ctrl('n')
}

pub open spec fn is_up_key(k: Key) -> bool {
    k == Key::Up || k == Key::Char('k') || k == Key::Ctrl('p')
}

pub open spec fn is_prev_page_key(k: Key) -> bool {
    k == Key::Char('h') || k == Key::Left
}

pub open spec fn is_next_page_key(k: Key) -> bool {
    k == Key::Char('l') || k == Key::Right
}

/// The keys the Home tab answers in `Normal` mode.
pub open spec fn timeline_key_defined(k: Key) -> bool {
    ||| spec_is_exit(k)
    ||| k == Key::Char('r')
    ||| k == Key::Char('n')
    ||| k == Key::Char('N')
    ||| k == Key::Ctrl('r')
    ||| k == Key::Ctrl('l')
    ||| k == Key::Char('?')
    ||| k == Key::Char('/')
    ||| is_down_key(k)
    ||| is_up_key(k)
    ||| k == Key::Enter
    ||| k == Key::Tab
    ||| is_prev_page_key(k)
    ||| is_next_page_key(k)
}

/// The keys the Notifications tab answers in `Normal` mode: reload and
/// navigation only.
pub open spec fn notifications_key_defined(k: Key) -> bool {
    ||| spec_is_exit(k)
    ||| k == Key::Char('r')
    ||| k == Key::Char('?')
    ||| k == Key::Char('/')
    ||| is_down_key(k)
    ||| is_up_key(k)
    ||| k == Key::Tab
}

/// The keys the Search tab answers in `Normal` mode.
pub open spec fn search_key_defined(k: Key) -> bool {
    ||| spec_is_exit(k)
    ||| k == Key::Char('r')
    ||| k == Key::Char('N')
    ||| k == Key::Ctrl('r')
    ||| k == Key::Ctrl('l')
    ||| k == Key::Char('?')
    ||| k == Key::Char('/')
    ||| is_down_key(k)
    ||| is_up_key(k)
    ||| k == Key::Enter
    ||| k == Key::Tab
    ||| is_prev_page_key(k)
    ||| is_next_page_key(k)
}

/// The keys every text-entry mode answers: caret movement, edits, cancel and
/// submit.
pub open spec fn input_key_defined(k: Key) -> bool {
    ||| k == Key::Esc
    ||| k == Key::Enter
    ||| k == Key::Left
    ||| k == Key::Ctrl('b')
    ||| k == Key::Right
    ||| k == Key::Ctrl('f')
    ||| k == Key::Ctrl('a')
    ||| k == Key::Ctrl('e')
    ||| k matches Key::Char(_)
    ||| k == Key::Backspace
    ||| k == Key::Ctrl('h')
}

/// The keys the help overlay answers: the ones that put it away.
pub open spec fn help_key_defined(k: Key) -> bool {
    k == Key::Char('q') || k == Key::Esc || k == Key::Char('?')
}

/// Whether a key means anything at all in the given mode and tab.
pub open spec fn key_defined(mode: Mode, tab: Tab, k: Key) -> bool {
    match mode {
        Mode::Normal => match tab {
            Tab::Home => timeline_key_defined(k),
            Tab::Notifications => notifications_key_defined(k),
            Tab::Search => search_key_defined(k),
        },
        Mode::Post => input_key_defined(k),
        Mode::Reply => input_key_defined(k),
        Mode::Search => input_key_defined(k),
        Mode::Help => help_key_defined(k),
    }
}

/// The mode keys are interpreted in; an uninitialized session is treated as
/// `Normal`.
pub open spec fn mode_of(st: AppState) -> Mode {
    if st is Initialized {
        st.sess().mode
    } else {
        Mode::Normal
    }
}

/// The tab keys are interpreted on; an uninitialized session is treated as
/// `Home`.
pub open spec fn tab_of(st: AppState) -> Tab {
    if st is Initialized {
        st.sess().tab
    } else {
        Tab::Home
    }
}

/// The command a tab switch triggers for the newly active tab: the Home
/// timeline and the notifications reload themselves, Search waits for a
/// query.
pub open spec fn tab_load_effect(t: Tab) -> Effect {
    match t {
        Tab::Home => Effect::Dispatch(IoEvent::LoadTimeline(TimelineEvent::Reload)),
        Tab::Notifications => Effect::Dispatch(IoEvent::LoadNotifications),
        Tab::Search => Effect::Nothing,
    }
}

/// One mode switch: only the mode moves, and the input buffer empties
/// exactly where the switch says so.
pub open spec fn mode_changed(pre: AppState, post: AppState, m: Mode, input_cleared: bool) -> bool {
    &&& (pre is Init ==> post == pre)
    &&& (pre is Initialized ==> if input_cleared {
        post == AppState::Initialized(Session { mode: m, input: post.sess().input, ..pre.sess() })
            && post.sess().input.is_empty_view()
    } else {
        post == AppState::Initialized(Session { mode: m, ..pre.sess() })
    })
}

/// Switching to the next tab: only the tab moves, and the matching load
/// command is requested.
pub open spec fn tab_switched(pre: AppState, post: AppState, eff: Effect) -> bool {
    &&& (pre is Init ==> post == pre && eff == Effect::Dispatch(
        IoEvent::LoadTimeline(TimelineEvent::Reload),
    ))
    &&& (pre is Initialized ==> post == AppState::Initialized(
        Session { tab: next_tab(pre.sess().tab), ..pre.sess() },
    ) && eff == tab_load_effect(next_tab(pre.sess().tab)))
}

/// Opening the selected item of `list` in the browser: the effect carries
/// the item's address, or nothing without a selection.
pub open spec fn open_selected(list: Option<Vec<Post>>, position: int, eff: Effect) -> bool {
    match sel_item(list, position) {
        Some(p) => eff matches Effect::OpenUrl(u) && u@ == url_view(p.author_handle@, p.uri@),
        None => eff == Effect::Nothing,
    }
}

/// Everything keys on the Home tab do in `Normal` mode.
pub open spec fn timeline_action_spec(
    pre: AppState,
    post: AppState,
    key: Key,
    ret: AppReturn,
    eff: Effect,
) -> bool {
    &&& ret == if spec_is_exit(key) {
        AppReturn::Exit
    } else {
        AppReturn::Continue
    }
    &&& (spec_is_exit(key) ==> post == pre && eff == Effect::Nothing)
    &&& (key == Key::Char('r') ==> post == pre && eff == Effect::Dispatch(
        IoEvent::LoadTimeline(TimelineEvent::Reload),
    ))
    &&& (key == Key::Char('n') ==> eff == Effect::Nothing && mode_changed(
        pre,
        post,
        Mode::Post,
        true,
    ))
    &&& (key == Key::Char('N') ==> eff == Effect::Nothing && (pre is Init ==> post == pre) && (
    pre is Initialized ==> (sel_item(pre.sess().timeline, pre.sess().tl_list_position as int)
        is Some ==> mode_changed(pre, post, Mode::Reply, true)) && (sel_item(
        pre.sess().timeline,
        pre.sess().tl_list_position as int,
    ) is None ==> post == pre)))
    &&& (key == Key::Ctrl('r') ==> post == pre && eff == Effect::Dispatch(IoEvent::Repost))
    &&& (key == Key::Ctrl('l') ==> post == pre && eff == Effect::Dispatch(IoEvent::Like))
    &&& (key == Key::Char('?') ==> eff == Effect::Nothing && mode_changed(
        pre,
        post,
        Mode::Help,
        false,
    ))
    &&& (key == Key::Char('/') ==> eff == Effect::Nothing && mode_changed(
        pre,
        post,
        Mode::Search,
        true,
    ))
    &&& (is_down_key(key) ==> eff == Effect::Nothing && (pre is Init ==> post == pre) && (pre
        is Initialized ==> post == AppState::Initialized(
        Session { tl_list_position: post.sess().tl_list_position, ..pre.sess() },
    ) && post.sess().tl_list_position as int == scroll_down_pos(
        pre.sess().timeline,
        pre.sess().tl_list_position as int,
    )))
    &&& (is_up_key(key) ==> eff == Effect::Nothing && (pre is Init ==> post == pre) && (pre
        is Initialized ==> post == AppState::Initialized(
        Session { tl_list_position: post.sess().tl_list_position, ..pre.sess() },
    ) && post.sess().tl_list_position as int == scroll_up_pos(
        pre.sess().tl_list_position as int,
    )))
    &&& (key == Key::Enter ==> post == pre && (pre is Init ==> eff == Effect::Nothing) && (pre
        is Initialized ==> open_selected(
        pre.sess().timeline,
        pre.sess().tl_list_position as int,
        eff,
    )))
    &&& (key == Key::Tab ==> tab_switched(pre, post, eff))
    &&& (is_prev_page_key(key) ==> post == pre && eff == Effect::Dispatch(
        IoEvent::LoadTimeline(TimelineEvent::Prev),
    ))
    &&& (is_next_page_key(key) ==> post == pre && eff == Effect::Dispatch(
        IoEvent::LoadTimeline(TimelineEvent::Next),
    ))
    &&& (!timeline_key_defined(key) ==> post == pre && eff == Effect::Nothing)
}

/// Everything keys on the Notifications tab do in `Normal` mode.
pub open spec fn notifications_action_spec(
    pre: AppState,
    post: AppState,
    key: Key,
    ret: AppReturn,
    eff: Effect,
) -> bool {
    &&& ret == if spec_is_exit(key) {
        AppReturn::Exit
    } else {
        AppReturn::Continue
    }
    &&& (spec_is_exit(key) ==> post == pre && eff == Effect::Nothing)
    &&& (key == Key::Char('r') ==> post == pre && eff == Effect::Dispatch(
        IoEvent::LoadNotifications,
    ))
    &&& (key == Key::Char('?') ==> eff == Effect::Nothing && mode_changed(
        pre,
        post,
        Mode::Help,
        false,
    ))
    &&& (key == Key::Char('/') ==> eff == Effect::Nothing && mode_changed(
        pre,
        post,
        Mode::Search,
        true,
    ))
    &&& (is_down_key(key) ==> eff == Effect::Nothing && (pre is Init ==> post == pre) && (pre
        is Initialized ==> post == AppState::Initialized(
        Session {
            notifications_list_position: post.sess().notifications_list_position,
            ..pre.sess()
        },
    ) && post.sess().notifications_list_position as int == scroll_down_pos(
        pre.sess().notifications,
        pre.sess().notifications_list_position as int,
    )))
    &&& (is_up_key(key) ==> eff == Effect::Nothing && (pre is Init ==> post == pre) && (pre
        is Initialized ==> post == AppState::Initialized(
        Session {
            notifications_list_position: post.sess().notifications_list_position,
            ..pre.sess()
        },
    ) && post.sess().notifications_list_position as int == scroll_up_pos(
        pre.sess().notifications_list_position as int,
    )))
    &&& (key == Key::Tab ==> tab_switched(pre, post, eff))
    &&& (!notifications_key_defined(key) ==> post == pre && eff == Effect::Nothing)
}

/// Everything keys on the Search tab do in `Normal` mode.
pub open spec fn search_action_spec(
    pre: AppState,
    post: AppState,
    key: Key,
    ret: AppReturn,
    eff: Effect,
) -> bool {
    &&& ret == if spec_is_exit(key) {
        AppReturn::Exit
    } else {
        AppReturn::Continue
    }
    &&& (spec_is_exit(key) ==> post == pre && eff == Effect::Nothing)
    &&& (key == Key::Char('r') ==> post == pre && eff == Effect::Dispatch(
        IoEvent::Search(SearchEvent::Reload),
    ))
    &&& (key == Key::Char('N') ==> eff == Effect::Nothing && (pre is Init ==> post == pre) && (
    pre is Initialized ==> (sel_item(
        pre.sess().search_results,
        pre.sess().search_list_position as int,
    ) is Some ==> post == AppState::Initialized(
        Session { tab: Tab::Search, mode: Mode::Reply, input: post.sess().input, ..pre.sess() },
    ) && post.sess().input.is_empty_view()) && (sel_item(
        pre.sess().search_results,
        pre.sess().search_list_position as int,
    ) is None ==> post == pre)))
    &&& (key == Key::Ctrl('r') ==> post == pre && eff == Effect::Dispatch(IoEvent::SearchRepost))
    &&& (key == Key::Ctrl('l') ==> post == pre && eff == Effect::Dispatch(IoEvent::SearchLike))
    &&& (key == Key::Char('?') ==> eff == Effect::Nothing && mode_changed(
        pre,
        post,
        Mode::Help,
        false,
    ))
    &&& (key == Key::Char('/') ==> eff == Effect::Nothing && mode_changed(
        pre,
        post,
        Mode::Search,
        true,
    ))
    &&& (is_down_key(key) ==> eff == Effect::Nothing && (pre is Init ==> post == pre) && (pre
        is Initialized ==> post == AppState::Initialized(
        Session { search_list_position: post.sess().search_list_position, ..pre.sess() },
    ) && post.sess().search_list_position as int == scroll_down_pos(
        pre.sess().search_results,
        pre.sess().search_list_position as int,
    )))
    &&& (is_up_key(key) ==> eff == Effect::Nothing && (pre is Init ==> post == pre) && (pre
        is Initialized ==> post == AppState::Initialized(
        Session { search_list_position: post.sess().search_list_position, ..pre.sess() },
    ) && post.sess().search_list_position as int == scroll_up_pos(
        pre.sess().search_list_position as int,
    )))
    &&& (key == Key::Enter ==> post == pre && (pre is Init ==> eff == Effect::Nothing) && (pre
        is Initialized ==> open_selected(
        pre.sess().search_results,
        pre.sess().search_list_position as int,
        eff,
    )))
    &&& (key == Key::Tab ==> tab_switched(pre, post, eff))
    &&& (is_prev_page_key(key) ==> eff == Effect::Dispatch(IoEvent::Search(SearchEvent::Prev))
        && query_captured(pre, post))
    &&& (is_next_page_key(key) ==> eff == Effect::Dispatch(IoEvent::Search(SearchEvent::Next))
        && query_captured(pre, post))
    &&& (!search_key_defined(key) ==> post == pre && eff == Effect::Nothing)
}

/// The edit keys of the text-entry modes: everything they answer except
/// cancel and submit.
pub open spec fn is_edit_key(k: Key) -> bool {
    input_key_defined(k) && k != Key::Esc && k != Key::Enter
}

/// How one edit key changes the input buffer.
pub open spec fn input_edit_view(b0: InputBuffer, b1: InputBuffer, k: Key) -> bool {
    if k == Key::Left || k == Key::Ctrl('b') {
        b1.text_view() == b0.text_view() && b1.caret_view() == scroll_up_pos(b0.caret_view())
    } else if k == Key::Right || k == Key::Ctrl('f') {
        b1.text_view() == b0.text_view() && b1.caret_view() == if b0.caret_view()
            == b0.text_view().len() as int {
            b0.caret_view()
        } else {
            b0.caret_view() + 1
        }
    } else if k == Key::Ctrl('a') {
        b1.text_view() == b0.text_view() && b1.caret_view() == 0
    } else if k == Key::Ctrl('e') {
        b1.text_view() == b0.text_view() && b1.caret_view() == b0.text_view().len() as int
    } else if k == Key::Backspace || k == Key::Ctrl('h') {
        if b0.caret_view() == 0 {
            b1 == b0
        } else {
            b1.text_view() == b0.text_view().remove(b0.caret_view() - 1) && b1.caret_view()
                == b0.caret_view() - 1
        }
    } else if k matches Key::Char(_) {
        k matches Key::Char(c) && b1.text_view() == b0.text_view().insert(b0.caret_view(), c)
            && b1.caret_view() == b0.caret_view() + 1
    } else {
        true
    }
}

/// What an edit key does to the whole session: only the input buffer moves.
pub open spec fn input_edit_applies(pre: AppState, post: AppState, k: Key) -> bool {
    &&& (pre is Init ==> post == pre)
    &&& (pre is Initialized ==> post == AppState::Initialized(
        Session { input: post.sess().input, ..pre.sess() },
    ) && input_edit_view(pre.sess().input, post.sess().input, k))
}

/// Everything keys do while composing a new post.
pub open spec fn post_action_spec(
    pre: AppState,
    post: AppState,
    key: Key,
    ret: AppReturn,
    eff: Effect,
) -> bool {
    &&& ret == AppReturn::Continue
    &&& (key == Key::Esc ==> eff == Effect::Nothing && mode_changed(pre, post, Mode::Normal, true))
    &&& (key == Key::Enter ==> (eff matches Effect::Dispatch(ev) && (ev matches IoEvent::SendPost(
        t,
    ) && (pre is Initialized ==> t@ == pre.sess().input.text_view()) && (pre is Init ==> t@
        == Seq::<char>::empty()))) && mode_changed(pre, post, Mode::Normal, true))
    &&& (is_edit_key(key) ==> eff == Effect::Nothing && input_edit_applies(pre, post, key))
    &&& (!input_key_defined(key) ==> post == pre && eff == Effect::Nothing)
}

/// Everything keys do while composing a reply to the selected post.
pub open spec fn reply_action_spec(
    pre: AppState,
    post: AppState,
    key: Key,
    ret: AppReturn,
    eff: Effect,
) -> bool {
    &&& ret == AppReturn::Continue
    &&& (key == Key::Esc ==> eff == Effect::Nothing && mode_changed(pre, post, Mode::Normal, true))
    &&& (key == Key::Enter && pre is Init ==> post == pre && eff == Effect::Nothing)
    &&& (key == Key::Enter && pre is Initialized ==> ({
        let sel = if pre.sess().tab == Tab::Search {
            sel_item(pre.sess().search_results, pre.sess().search_list_position as int)
        } else {
            sel_item(pre.sess().timeline, pre.sess().tl_list_position as int)
        };
        &&& (sel is None ==> post == pre && eff == Effect::Nothing)
        &&& (sel matches Some(p) ==> mode_changed(pre, post, Mode::Normal, true) && (eff matches
            Effect::Dispatch(ev) && (pre.sess().tab == Tab::Search ==> (ev matches
            IoEvent::SearchReply(tgt) && tgt.cid == p.cid && tgt.uri == p.uri && tgt.text@
            == pre.sess().input.text_view())) && (pre.sess().tab != Tab::Search ==> (ev matches
            IoEvent::Reply(tgt) && tgt.cid == p.cid && tgt.uri == p.uri && tgt.text@
            == pre.sess().input.text_view()))))
    }))
    &&& (is_edit_key(key) ==> eff == Effect::Nothing && input_edit_applies(pre, post, key))
    &&& (!input_key_defined(key) ==> post == pre && eff == Effect::Nothing)
}

/// Everything keys do while typing a search query.
pub open spec fn search_input_action_spec(
    pre: AppState,
    post: AppState,
    key: Key,
    ret: AppReturn,
    eff: Effect,
) -> bool {
    &&& ret == AppReturn::Continue
    &&& (key == Key::Esc ==> eff == Effect::Nothing && mode_changed(pre, post, Mode::Normal, true))
    &&& (key == Key::Enter && pre is Init ==> post == pre && eff == Effect::Nothing)
    &&& (key == Key::Enter && pre is Initialized ==> (pre.sess().input.text_view().len() == 0
        ==> post == pre && eff == Effect::Nothing) && (pre.sess().input.text_view().len() > 0
        ==> post == AppState::Initialized(
        Session {
            mode: Mode::Normal,
            tab: Tab::Search,
            search_query: post.sess().search_query,
            input: post.sess().input,
            ..pre.sess()
        },
    ) && post.sess().input.is_empty_view() && (post.sess().search_query matches Some(q) && q@
        == pre.sess().input.text_view()) && (eff matches Effect::Dispatch(ev) && (ev matches
        IoEvent::Search(se) && (se matches SearchEvent::Load(q2) && q2@
        == pre.sess().input.text_view())))))
    &&& (is_edit_key(key) ==> eff == Effect::Nothing && input_edit_applies(pre, post, key))
    &&& (!input_key_defined(key) ==> post == pre && eff == Effect::Nothing)
}

/// Everything keys do while the help overlay is up: it returns to `Normal`
/// only.
pub open spec fn help_action_spec(
    pre: AppState,
    post: AppState,
    key: Key,
    ret: AppReturn,
    eff: Effect,
) -> bool {
    &&& ret == AppReturn::Continue
    &&& eff == Effect::Nothing
    &&& (help_key_defined(key) ==> mode_changed(pre, post, Mode::Normal, false))
    &&& (!help_key_defined(key) ==> post == pre)
}

/// Paging the search results adopts the input buffer as the query when none
/// is remembered yet, and otherwise leaves the session as it was.
pub open spec fn query_captured(pre: AppState, post: AppState) -> bool {
    &&& (pre is Init ==> post == pre)
    &&& (pre is Initialized ==> (pre.sess().search_query is Some ==> post == pre) && (
    pre.sess().search_query is None ==> (post == AppState::Initialized(
        Session { search_query: post.sess().search_query, ..pre.sess() },
    ) && (post.sess().search_query matches Some(q) && q@ == pre.sess().input.text_view()))))
}

/// The spec of whichever handler the current mode and tab select.
pub open spec fn do_action_spec(
    pre: AppState,
    post: AppState,
    key: Key,
    ret: AppReturn,
    eff: Effect,
) -> bool {
    match mode_of(pre) {
        Mode::Normal => match tab_of(pre) {
            Tab::Home => timeline_action_spec(pre, post, key, ret, eff),
            Tab::Notifications => notifications_action_spec(pre, post, key, ret, eff),
            Tab::Search => search_action_spec(pre, post, key, ret, eff),
        },
        Mode::Post => post_action_spec(pre, post, key, ret, eff),
        Mode::Reply => reply_action_spec(pre, post, key, ret, eff),
        Mode::Search => search_input_action_spec(pre, post, key, ret, eff),
        Mode::Help => help_action_spec(pre, post, key, ret, eff),
    }
}

impl AppState {
    /// Keys on the Home tab in `Normal` mode.
    pub fn timeline_action(&mut self, key: Key) -> (r: (AppReturn, Effect))
        requires
            old(self).wf(),
        ensures
            final(self).wf(),
            timeline_action_spec(*old(self), *final(self), key, r.0, r.1),
    {
        match key {
            Key::Char('q') | Key::Esc | Key::Ctrl('c') => (AppReturn::Exit, Effect::Nothing),
            Key::Char('r') => (
                AppReturn::Continue,
                Effect::Dispatch(IoEvent::LoadTimeline(TimelineEvent::Reload)),
            ),
            Key::Char('n') => {
                self.set_mode(Mode::Post);
                self.set_input(InputBuffer::new());
                (AppReturn::Continue, Effect::Nothing)
            },
            Key::Char('N') => {
                let has_selection = self.get_current_feed().is_some();
                if has_selection {
                    self.set_mode(Mode::Reply);
                    self.set_input(InputBuffer::new());
                }
                (AppReturn::Continue, Effect::Nothing)
            },
            Key::Ctrl('r') => (AppReturn::Continue, Effect::Dispatch(IoEvent::Repost)),
            Key::Ctrl('l') => (AppReturn::Continue, Effect::Dispatch(IoEvent::Like)),
            Key::Char('?') => {
                self.set_mode(Mode::Help);
                (AppReturn::Continue, Effect::Nothing)
            },
            Key::Char('/') => {
                self.set_mode(Mode::Search);
                self.set_input(InputBuffer::new());
                (AppReturn::Continue, Effect::Nothing)
            },
            Key::Down | Key::Char('j') | Key::Ctrl('n') => {
                self.move_tl_scroll_down();
                (AppReturn::Continue, Effect::Nothing)
            },
            Key::Up | Key::Char('k') | Key::Ctrl('p') => {
                self.move_tl_scroll_up();
                (AppReturn::Continue, Effect::Nothing)
            },
            Key::Enter => {
                match self.get_current_feed() {
                    Some(p) => match get_url(p.author_handle.clone(), p.uri.clone()) {
                        Some(u) => (AppReturn::Continue, Effect::OpenUrl(u)),
                        None => (AppReturn::Continue, Effect::Nothing),
                    },
                    None => (AppReturn::Continue, Effect::Nothing),
                }
            },
            Key::Tab => {
                self.set_next_tab();
                let eff = match self.get_tab() {
                    Tab::Home => Effect::Dispatch(IoEvent::LoadTimeline(TimelineEvent::Reload)),
                    Tab::Notifications => Effect::Dispatch(IoEvent::LoadNotifications),
                    Tab::Search => Effect::Nothing,
                };
                (AppReturn::Continue, eff)
            },
            Key::Char('h') | Key::Left => (
                AppReturn::Continue,
                Effect::Dispatch(IoEvent::LoadTimeline(TimelineEvent::Prev)),
            ),
            Key::Char('l') | Key::Right => (
                AppReturn::Continue,
                Effect::Dispatch(IoEvent::LoadTimeline(TimelineEvent::Next)),
            ),
            _ => (AppReturn::Continue, Effect::Nothing),
        }
    }

    /// Keys on the Notifications tab in `Normal` mode: reload and navigation
    /// only.
    pub fn notifications_action(&mut self, key: Key) -> (r: (AppReturn, Effect))
        requires
            old(self).wf(),
        ensures
            final(self).wf(),
            notifications_action_spec(*old(self), *final(self), key, r.0, r.1),
    {
        match key {
            Key::Char('q') | Key::Esc | Key::Ctrl('c') => (AppReturn::Exit, Effect::Nothing),
            Key::Char('r') => (AppReturn::Continue, Effect::Dispatch(IoEvent::LoadNotifications)),
            Key::Char('?') => {
                self.set_mode(Mode::Help);
                (AppReturn::Continue, Effect::Nothing)
            },
            Key::Char('/') => {
                self.set_mode(Mode::Search);
                self.set_input(InputBuffer::new());
                (AppReturn::Continue, Effect::Nothing)
            },
            Key::Down | Key::Char('j') | Key::Ctrl('n') => {
                self.move_notifications_scroll_down();
                (AppReturn::Continue, Effect::Nothing)
            },
            Key::Up | Key::Char('k') | Key::Ctrl('p') => {
                self.move_notifications_scroll_up();
                (AppReturn::Continue, Effect::Nothing)
            },
            Key::Tab => {
                self.set_next_tab();
                let eff = match self.get_tab() {
                    Tab::Home => Effect::Dispatch(IoEvent::LoadTimeline(TimelineEvent::Reload)),
                    Tab::Notifications => Effect::Dispatch(IoEvent::LoadNotifications),
                    Tab::Search => Effect::Nothing,
                };
                (AppReturn::Continue, eff)
            },
            _ => (AppReturn::Continue, Effect::Nothing),
        }
    }

    /// Keys on the Search tab in `Normal` mode.
    pub fn search_action(&mut self, key: Key) -> (r: (AppReturn, Effect))
        requires
            old(self).wf(),
        ensures
            final(self).wf(),
            search_action_spec(*old(self), *final(self), key, r.0, r.1),
    {
        match key {
            Key::Char('q') | Key::Esc | Key::Ctrl('c') => (AppReturn::Exit, Effect::Nothing),
            Key::Char('r') => (
                AppReturn::Continue,
                Effect::Dispatch(IoEvent::Search(SearchEvent::Reload)),
            ),
            Key::Char('N') => {
                let has_selection = self.get_current_search_result().is_some();
                if has_selection {
                    self.set_tab(Tab::Search);
                    self.set_mode(Mode::Reply);
                    self.set_input(InputBuffer::new());
                }
                (AppReturn::Continue, Effect::Nothing)
            },
            Key::Ctrl('r') => (AppReturn::Continue, Effect::Dispatch(IoEvent::SearchRepost)),
            Key::Ctrl('l') => (AppReturn::Continue, Effect::Dispatch(IoEvent::SearchLike)),
            Key::Char('?') => {
                self.set_mode(Mode::Help);
                (AppReturn::Continue, Effect::Nothing)
            },
            Key::Char('/') => {
                self.set_mode(Mode::Search);
                self.set_input(InputBuffer::new());
                (AppReturn::Continue, Effect::Nothing)
            },
            Key::Down | Key::Char('j') | Key::Ctrl('n') => {
                self.move_search_scroll_down();
                (AppReturn::Continue, Effect::Nothing)
            },
            Key::Up | Key::Char('k') | Key::Ctrl('p') => {
                self.move_search_scroll_up();
                (AppReturn::Continue, Effect::Nothing)
            },
            Key::Enter => {
                match self.get_current_search_result() {
                    Some(p) => match get_url(p.author_handle.clone(), p.uri.clone()) {
                        Some(u) => (AppReturn::Continue, Effect::OpenUrl(u)),
                        None => (AppReturn::Continue, Effect::Nothing),
                    },
                    None => (AppReturn::Continue, Effect::Nothing),
                }
            },
            Key::Tab => {
                self.set_next_tab();
                let eff = match self.get_tab() {
                    Tab::Home => Effect::Dispatch(IoEvent::LoadTimeline(TimelineEvent::Reload)),
                    Tab::Notifications => Effect::Dispatch(IoEvent::LoadNotifications),
                    Tab::Search => Effect::Nothing,
                };
                (AppReturn::Continue, eff)
            },
            Key::Char('h') | Key::Left => {
                self.capture_query_from_input();
                (AppReturn::Continue, Effect::Dispatch(IoEvent::Search(SearchEvent::Prev)))
            },
            Key::Char('l') | Key::Right => {
                self.capture_query_from_input();
                (AppReturn::Continue, Effect::Dispatch(IoEvent::Search(SearchEvent::Next)))
            },
            _ => (AppReturn::Continue, Effect::Nothing),
        }
    }

    /// When no query is remembered yet, adopt whatever the input buffer
    /// holds, so paging the search results has a query to page with.
    fn capture_query_from_input(&mut self)
        requires
            old(self).wf(),
        ensures
            final(self).wf(),
            query_captured(*old(self), *final(self)),
    {
        match self.get_search_query() {
            Some(_) => {},
            None => {
                let query = self.get_input_value();
                self.set_search_query(Some(query));
            },
        }
    }

    /// Apply one edit key to the input buffer; any other key is left alone.
    fn handle_edit_key(&mut self, key: Key)
        requires
            old(self).wf(),
        ensures
            final(self).wf(),
            is_edit_key(key) ==> input_edit_applies(*old(self), *final(self), key),
            !is_edit_key(key) ==> *final(self) == *old(self),
    {
        match key {
            Key::Left | Key::Ctrl('b') => self.move_input_cursor_prev(),
            Key::Right | Key::Ctrl('f') => self.move_input_cursor_next(),
            Key::Ctrl('a') => self.move_input_cursor_start(),
            Key::Ctrl('e') => self.move_input_cursor_end(),
            Key::Char(c) => self.insert_input(c),
            Key::Backspace | Key::Ctrl('h') => self.remove_input_prev(),
            _ => {},
        }
    }

    /// Keys while composing a new post.
    pub fn post_action(&mut self, key: Key) -> (r: (AppReturn, Effect))
        requires
            old(self).wf(),
        ensures
            final(self).wf(),
            post_action_spec(*old(self), *final(self), key, r.0, r.1),
    {
        match key {
            Key::Esc => {
                self.set_mode(Mode::Normal);
                self.set_input(InputBuffer::new());
                (AppReturn::Continue, Effect::Nothing)
            },
            Key::Enter => {
                let text = self.get_input_value();
                self.set_mode(Mode::Normal);
                self.set_input(InputBuffer::new());
                (AppReturn::Continue, Effect::Dispatch(IoEvent::SendPost(text)))
            },
            _ => {
                self.handle_edit_key(key);
                (AppReturn::Continue, Effect::Nothing)
            },
        }
    }

    /// Keys while composing a reply to the selected post.
    pub fn reply_action(&mut self, key: Key) -> (r: (AppReturn, Effect))
        requires
            old(self).wf(),
        ensures
            final(self).wf(),
            reply_action_spec(*old(self), *final(self), key, r.0, r.1),
    {
        match key {
            Key::Esc => {
                self.set_mode(Mode::Normal);
                self.set_input(InputBuffer::new());
                (AppReturn::Continue, Effect::Nothing)
            },
            Key::Enter => {
                let on_search = matches!(self.get_tab(), Tab::Search);
                let target: Option<ReplyTarget> = if on_search {
                    match self.get_current_search_result() {
                        Some(p) => Some(
                            ReplyTarget {
                                text: self.get_input_value(),
                                cid: p.cid.clone(),
                                uri: p.uri.clone(),
                            },
                        ),
                        None => None,
                    }
                } else {
                    match self.get_current_feed() {
                        Some(p) => Some(
                            ReplyTarget {
                                text: self.get_input_value(),
                                cid: p.cid.clone(),
                                uri: p.uri.clone(),
                            },
                        ),
                        None => None,
                    }
                };
                match target {
                    Some(tgt) => {
                        self.set_mode(Mode::Normal);
                        self.set_input(InputBuffer::new());
                        let ev = if on_search {
                            IoEvent::SearchReply(tgt)
                        } else {
                            IoEvent::Reply(tgt)
                        };
                        (AppReturn::Continue, Effect::Dispatch(ev))
                    },
                    None => (AppReturn::Continue, Effect::Nothing),
                }
            },
            _ => {
                self.handle_edit_key(key);
                (AppReturn::Continue, Effect::Nothing)
            },
        }
    }

    /// Keys while typing a search query.
    pub fn search_input_action(&mut self, key: Key) -> (r: (AppReturn, Effect))
        requires
            old(self).wf(),
        ensures
            final(self).wf(),
            search_input_action_spec(*old(self), *final(self), key, r.0, r.1),
    {
        match key {
            Key::Esc => {
                self.set_mode(Mode::Normal);
                self.set_input(InputBuffer::new());
                (AppReturn::Continue, Effect::Nothing)
            },
            Key::Enter => {
                let query = self.get_input_value();
                if !query.as_str().is_empty() {
                    self.set_search_query(Some(query.clone()));
                    self.set_mode(Mode::Normal);
                    self.set_tab(Tab::Search);
                    self.set_input(InputBuffer::new());
                    (
                        AppReturn::Continue,
                        Effect::Dispatch(IoEvent::Search(SearchEvent::Load(query))),
                    )
                } else {
                    (AppReturn::Continue, Effect::Nothing)
                }
            },
            _ => {
                self.handle_edit_key(key);
                (AppReturn::Continue, Effect::Nothing)
            },
        }
    }

    /// Keys while the help overlay is up: it returns to `Normal` only.
    pub fn help_action(&mut self, key: Key) -> (r: (AppReturn, Effect))
        requires
            old(self).wf(),
        ensures
            final(self).wf(),
            help_action_spec(*old(self), *final(self), key, r.0, r.1),
    {
        match key {
            Key::Char('q') | Key::Esc | Key::Char('?') => {
                self.set_mode(Mode::Normal);
                (AppReturn::Continue, Effect::Nothing)
            },
            _ => (AppReturn::Continue, Effect::Nothing),
        }
    }

    /// What one key does given the current mode and tab. The caller applies
    /// the returned effect; the local state change has already happened.
    pub fn do_action(&mut self, key: Key) -> (r: (AppReturn, Effect))
        requires
            old(self).wf(),
        ensures
            final(self).wf(),
            do_action_spec(*old(self), *final(self), key, r.0, r.1),
            *old(self) is Initialized && !key_defined(
                old(self).sess().mode,
                old(self).sess().tab,
                key,
            ) ==> *final(self) == *old(self) && r.1 == Effect::Nothing && r.0
                == AppReturn::Continue,
            r.0 == AppReturn::Exit <==> mode_of(*old(self)) == Mode::Normal && spec_is_exit(key),
    {
        match self.get_mode() {
            Mode::Normal => match self.get_tab() {
                Tab::Home => self.timeline_action(key),
                Tab::Notifications => self.notifications_action(key),
                Tab::Search => self.search_action(key),
            },
            Mode::Post => self.post_action(key),
            Mode::Reply => self.reply_action(key),
            Mode::Help => self.help_action(key),
            Mode::Search => self.search_input_action(key),
        }
    }
}

} // verus!
