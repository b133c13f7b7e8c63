//! Session state: the single source of truth the input loop and the worker
//! share.
//!
//! The state starts uninitialized and becomes active once login and the
//! first timeline page have succeeded. An active session holds the user's
//! identity, the current mode and tab, the three list slots with their
//! selections, the text-input buffer, the two pagination histories and the
//! loading flag — all plain values, so every transition here is checked.

use vstd::prelude::*;

use crate::config::AppConfig;
use crate::history::TokenHistory;
use crate::text::InputBuffer;

verus! {

#[derive(Clone, Copy, PartialEq, Eq, Debug, Structural)]
pub enum Mode {
    Normal,
    Post,
    Reply,
    Help,
    Search,
}

#[derive(Clone, Copy, PartialEq, Eq, Debug, Structural)]
pub enum Tab {
    Home,
    Notifications,
    Search,
}

/// What the signed-in user has already done to a post: the record keys of
/// their own like and repost, if any.
#[derive(Clone, Debug, PartialEq, Eq)]
pub struct ViewerState {
    pub like: Option<String>,
    pub repost: Option<String>,
}

/// One post as this crate models it: the plain values the session logic
/// reads and the renderer shows.
#[derive(Clone, Debug, PartialEq, Eq)]
pub struct Post {
    pub uri: String,
    pub cid: String,
    pub author_handle: String,
    pub author_display_name: Option<String>,
    pub text: String,
    pub created_at: String,
    pub reply_count: u64,
    pub repost_count: u64,
    pub like_count: u64,
    pub viewer: Option<ViewerState>,
}

/// One notification as this crate models it.
#[derive(Clone, Debug, PartialEq, Eq)]
pub struct Notification {
    pub author_handle: String,
    pub author_display_name: Option<String>,
    pub reason: String,
    pub subject_uri: Option<String>,
}

/// Everything an active session holds.
#[derive(Clone, Debug, PartialEq, Eq)]
pub struct Session {
    pub timeline: Option<Vec<Post>>,
    pub notifications: Option<Vec<Notification>>,
    pub search_results: Option<Vec<Post>>,
    pub input: InputBuffer,
    pub tl_list_position: usize,
    pub notifications_list_position: usize,
    pub search_list_position: usize,
    pub handle: String,
    pub did: String,
    pub mode: Mode,
    pub tab: Tab,
    pub config: AppConfig,
    pub timeline_history: TokenHistory,
    pub search_history: TokenHistory,
    pub search_query: Option<String>,
    pub is_loading: bool,
}

/// A selection is valid when it points into a non-empty list and rests at
/// the start otherwise.
pub open spec fn sel_wf<T>(list: Option<Vec<T>>, position: int) -> bool {
    match list {
        Some(v) => if v@.len() == 0 {
            position == 0
        } else {
            0 <= position < v@.len()
        },
        None => position == 0,
    }
}

pub open spec fn session_wf(s: Session) -> bool {
    &&& s.input.well_formed()
    &&& s.timeline_history.well_formed()
    &&& s.search_history.well_formed()
    &&& sel_wf(s.timeline, s.tl_list_position as int)
    &&& sel_wf(s.notifications, s.notifications_list_position as int)
    &&& sel_wf(s.search_results, s.search_list_position as int)
}

#[derive(Clone, Debug, PartialEq, Eq)]
pub enum AppState {
    Init,
    Initialized(Session),
}

impl AppState {
    /// The session behind an initialized state.
    pub open spec fn sess(self) -> Session
        recommends
            self is Initialized,
    {
        match self {
            AppState::Initialized(s) => s,
            AppState::Init => arbitrary(),
        }
    }

    pub open spec fn wf(self) -> bool {
        self is Initialized ==> session_wf(self.sess())
    }

    /// The state a session enters after a successful login: empty lists,
    /// empty input, `Normal` mode on the `Home` tab, fresh histories, not
    /// loading.
    pub fn initialized(handle: String, did: String, config: AppConfig) -> (st: AppState)
        ensures
            st.wf(),
            st is Initialized,
            st.sess().handle == handle,
            st.sess().did == did,
            st.sess().config == config,
            st.sess().timeline is None,
            st.sess().notifications is None,
            st.sess().search_results is None,
            st.sess().input.is_empty_view(),
            st.sess().tl_list_position == 0,
            st.sess().notifications_list_position == 0,
            st.sess().search_list_position == 0,
            st.sess().mode == Mode::Normal,
            st.sess().tab == Tab::Home,
            st.sess().timeline_history.tokens_view() == seq![Option::<String>::None],
            st.sess().timeline_history.position_view() == 0,
            st.sess().search_history.tokens_view() == seq![Option::<String>::None],
            st.sess().search_history.position_view() == 0,
            st.sess().search_query is None,
            !st.sess().is_loading,
    {
        AppState::Initialized(
            Session {
                timeline: None,
                notifications: None,
                search_results: None,
                input: InputBuffer::new(),
                tl_list_position: 0,
                notifications_list_position: 0,
                search_list_position: 0,
                handle,
                did,
                mode: Mode::Normal,
                tab: Tab::Home,
                config,
                timeline_history: TokenHistory::new(),
                search_history: TokenHistory::new(),
                search_query: None,
                is_loading: false,
            },
        )
    }

    pub fn is_initialized(&self) -> (r: bool)
        ensures
            r == (*self is Initialized),
    {
        matches!(self, AppState::Initialized(_))
    }

    pub fn get_mode(&self) -> (m: Mode)
        ensures
            *self is Initialized ==> m == self.sess().mode,
            *self is Init ==> m == Mode::Normal,
    {
        match self {
            AppState::Initialized(s) => s.mode,
            AppState::Init => Mode::Normal,
        }
    }

    pub fn set_mode(&mut self, mode: Mode)
        requires
            old(self).wf(),
        ensures
            final(self).wf(),
            *old(self) is Init ==> *final(self) == *old(self),
            *old(self) is Initialized ==> *final(self) == AppState::Initialized(
                Session { mode, ..old(self).sess() },
            ),
    {
        match self {
            AppState::Initialized(s) => {
                s.mode = mode;
            },
            AppState::Init => {},
        }
    }

    pub fn get_tab(&self) -> (t: Tab)
        ensures
            *self is Initialized ==> t == self.sess().tab,
            *self is Init ==> t == Tab::Home,
    {
        match self {
            AppState::Initialized(s) => s.tab,
            AppState::Init => Tab::Home,
        }
    }

    pub fn set_tab(&mut self, tab: Tab)
        requires
            old(self).wf(),
        ensures
            final(self).wf(),
            *old(self) is Init ==> *final(self) == *old(self),
            *old(self) is Initialized ==> *final(self) == AppState::Initialized(
                Session { tab, ..old(self).sess() },
            ),
    {
        match self {
            AppState::Initialized(s) => {
                s.tab = tab;
            },
            AppState::Init => {},
        }
    }

    /// Cycle to the next tab: Home, Notifications, Search, and around.
    pub fn set_next_tab(&mut self)
        requires
            old(self).wf(),
        ensures
            final(self).wf(),
            *old(self) is Init ==> *final(self) == *old(self),
            *old(self) is Initialized ==> *final(self) == AppState::Initialized(
                Session { tab: next_tab(old(self).sess().tab), ..old(self).sess() },
            ),
    {
        match self {
            AppState::Initialized(s) => {
                s.tab = match s.tab {
                    Tab::Home => Tab::Notifications,
                    Tab::Notifications => Tab::Search,
                    Tab::Search => Tab::Home,
                };
            },
            AppState::Init => {},
        }
    }

    pub fn is_loading(&self) -> (r: bool)
        ensures
            *self is Initialized ==> r == self.sess().is_loading,
            *self is Init ==> !r,
    {
        match self {
            AppState::Initialized(s) => s.is_loading,
            AppState::Init => false,
        }
    }

    pub fn set_loading(&mut self, is_loading: bool)
        requires
            old(self).wf(),
        ensures
            final(self).wf(),
            *old(self) is Init ==> *final(self) == *old(self),
            *old(self) is Initialized ==> *final(self) == AppState::Initialized(
                Session { is_loading, ..old(self).sess() },
            ),
    {
        match self {
            AppState::Initialized(s) => {
                s.is_loading = is_loading;
            },
            AppState::Init => {},
        }
    }
}

impl Default for AppState {
    /// A session starts uninitialized.
    fn default() -> (st: Self)
        ensures
            st == AppState::Init,
    {
        AppState::Init
    }
}

/// The cyclic successor of a tab.
pub open spec fn next_tab(t: Tab) -> Tab {
    match t {
        Tab::Home => Tab::Notifications,
        Tab::Notifications => Tab::Search,
        Tab::Search => Tab::Home,
    }
}

/// A selection moved one row up: stops at the first row.
pub open spec fn scroll_up_pos(position: int) -> int {
    if position > 0 {
        position - 1
    } else {
        0
    }
}

/// A selection moved one row down: stops at the last row of the list.
pub open spec fn scroll_down_pos<T>(list: Option<Vec<T>>, position: int) -> int {
    match list {
        Some(v) => if position + 1 < v@.len() {
            position + 1
        } else {
            position
        },
        None => position,
    }
}

/// The item a selection points at, if the list has one there.
pub open spec fn sel_item<T>(list: Option<Vec<T>>, position: int) -> Option<T> {
    match list {
        Some(v) => if 0 <= position < v@.len() {
            Some(v@[position])
        } else {
            None
        },
        None => None,
    }
}

impl AppState {
    pub fn get_handle(&self) -> (r: String)
        ensures
            *self is Initialized ==> r == self.sess().handle,
            *self is Init ==> r@ == Seq::<char>::empty(),
    {
        match self {
            AppState::Initialized(s) => s.handle.clone(),
            AppState::Init => String::new(),
        }
    }

    pub fn get_did(&self) -> (r: String)
        ensures
            *self is Initialized ==> r == self.sess().did,
            *self is Init ==> r@ == Seq::<char>::empty(),
    {
        match self {
            AppState::Initialized(s) => s.did.clone(),
            AppState::Init => String::new(),
        }
    }

    pub fn is_normal_mode(&self) -> (r: bool)
        ensures
            r == (*self is Initialized && self.sess().mode == Mode::Normal),
    {
        match self {
            AppState::Initialized(s) => matches!(s.mode, Mode::Normal),
            AppState::Init => false,
        }
    }

    pub fn is_post_mode(&self) -> (r: bool)
        ensures
            r == (*self is Initialized && self.sess().mode == Mode::Post),
    {
        match self {
            AppState::Initialized(s) => matches!(s.mode, Mode::Post),
            AppState::Init => false,
        }
    }

    pub fn is_reply_mode(&self) -> (r: bool)
        ensures
            r == (*self is Initialized && self.sess().mode == Mode::Reply),
    {
        match self {
            AppState::Initialized(s) => matches!(s.mode, Mode::Reply),
            AppState::Init => false,
        }
    }

    pub fn is_help_mode(&self) -> (r: bool)
        ensures
            r == (*self is Initialized && self.sess().mode == Mode::Help),
    {
        match self {
            AppState::Initialized(s) => matches!(s.mode, Mode::Help),
            AppState::Init => false,
        }
    }

    pub fn is_search_mode(&self) -> (r: bool)
        ensures
            r == (*self is Initialized && self.sess().mode == Mode::Search),
    {
        match self {
            AppState::Initialized(s) => matches!(s.mode, Mode::Search),
            AppState::Init => false,
        }
    }

    // --- text input ---

    /// The text in the input buffer.
    pub fn get_input_value(&self) -> (r: String)
        requires
            self.wf(),
        ensures
            *self is Initialized ==> r@ == self.sess().input.text_view(),
            *self is Init ==> r@ == Seq::<char>::empty(),
    {
        match self {
            AppState::Initialized(s) => s.input.value(),
            AppState::Init => String::new(),
        }
    }

    /// The caret of the input buffer, in characters.
    pub fn get_input_caret(&self) -> (r: usize)
        ensures
            *self is Initialized ==> r as int == self.sess().input.caret_view(),
            *self is Init ==> r == 0,
    {
        match self {
            AppState::Initialized(s) => s.input.caret(),
            AppState::Init => 0,
        }
    }

    /// Replace the input buffer.
    pub fn set_input(&mut self, input: InputBuffer)
        requires
            old(self).wf(),
            input.well_formed(),
        ensures
            final(self).wf(),
            *old(self) is Init ==> *final(self) == *old(self),
            *old(self) is Initialized ==> *final(self) == AppState::Initialized(
                Session { input, ..old(self).sess() },
            ),
    {
        match self {
            AppState::Initialized(s) => {
                s.input = input;
            },
            AppState::Init => {},
        }
    }

    /// Insert a character at the caret.
    pub fn insert_input(&mut self, c: char)
        requires
            old(self).wf(),
        ensures
            final(self).wf(),
            *old(self) is Init ==> *final(self) == *old(self),
            *old(self) is Initialized ==> *final(self) == AppState::Initialized(
                Session { input: final(self).sess().input, ..old(self).sess() },
            ) && final(self).sess().input.text_view() == old(self).sess().input.text_view().insert(
                old(self).sess().input.caret_view(),
                c,
            ) && final(self).sess().input.caret_view() == old(self).sess().input.caret_view() + 1,
    {
        match self {
            AppState::Initialized(s) => {
                s.input.insert_char(c);
            },
            AppState::Init => {},
        }
    }

    pub fn move_input_cursor_prev(&mut self)
        requires
            old(self).wf(),
        ensures
            final(self).wf(),
            *old(self) is Init ==> *final(self) == *old(self),
            *old(self) is Initialized ==> *final(self) == AppState::Initialized(
                Session { input: final(self).sess().input, ..old(self).sess() },
            ) && final(self).sess().input.text_view() == old(self).sess().input.text_view()
                && final(self).sess().input.caret_view() == scroll_up_pos(
                old(self).sess().input.caret_view(),
            ),
    {
        match self {
            AppState::Initialized(s) => {
                s.input.caret_prev();
            },
            AppState::Init => {},
        }
    }

    pub fn move_input_cursor_next(&mut self)
        requires
            old(self).wf(),
        ensures
            final(self).wf(),
            *old(self) is Init ==> *final(self) == *old(self),
            *old(self) is Initialized ==> *final(self) == AppState::Initialized(
                Session { input: final(self).sess().input, ..old(self).sess() },
            ) && final(self).sess().input.text_view() == old(self).sess().input.text_view()
                && final(self).sess().input.caret_view() == if old(self).sess().input.caret_view()
                == old(self).sess().input.text_view().len() as int {
                old(self).sess().input.caret_view()
            } else {
                old(self).sess().input.caret_view() + 1
            },
    {
        match self {
            AppState::Initialized(s) => {
                s.input.caret_next();
            },
            AppState::Init => {},
        }
    }

    pub fn move_input_cursor_start(&mut self)
        requires
            old(self).wf(),
        ensures
            final(self).wf(),
            *old(self) is Init ==> *final(self) == *old(self),
            *old(self) is Initialized ==> *final(self) == AppState::Initialized(
                Session { input: final(self).sess().input, ..old(self).sess() },
            ) && final(self).sess().input.text_view() == old(self).sess().input.text_view()
                && final(self).sess().input.caret_view() == 0,
    {
        match self {
            AppState::Initialized(s) => {
                s.input.caret_start();
            },
            AppState::Init => {},
        }
    }

    pub fn move_input_cursor_end(&mut self)
        requires
            old(self).wf(),
        ensures
            final(self).wf(),
            *old(self) is Init ==> *final(self) == *old(self),
            *old(self) is Initialized ==> *final(self) == AppState::Initialized(
                Session { input: final(self).sess().input, ..old(self).sess() },
            ) && final(self).sess().input.text_view() == old(self).sess().input.text_view()
                && final(self).sess().input.caret_view()
                    == old(self).sess().input.text_view().len() as int,
    {
        match self {
            AppState::Initialized(s) => {
                s.input.caret_end();
            },
            AppState::Init => {},
        }
    }

    /// Remove the character before the caret, if any.
    pub fn remove_input_prev(&mut self)
        requires
            old(self).wf(),
        ensures
            final(self).wf(),
            *old(self) is Init ==> *final(self) == *old(self),
            *old(self) is Initialized ==> *final(self) == AppState::Initialized(
                Session { input: final(self).sess().input, ..old(self).sess() },
            ) && (old(self).sess().input.caret_view() == 0
                ==> final(self).sess().input == old(self).sess().input)
                && (old(self).sess().input.caret_view() > 0
                ==> final(self).sess().input.text_view()
                    == old(self).sess().input.text_view().remove(
                        old(self).sess().input.caret_view() - 1,
                    )
                && final(self).sess().input.caret_view()
                    == old(self).sess().input.caret_view() - 1),
    {
        match self {
            AppState::Initialized(s) => {
                s.input.delete_prev();
            },
            AppState::Init => {},
        }
    }

    // --- lists and selections ---

    pub fn get_timeline(&self) -> (r: Option<&Vec<Post>>)
        ensures
            match r {
                Some(v) => *self is Initialized && self.sess().timeline == Some(*v),
                None => *self is Init || self.sess().timeline is None,
            },
    {
        match self {
            AppState::Initialized(s) => match &s.timeline {
                Some(v) => Some(v),
                None => None,
            },
            AppState::Init => None,
        }
    }

    pub fn get_notifications(&self) -> (r: Option<&Vec<Notification>>)
        ensures
            match r {
                Some(v) => *self is Initialized && self.sess().notifications == Some(*v),
                None => *self is Init || self.sess().notifications is None,
            },
    {
        match self {
            AppState::Initialized(s) => match &s.notifications {
                Some(v) => Some(v),
                None => None,
            },
            AppState::Init => None,
        }
    }

    pub fn get_search_results(&self) -> (r: Option<&Vec<Post>>)
        ensures
            match r {
                Some(v) => *self is Initialized && self.sess().search_results == Some(*v),
                None => *self is Init || self.sess().search_results is None,
            },
    {
        match self {
            AppState::Initialized(s) => match &s.search_results {
                Some(v) => Some(v),
                None => None,
            },
            AppState::Init => None,
        }
    }

    /// Replace the timeline; the selection is kept when it still points into
    /// the new list and reset to the first row otherwise.
    pub fn set_timeline(&mut self, f: Option<Vec<Post>>)
        requires
            old(self).wf(),
        ensures
            final(self).wf(),
            *old(self) is Init ==> *final(self) == *old(self),
            *old(self) is Initialized ==> *final(self) == AppState::Initialized(
                Session {
                    timeline: f,
                    tl_list_position: final(self).sess().tl_list_position,
                    ..old(self).sess()
                },
            ) && final(self).sess().tl_list_position as int == if sel_wf(
                f,
                old(self).sess().tl_list_position as int,
            ) {
                old(self).sess().tl_list_position as int
            } else {
                0int
            },
    {
        match self {
            AppState::Initialized(s) => {
                s.timeline = f;
                let keep = match &s.timeline {
                    Some(v) => {
                        let n = v.len();
                        if n == 0 {
                            s.tl_list_position == 0
                        } else {
                            s.tl_list_position < n
                        }
                    },
                    None => s.tl_list_position == 0,
                };
                if !keep {
                    s.tl_list_position = 0;
                }
            },
            AppState::Init => {},
        }
    }

    /// Replace the notification list; the selection is kept when it still
    /// points into the new list and reset to the first row otherwise.
    pub fn set_notifications(&mut self, n: Option<Vec<Notification>>)
        requires
            old(self).wf(),
        ensures
            final(self).wf(),
            *old(self) is Init ==> *final(self) == *old(self),
            *old(self) is Initialized ==> *final(self) == AppState::Initialized(
                Session {
                    notifications: n,
                    notifications_list_position: final(self).sess().notifications_list_position,
                    ..old(self).sess()
                },
            ) && final(self).sess().notifications_list_position as int == if sel_wf(
                n,
                old(self).sess().notifications_list_position as int,
            ) {
                old(self).sess().notifications_list_position as int
            } else {
                0int
            },
    {
        match self {
            AppState::Initialized(s) => {
                s.notifications = n;
                let keep = match &s.notifications {
                    Some(v) => {
                        let len = v.len();
                        if len == 0 {
                            s.notifications_list_position == 0
                        } else {
                            s.notifications_list_position < len
                        }
                    },
                    None => s.notifications_list_position == 0,
                };
                if !keep {
                    s.notifications_list_position = 0;
                }
            },
            AppState::Init => {},
        }
    }

    /// Replace the search results; the selection is kept when it still
    /// points into the new list and reset to the first row otherwise.
    pub fn set_search_results(&mut self, f: Option<Vec<Post>>)
        requires
            old(self).wf(),
        ensures
            final(self).wf(),
            *old(self) is Init ==> *final(self) == *old(self),
            *old(self) is Initialized ==> *final(self) == AppState::Initialized(
                Session {
                    search_results: f,
                    search_list_position: final(self).sess().search_list_position,
                    ..old(self).sess()
                },
            ) && final(self).sess().search_list_position as int == if sel_wf(
                f,
                old(self).sess().search_list_position as int,
            ) {
                old(self).sess().search_list_position as int
            } else {
                0int
            },
    {
        match self {
            AppState::Initialized(s) => {
                s.search_results = f;
                let keep = match &s.search_results {
                    Some(v) => {
                        let len = v.len();
                        if len == 0 {
                            s.search_list_position == 0
                        } else {
                            s.search_list_position < len
                        }
                    },
                    None => s.search_list_position == 0,
                };
                if !keep {
                    s.search_list_position = 0;
                }
            },
            AppState::Init => {},
        }
    }

    /// The selected timeline entry, if the timeline has one.
    pub fn get_current_feed(&self) -> (r: Option<&Post>)
        ensures
            *self is Init ==> r is None,
            *self is Initialized ==> match r {
                Some(p) => sel_item(self.sess().timeline, self.sess().tl_list_position as int)
                    == Some(*p),
                None => sel_item(self.sess().timeline, self.sess().tl_list_position as int)
                    is None,
            },
    {
        match self {
            AppState::Initialized(s) => match &s.timeline {
                Some(v) => {
                    if s.tl_list_position < v.len() {
                        Some(&v[s.tl_list_position])
                    } else {
                        None
                    }
                },
                None => None,
            },
            AppState::Init => None,
        }
    }

    /// The selected search result, if there is one.
    pub fn get_current_search_result(&self) -> (r: Option<&Post>)
        ensures
            *self is Init ==> r is None,
            *self is Initialized ==> match r {
                Some(p) => sel_item(
                    self.sess().search_results,
                    self.sess().search_list_position as int,
                ) == Some(*p),
                None => sel_item(
                    self.sess().search_results,
                    self.sess().search_list_position as int,
                ) is None,
            },
    {
        match self {
            AppState::Initialized(s) => match &s.search_results {
                Some(v) => {
                    if s.search_list_position < v.len() {
                        Some(&v[s.search_list_position])
                    } else {
                        None
                    }
                },
                None => None,
            },
            AppState::Init => None,
        }
    }

    // --- scrolling ---

    pub fn get_tl_list_position(&self) -> (p: usize)
        ensures
            *self is Initialized ==> p == self.sess().tl_list_position,
            *self is Init ==> p == 0,
    {
        match self {
            AppState::Initialized(s) => s.tl_list_position,
            AppState::Init => 0,
        }
    }

    pub fn get_notifications_list_position(&self) -> (p: usize)
        ensures
            *self is Initialized ==> p == self.sess().notifications_list_position,
            *self is Init ==> p == 0,
    {
        match self {
            AppState::Initialized(s) => s.notifications_list_position,
            AppState::Init => 0,
        }
    }

    pub fn get_search_list_position(&self) -> (p: usize)
        ensures
            *self is Initialized ==> p == self.sess().search_list_position,
            *self is Init ==> p == 0,
    {
        match self {
            AppState::Initialized(s) => s.search_list_position,
            AppState::Init => 0,
        }
    }

    pub fn move_tl_scroll_top(&mut self)
        requires
            old(self).wf(),
        ensures
            final(self).wf(),
            *old(self) is Init ==> *final(self) == *old(self),
            *old(self) is Initialized ==> *final(self) == AppState::Initialized(
                Session { tl_list_position: 0, ..old(self).sess() },
            ),
    {
        match self {
            AppState::Initialized(s) => {
                s.tl_list_position = 0;
            },
            AppState::Init => {},
        }
    }

    pub fn move_tl_scroll_up(&mut self)
        requires
            old(self).wf(),
        ensures
            final(self).wf(),
            *old(self) is Init ==> *final(self) == *old(self),
            *old(self) is Initialized ==> *final(self) == AppState::Initialized(
                Session {
                    tl_list_position: final(self).sess().tl_list_position,
                    ..old(self).sess()
                },
            ) && final(self).sess().tl_list_position as int == scroll_up_pos(
                old(self).sess().tl_list_position as int,
            ),
    {
        match self {
            AppState::Initialized(s) => {
                if s.tl_list_position > 0 {
                    s.tl_list_position = s.tl_list_position - 1;
                }
            },
            AppState::Init => {},
        }
    }

    pub fn move_tl_scroll_down(&mut self)
        requires
            old(self).wf(),
        ensures
            final(self).wf(),
            *old(self) is Init ==> *final(self) == *old(self),
            *old(self) is Initialized ==> *final(self) == AppState::Initialized(
                Session {
                    tl_list_position: final(self).sess().tl_list_position,
                    ..old(self).sess()
                },
            ) && final(self).sess().tl_list_position as int == scroll_down_pos(
                old(self).sess().timeline,
                old(self).sess().tl_list_position as int,
            ),
    {
        match self {
            AppState::Initialized(s) => {
                match &s.timeline {
                    Some(v) => {
                        let n = v.len();
                        if s.tl_list_position + 1 < n {
                            s.tl_list_position = s.tl_list_position + 1;
                        }
                    },
                    None => {},
                }
            },
            AppState::Init => {},
        }
    }

    pub fn move_notifications_scroll_up(&mut self)
        requires
            old(self).wf(),
        ensures
            final(self).wf(),
            *old(self) is Init ==> *final(self) == *old(self),
            *old(self) is Initialized ==> *final(self) == AppState::Initialized(
                Session {
                    notifications_list_position: final(self).sess().notifications_list_position,
                    ..old(self).sess()
                },
            ) && final(self).sess().notifications_list_position as int == scroll_up_pos(
                old(self).sess().notifications_list_position as int,
            ),
    {
        match self {
            AppState::Initialized(s) => {
                if s.notifications_list_position > 0 {
                    s.notifications_list_position = s.notifications_list_position - 1;
                }
            },
            AppState::Init => {},
        }
    }

    pub fn move_notifications_scroll_down(&mut self)
        requires
            old(self).wf(),
        ensures
            final(self).wf(),
            *old(self) is Init ==> *final(self) == *old(self),
            *old(self) is Initialized ==> *final(self) == AppState::Initialized(
                Session {
                    notifications_list_position: final(self).sess().notifications_list_position,
                    ..old(self).sess()
                },
            ) && final(self).sess().notifications_list_position as int == scroll_down_pos(
                old(self).sess().notifications,
                old(self).sess().notifications_list_position as int,
            ),
    {
        match self {
            AppState::Initialized(s) => {
                match &s.notifications {
                    Some(v) => {
                        let n = v.len();
                        if s.notifications_list_position + 1 < n {
                            s.notifications_list_position = s.notifications_list_position + 1;
                        }
                    },
                    None => {},
                }
            },
            AppState::Init => {},
        }
    }

    pub fn move_search_scroll_top(&mut self)
        requires
            old(self).wf(),
        ensures
            final(self).wf(),
            *old(self) is Init ==> *final(self) == *old(self),
            *old(self) is Initialized ==> *final(self) == AppState::Initialized(
                Session { search_list_position: 0, ..old(self).sess() },
            ),
    {
        match self {
            AppState::Initialized(s) => {
                s.search_list_position = 0;
            },
            AppState::Init => {},
        }
    }

    pub fn move_search_scroll_up(&mut self)
        requires
            old(self).wf(),
        ensures
            final(self).wf(),
            *old(self) is Init ==> *final(self) == *old(self),
            *old(self) is Initialized ==> *final(self) == AppState::Initialized(
                Session {
                    search_list_position: final(self).sess().search_list_position,
                    ..old(self).sess()
                },
            ) && final(self).sess().search_list_position as int == scroll_up_pos(
                old(self).sess().search_list_position as int,
            ),
    {
        match self {
            AppState::Initialized(s) => {
                if s.search_list_position > 0 {
                    s.search_list_position = s.search_list_position - 1;
                }
            },
            AppState::Init => {},
        }
    }

    pub fn move_search_scroll_down(&mut self)
        requires
            old(self).wf(),
        ensures
            final(self).wf(),
            *old(self) is Init ==> *final(self) == *old(self),
            *old(self) is Initialized ==> *final(self) == AppState::Initialized(
                Session {
                    search_list_position: final(self).sess().search_list_position,
                    ..old(self).sess()
                },
            ) && final(self).sess().search_list_position as int == scroll_down_pos(
                old(self).sess().search_results,
                old(self).sess().search_list_position as int,
            ),
    {
        match self {
            AppState::Initialized(s) => {
                match &s.search_results {
                    Some(v) => {
                        let n = v.len();
                        if s.search_list_position + 1 < n {
                            s.search_list_position = s.search_list_position + 1;
                        }
                    },
                    None => {},
                }
            },
            AppState::Init => {},
        }
    }

    // --- search query ---

    pub fn get_search_query(&self) -> (r: Option<String>)
        ensures
            *self is Initialized ==> r == self.sess().search_query,
            *self is Init ==> r is None,
    {
        match self {
            AppState::Initialized(s) => match &s.search_query {
                Some(q) => Some(q.clone()),
                None => None,
            },
            AppState::Init => None,
        }
    }

    pub fn set_search_query(&mut self, query: Option<String>)
        requires
            old(self).wf(),
        ensures
            final(self).wf(),
            *old(self) is Init ==> *final(self) == *old(self),
            *old(self) is Initialized ==> *final(self) == AppState::Initialized(
                Session { search_query: query, ..old(self).sess() },
            ),
    {
        match self {
            AppState::Initialized(s) => {
                s.search_query = query;
            },
            AppState::Init => {},
        }
    }

    // --- pagination cursors ---

    /// A copy of the timeline's recorded token sequence.
    pub fn get_cursors(&self) -> (r: Vec<Option<String>>)
        ensures
            *self is Initialized ==> r@ == self.sess().timeline_history.tokens_view(),
            *self is Init ==> r@ == Seq::<Option<String>>::empty(),
    {
        match self {
            AppState::Initialized(s) => s.timeline_history.tokens(),
            AppState::Init => Vec::new(),
        }
    }

    /// A copy of the search results' recorded token sequence.
    pub fn get_search_cursors(&self) -> (r: Vec<Option<String>>)
        ensures
            *self is Initialized ==> r@ == self.sess().search_history.tokens_view(),
            *self is Init ==> r@ == Seq::<Option<String>>::empty(),
    {
        match self {
            AppState::Initialized(s) => s.search_history.tokens(),
            AppState::Init => Vec::new(),
        }
    }

    /// The history position of the timeline: which page of the timeline is
    /// shown.
    pub fn get_tl_current_cursor_index(&self) -> (p: usize)
        ensures
            *self is Initialized ==> p as int == self.sess().timeline_history.position_view(),
            *self is Init ==> p == 0,
    {
        match self {
            AppState::Initialized(s) => s.timeline_history.position(),
            AppState::Init => 0,
        }
    }

    /// The token that fetched the timeline page currently shown.
    pub fn get_current_cursor(&self) -> (t: Option<String>)
        requires
            self.wf(),
        ensures
            *self is Initialized ==> t == self.sess().timeline_history.tokens_view()[self.sess().timeline_history.position_view()],
            *self is Init ==> t is None,
    {
        match self {
            AppState::Initialized(s) => s.timeline_history.current_token(),
            AppState::Init => None,
        }
    }

    /// The token recorded for the next timeline page, or `None` at the tail.
    pub fn get_next_cursor(&self) -> (t: Option<String>)
        requires
            self.wf(),
        ensures
            *self is Initialized ==> t == if self.sess().timeline_history.position_view() + 1
                < self.sess().timeline_history.tokens_view().len() {
                self.sess().timeline_history.tokens_view()[self.sess().timeline_history.position_view()
                    + 1]
            } else {
                Option::<String>::None
            },
            *self is Init ==> t is None,
    {
        match self {
            AppState::Initialized(s) => s.timeline_history.next_token(),
            AppState::Init => None,
        }
    }

    /// The token recorded for the previous timeline page, or `None` at the
    /// start.
    pub fn get_prev_cursor(&self) -> (t: Option<String>)
        requires
            self.wf(),
        ensures
            *self is Initialized ==> t == if self.sess().timeline_history.position_view() == 0 {
                Option::<String>::None
            } else {
                self.sess().timeline_history.tokens_view()[self.sess().timeline_history.position_view()
                    - 1]
            },
            *self is Init ==> t is None,
    {
        match self {
            AppState::Initialized(s) => s.timeline_history.prev_token(),
            AppState::Init => None,
        }
    }

    /// The history position of the search results.
    pub fn get_search_current_cursor_index(&self) -> (p: usize)
        ensures
            *self is Initialized ==> p as int == self.sess().search_history.position_view(),
            *self is Init ==> p == 0,
    {
        match self {
            AppState::Initialized(s) => s.search_history.position(),
            AppState::Init => 0,
        }
    }

    /// The token that fetched the search page currently shown.
    pub fn get_search_current_cursor(&self) -> (t: Option<String>)
        requires
            self.wf(),
        ensures
            *self is Initialized ==> t == self.sess().search_history.tokens_view()[self.sess().search_history.position_view()],
            *self is Init ==> t is None,
    {
        match self {
            AppState::Initialized(s) => s.search_history.current_token(),
            AppState::Init => None,
        }
    }

    /// The token recorded for the next search page, or `None` at the tail.
    pub fn get_search_next_cursor(&self) -> (t: Option<String>)
        requires
            self.wf(),
        ensures
            *self is Initialized ==> t == if self.sess().search_history.position_view() + 1
                < self.sess().search_history.tokens_view().len() {
                self.sess().search_history.tokens_view()[self.sess().search_history.position_view()
                    + 1]
            } else {
                Option::<String>::None
            },
            *self is Init ==> t is None,
    {
        match self {
            AppState::Initialized(s) => s.search_history.next_token(),
            AppState::Init => None,
        }
    }

    /// The token recorded for the previous search page, or `None` at the
    /// start.
    pub fn get_search_prev_cursor(&self) -> (t: Option<String>)
        requires
            self.wf(),
        ensures
            *self is Initialized ==> t == if self.sess().search_history.position_view() == 0 {
                Option::<String>::None
            } else {
                self.sess().search_history.tokens_view()[self.sess().search_history.position_view()
                    - 1]
            },
            *self is Init ==> t is None,
    {
        match self {
            AppState::Initialized(s) => s.search_history.prev_token(),
            AppState::Init => None,
        }
    }
}

} // verus!
