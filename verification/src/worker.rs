//! The worker's decisions: which fetch a command needs, and how the
//! session takes the result in.
//!
//! The worker drains the command queue one command at a time. For each
//! page-load command it first plans the fetch from the current state —
//! possibly deciding to skip it — then performs the network call outside
//! this crate, then applies the outcome here. Every rule that decides or
//! mutates is in this module; the call in between is not.

use vstd::prelude::*;

use crate::history::loaded_tokens;
use crate::history::step_position;
use crate::history::step_tokens;
use crate::history::NavStep;
use crate::io::SearchEvent;
use crate::io::TimelineEvent;
use crate::state::sel_wf;
use crate::state::AppState;
use crate::state::Notification;
use crate::state::Post;
use crate::state::Session;
use crate::state::Tab;

verus! {

/// Whether a page-load command needs a network call, and with which
/// continuation token.
#[derive(Debug, Clone, PartialEq, Eq)]
pub enum FetchPlan {
    Skip,
    Fetch(Option<String>),
}

impl AppState {
    /// Which fetch a timeline command needs: a load starts from the top, a
    /// reload reuses the current token, moving needs the recorded
    /// neighbouring token — and is skipped at the edges of the history, as
    /// is a forward move while a fetch is already under way.
    pub fn timeline_fetch_plan(&self, event: TimelineEvent) -> (p: FetchPlan)
        requires
            self.wf(),
        ensures
            *self is Init ==> p == FetchPlan::Skip,
            *self is Initialized ==> ({
                let h = self.sess().timeline_history;
                &&& (event == TimelineEvent::Load ==> p == FetchPlan::Fetch(
                    Option::<String>::None,
                ))
                &&& (event == TimelineEvent::Next ==> (self.sess().is_loading || h.position_view()
                    + 1 >= h.tokens_view().len() ==> p == FetchPlan::Skip) && (
                !self.sess().is_loading && h.position_view() + 1 < h.tokens_view().len() ==> p
                    == FetchPlan::Fetch(h.tokens_view()[h.position_view() + 1])))
                &&& (event == TimelineEvent::Prev ==> (h.position_view() == 0 ==> p
                    == FetchPlan::Skip) && (h.position_view() > 0 ==> p == FetchPlan::Fetch(
                    h.tokens_view()[h.position_view() - 1],
                )))
                &&& (event == TimelineEvent::Reload ==> p == FetchPlan::Fetch(
                    h.tokens_view()[h.position_view()],
                ))
            }),
    {
        match self {
            AppState::Initialized(s) => match event {
                TimelineEvent::Load => FetchPlan::Fetch(None),
                TimelineEvent::Next => {
                    if s.is_loading || !s.timeline_history.can_advance() {
                        FetchPlan::Skip
                    } else {
                        FetchPlan::Fetch(s.timeline_history.next_token())
                    }
                },
                TimelineEvent::Prev => {
                    if s.timeline_history.position() == 0 {
                        FetchPlan::Skip
                    } else {
                        FetchPlan::Fetch(s.timeline_history.prev_token())
                    }
                },
                TimelineEvent::Reload => FetchPlan::Fetch(s.timeline_history.current_token()),
            },
            AppState::Init => FetchPlan::Skip,
        }
    }

    /// Take a fetched timeline page in: the list is replaced, the selection
    /// returns to the top, the history moves as the command asked, and the
    /// loading flag clears.
    pub fn apply_timeline_fetch(
        &mut self,
        event: TimelineEvent,
        items: Vec<Post>,
        returned: Option<String>,
    )
        requires
            old(self).wf(),
            *old(self) is Initialized,
            event == TimelineEvent::Next ==> old(self).sess().timeline_history.position_view() + 1
                < old(self).sess().timeline_history.tokens_view().len(),
        ensures
            final(self).wf(),
            *final(self) == AppState::Initialized(
                Session {
                    timeline: Some(items),
                    tl_list_position: 0,
                    timeline_history: final(self).sess().timeline_history,
                    is_loading: false,
                    ..old(self).sess()
                },
            ),
            ({
                let h0 = old(self).sess().timeline_history;
                let h1 = final(self).sess().timeline_history;
                &&& h1.well_formed()
                &&& (event == TimelineEvent::Load ==> h1.tokens_view() == loaded_tokens(returned)
                    && h1.position_view() == 0)
                &&& (event == TimelineEvent::Next ==> h1.tokens_view() == step_tokens(
                    h0.tokens_view(),
                    h0.position_view(),
                    NavStep::Next(returned),
                ) && h1.position_view() == h0.position_view() + 1)
                &&& (event == TimelineEvent::Prev ==> h1.tokens_view() == h0.tokens_view()
                    && h1.position_view() == step_position(
                    h0.tokens_view(),
                    h0.position_view(),
                    NavStep::Prev,
                ))
                &&& (event == TimelineEvent::Reload ==> h1 == h0)
            }),
    {
        match self {
            AppState::Initialized(s) => {
                match event {
                    TimelineEvent::Load => s.timeline_history.apply_load(returned),
                    TimelineEvent::Next => s.timeline_history.apply_next(returned),
                    TimelineEvent::Prev => s.timeline_history.apply_prev(),
                    TimelineEvent::Reload => {},
                }
                s.timeline = Some(items);
                s.tl_list_position = 0;
                s.is_loading = false;
            },
            AppState::Init => {},
        }
    }

    /// Which fetch a search command needs; the shape mirrors the timeline
    /// plan, with a fresh query always starting from the top.
    pub fn search_fetch_plan(&self, event: &SearchEvent) -> (p: FetchPlan)
        requires
            self.wf(),
        ensures
            *self is Init ==> p == FetchPlan::Skip,
            *self is Initialized ==> ({
                let h = self.sess().search_history;
                &&& (*event matches SearchEvent::Load(_) ==> p == FetchPlan::Fetch(
                    Option::<String>::None,
                ))
                &&& (*event == SearchEvent::Next ==> (self.sess().is_loading || h.position_view()
                    + 1 >= h.tokens_view().len() ==> p == FetchPlan::Skip) && (
                !self.sess().is_loading && h.position_view() + 1 < h.tokens_view().len() ==> p
                    == FetchPlan::Fetch(h.tokens_view()[h.position_view() + 1])))
                &&& (*event == SearchEvent::Prev ==> (h.position_view() == 0 ==> p
                    == FetchPlan::Skip) && (h.position_view() > 0 ==> p == FetchPlan::Fetch(
                    h.tokens_view()[h.position_view() - 1],
                )))
                &&& (*event == SearchEvent::Reload ==> p == FetchPlan::Fetch(
                    h.tokens_view()[h.position_view()],
                ))
            }),
    {
        match self {
            AppState::Initialized(s) => match event {
                SearchEvent::Load(_) => FetchPlan::Fetch(None),
                SearchEvent::Next => {
                    if s.is_loading || !s.search_history.can_advance() {
                        FetchPlan::Skip
                    } else {
                        FetchPlan::Fetch(s.search_history.next_token())
                    }
                },
                SearchEvent::Prev => {
                    if s.search_history.position() == 0 {
                        FetchPlan::Skip
                    } else {
                        FetchPlan::Fetch(s.search_history.prev_token())
                    }
                },
                SearchEvent::Reload => FetchPlan::Fetch(s.search_history.current_token()),
            },
            AppState::Init => FetchPlan::Skip,
        }
    }

    /// The query string a search fetch must be issued with: the one the
    /// command carries on a fresh load, the remembered one otherwise.
    pub fn search_query_to_use(&self, event: &SearchEvent) -> (q: String)
        requires
            self.wf(),
        ensures
            *event matches SearchEvent::Load(query) ==> q == query,
            !(*event matches SearchEvent::Load(_)) && *self is Initialized ==> (
            self.sess().search_query matches Some(query) ==> q == query),
            !(*event matches SearchEvent::Load(_)) && (*self is Init
                || self.sess().search_query is None) ==> q@ == Seq::<char>::empty(),
    {
        match event {
            SearchEvent::Load(query) => query.clone(),
            _ => {
                match self {
                    AppState::Initialized(s) => match &s.search_query {
                        Some(query) => query.clone(),
                        None => String::new(),
                    },
                    AppState::Init => String::new(),
                }
            },
        }
    }

    /// Take a fetched search page in: the results are replaced, the
    /// selection returns to the top, the Search tab becomes active, a fresh
    /// load remembers its query, the history moves as the command asked, and
    /// the loading flag clears.
    pub fn apply_search_fetch(&mut self, event: SearchEvent, items: Vec<Post>, returned: Option<
        String,
    >)
        requires
            old(self).wf(),
            *old(self) is Initialized,
            event == SearchEvent::Next ==> old(self).sess().search_history.position_view() + 1
                < old(self).sess().search_history.tokens_view().len(),
        ensures
            final(self).wf(),
            *final(self) == AppState::Initialized(
                Session {
                    search_results: Some(items),
                    search_list_position: 0,
                    tab: Tab::Search,
                    search_query: final(self).sess().search_query,
                    search_history: final(self).sess().search_history,
                    is_loading: false,
                    ..old(self).sess()
                },
            ),
            (event matches SearchEvent::Load(q) ==> final(self).sess().search_query == Some(q)),
            !(event matches SearchEvent::Load(_)) ==> final(self).sess().search_query == old(
                self,
            ).sess().search_query,
            ({
                let h0 = old(self).sess().search_history;
                let h1 = final(self).sess().search_history;
                &&& h1.well_formed()
                &&& (event matches SearchEvent::Load(_) ==> h1.tokens_view() == loaded_tokens(
                    returned,
                ) && h1.position_view() == 0)
                &&& (event == SearchEvent::Next ==> h1.tokens_view() == step_tokens(
                    h0.tokens_view(),
                    h0.position_view(),
                    NavStep::Next(returned),
                ) && h1.position_view() == h0.position_view() + 1)
                &&& (event == SearchEvent::Prev ==> h1.tokens_view() == h0.tokens_view()
                    && h1.position_view() == step_position(
                    h0.tokens_view(),
                    h0.position_view(),
                    NavStep::Prev,
                ))
                &&& (event == SearchEvent::Reload ==> h1 == h0)
            }),
    {
        match self {
            AppState::Initialized(s) => {
                match event {
                    SearchEvent::Load(q) => {
                        s.search_history.apply_load(returned);
                        s.search_query = Some(q);
                    },
                    SearchEvent::Next => s.search_history.apply_next(returned),
                    SearchEvent::Prev => s.search_history.apply_prev(),
                    SearchEvent::Reload => {},
                }
                s.search_results = Some(items);
                s.search_list_position = 0;
                s.tab = Tab::Search;
                s.is_loading = false;
            },
            AppState::Init => {},
        }
    }

    /// Take a fetched notification list in: the list is replaced, the
    /// selection is kept when it still points into it, and the loading flag
    /// clears. Notifications are a single page; nothing else moves.
    pub fn apply_notifications(&mut self, items: Vec<Notification>)
        requires
            old(self).wf(),
            *old(self) is Initialized,
        ensures
            final(self).wf(),
            *final(self) == AppState::Initialized(
                Session {
                    notifications: Some(items),
                    notifications_list_position: final(self).sess().notifications_list_position,
                    is_loading: false,
                    ..old(self).sess()
                },
            ),
            final(self).sess().notifications_list_position as int == if sel_wf(
                Some(items),
                old(self).sess().notifications_list_position as int,
            ) {
                old(self).sess().notifications_list_position as int
            } else {
                0int
            },
    {
        match self {
            AppState::Initialized(s) => {
                s.notifications = Some(items);
                let keep = match &s.notifications {
                    Some(v) => {
                        let n = v.len();
                        if n == 0 {
                            s.notifications_list_position == 0
                        } else {
                            s.notifications_list_position < n
                        }
                    },
                    None => s.notifications_list_position == 0,
                };
                if !keep {
                    s.notifications_list_position = 0;
                }
                s.is_loading = false;
            },
            AppState::Init => {},
        }
    }
}

} // verus!
