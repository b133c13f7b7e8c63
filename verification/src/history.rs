//! Pagination token history.
//!
//! A paginated remote list hands back an opaque continuation token with every
//! page. Tokens are only issued going forward, so a client that wants to page
//! backward must remember the tokens it has already used. This module keeps
//! them in an append-only sequence with a movable cursor: index 0 always
//! exists and stands for the start of the list (no token), and the entry at
//! the cursor is the token that fetched the page currently shown.

use vstd::prelude::*;

verus! {

/// A navigation step as the spec-level model sees it: moving forward hands
/// over the token the server returned for the new page; moving backward
/// carries nothing.
pub enum NavStep {
    Next(Option<String>),
    Prev,
}

/// Well-formedness of a history: the start-of-list entry always exists and
/// the cursor points at a recorded token.
pub open spec fn history_wf(tokens: Seq<Option<String>>, position: int) -> bool {
    &&& tokens.len() >= 1
    &&& 0 <= position < tokens.len()
    &&& tokens[0] is None
}

/// The token sequence right after a fresh load that returned `returned`:
/// the start-of-list entry, then the continuation token if the server gave
/// one.
pub open spec fn loaded_tokens(returned: Option<String>) -> Seq<Option<String>> {
    if returned is Some {
        seq![Option::<String>::None, returned]
    } else {
        seq![Option::<String>::None]
    }
}

/// How one navigation step changes the token sequence: only a forward move
/// that leaves from the tail may append, and only when the server returned a
/// further token. Everything else keeps the sequence as it is.
pub open spec fn step_tokens(
    tokens: Seq<Option<String>>,
    position: int,
    step: NavStep,
) -> Seq<Option<String>> {
    match step {
        NavStep::Prev => tokens,
        NavStep::Next(returned) => {
            if position + 2 == tokens.len() && returned is Some {
                tokens.push(returned)
            } else {
                tokens
            }
        },
    }
}

/// How one navigation step moves the cursor: forward only when a token for
/// the next page is recorded, backward only when not already at the start.
pub open spec fn step_position(tokens: Seq<Option<String>>, position: int, step: NavStep) -> int {
    match step {
        NavStep::Prev => if position == 0 {
            0
        } else {
            position - 1
        },
        NavStep::Next(_) => if position + 1 < tokens.len() {
            position + 1
        } else {
            position
        },
    }
}

/// The token sequence after a whole run of navigation steps.
pub open spec fn run_tokens(
    tokens: Seq<Option<String>>,
    position: int,
    steps: Seq<NavStep>,
) -> Seq<Option<String>>
    decreases steps.len(),
{
    if steps.len() == 0 {
        tokens
    } else {
        run_tokens(
            step_tokens(tokens, position, steps[0]),
            step_position(tokens, position, steps[0]),
            steps.drop_first(),
        )
    }
}

/// The cursor after a whole run of navigation steps.
pub open spec fn run_position(
    tokens: Seq<Option<String>>,
    position: int,
    steps: Seq<NavStep>,
) -> int
    decreases steps.len(),
{
    if steps.len() == 0 {
        position
    } else {
        run_position(
            step_tokens(tokens, position, steps[0]),
            step_position(tokens, position, steps[0]),
            steps.drop_first(),
        )
    }
}

/// Law: a fresh load always leaves a well-formed history with the cursor at
/// the start; it records two entries when the server returned a continuation
/// token and one when it signalled the end of the list.
pub proof fn lemma_loaded_history_shape(returned: Option<String>)
    ensures
        history_wf(loaded_tokens(returned), 0),
        loaded_tokens(returned).len() == if returned is Some {
            2int
        } else {
            1int
        },
        returned is Some ==> loaded_tokens(returned)[1] == returned,
{
}

/// Law: however the user navigates, the cursor never leaves the recorded
/// tokens, so every page shown has a token the history can refetch it with.
pub proof fn lemma_navigation_stays_in_bounds(
    tokens: Seq<Option<String>>,
    position: int,
    steps: Seq<NavStep>,
)
    requires
        history_wf(tokens, position),
    ensures
        history_wf(run_tokens(tokens, position, steps), run_position(tokens, position, steps)),
        0 <= run_position(tokens, position, steps) < run_tokens(tokens, position, steps).len(),
    decreases steps.len(),
{
    if steps.len() > 0 {
        let t1 = step_tokens(tokens, position, steps[0]);
        let p1 = step_position(tokens, position, steps[0]);
        assert(history_wf(t1, p1));
        lemma_navigation_stays_in_bounds(t1, p1, steps.drop_first());
    }
}

/// Law: moving forward and immediately back restores the cursor, and the
/// token the backward refetch uses is exactly the token that fetched the
/// page shown before the forward move.
pub proof fn lemma_next_then_prev_round_trip(
    tokens: Seq<Option<String>>,
    position: int,
    returned: Option<String>,
)
    requires
        history_wf(tokens, position),
        position + 1 < tokens.len(),
    ensures
        ({
            let steps = seq![NavStep::Next(returned), NavStep::Prev];
            &&& run_position(tokens, position, steps) == position
            &&& run_tokens(tokens, position, steps)[position] == tokens[position]
        }),
{
    let steps = seq![NavStep::Next(returned), NavStep::Prev];
    let t1 = step_tokens(tokens, position, steps[0]);
    let p1 = step_position(tokens, position, steps[0]);
    assert(steps.drop_first() =~= seq![NavStep::Prev]);
    let t2 = step_tokens(t1, p1, NavStep::Prev);
    let p2 = step_position(t1, p1, NavStep::Prev);
    assert(seq![NavStep::Prev].drop_first() =~= Seq::<NavStep>::empty());
    assert(run_tokens(tokens, position, steps) == run_tokens(t1, p1, seq![NavStep::Prev]));
    assert(run_tokens(t1, p1, seq![NavStep::Prev]) == run_tokens(t2, p2, Seq::<NavStep>::empty()));
    assert(run_position(tokens, position, steps) == run_position(t1, p1, seq![NavStep::Prev]));
    assert(run_position(t1, p1, seq![NavStep::Prev]) == run_position(
        t2,
        p2,
        Seq::<NavStep>::empty(),
    ));
}

/// One paginated list's append-only record of continuation tokens with a
/// movable cursor.
#[derive(Clone, Debug, PartialEq, Eq)]
pub struct TokenHistory {
    tokens: Vec<Option<String>>,
    position: usize,
}

impl TokenHistory {
    /// The recorded tokens, oldest first; index 0 is the start of the list.
    pub closed spec fn tokens_view(self) -> Seq<Option<String>> {
        self.tokens@
    }

    /// The cursor: the index of the token that fetched the page now shown.
    pub closed spec fn position_view(self) -> int {
        self.position as int
    }

    pub open spec fn well_formed(self) -> bool {
        history_wf(self.tokens_view(), self.position_view())
    }

    /// A history as it stands before anything was loaded: only the
    /// start-of-list entry.
    pub fn new() -> (h: TokenHistory)
        ensures
            h.well_formed(),
            h.tokens_view() == seq![Option::<String>::None],
            h.position_view() == 0,
    {
        TokenHistory { tokens: vec![None], position: 0 }
    }

    pub fn position(&self) -> (p: usize)
        ensures
            p as int == self.position_view(),
    {
        self.position
    }

    pub fn len(&self) -> (n: usize)
        ensures
            n as int == self.tokens_view().len(),
    {
        self.tokens.len()
    }

    /// The token that fetched the page currently shown; a reload reuses it.
    pub fn current_token(&self) -> (t: Option<String>)
        requires
            self.well_formed(),
        ensures
            t == self.tokens_view()[self.position_view()],
    {
        match &self.tokens[self.position] {
            Some(s) => Some(s.clone()),
            None => None,
        }
    }

    /// The token recorded for the page after the current one, or `None` when
    /// the cursor is at the tail and no forward token is known.
    pub fn next_token(&self) -> (t: Option<String>)
        requires
            self.well_formed(),
        ensures
            t == if self.position_view() + 1 < self.tokens_view().len() {
                self.tokens_view()[self.position_view() + 1]
            } else {
                Option::<String>::None
            },
    {
        let n = self.tokens.len();
        if self.position + 1 < n {
            match &self.tokens[self.position + 1] {
                Some(s) => Some(s.clone()),
                None => None,
            }
        } else {
            None
        }
    }

    /// The token recorded for the page before the current one, or `None`
    /// when the cursor is at the start of the list.
    pub fn prev_token(&self) -> (t: Option<String>)
        requires
            self.well_formed(),
        ensures
            t == if self.position_view() == 0 {
                Option::<String>::None
            } else {
                self.tokens_view()[self.position_view() - 1]
            },
    {
        if self.position == 0 {
            None
        } else {
            match &self.tokens[self.position - 1] {
                Some(s) => Some(s.clone()),
                None => None,
            }
        }
    }

    /// A copy of the whole recorded token sequence.
    pub fn tokens(&self) -> (r: Vec<Option<String>>)
        ensures
            r@ == self.tokens_view(),
    {
        let mut r: Vec<Option<String>> = Vec::new();
        let n = self.tokens.len();
        let mut i: usize = 0;
        while i < n
            invariant
                0 <= i <= n,
                n == self.tokens@.len(),
                r@ =~= self.tokens@.subrange(0, i as int),
            decreases n - i,
        {
            let entry = match &self.tokens[i] {
                Some(s) => Some(s.clone()),
                None => None,
            };
            r.push(entry);
            i = i + 1;
            proof {
                assert(r@ =~= self.tokens@.subrange(0, i as int));
            }
        }
        proof {
            assert(r@ =~= self.tokens@);
        }
        r
    }

    /// Whether a token for the page after the current one is recorded, so a
    /// forward move may be issued at all.
    pub fn can_advance(&self) -> (r: bool)
        ensures
            r == (self.position_view() + 1 < self.tokens_view().len()),
    {
        let n = self.tokens.len();
        n >= 1 && self.position < n - 1
    }

    /// Record the outcome of a fresh load: the history starts over with the
    /// start-of-list entry, the returned continuation token (if any) behind
    /// it, and the cursor at the start.
    pub fn apply_load(&mut self, returned: Option<String>)
        ensures
            final(self).well_formed(),
            final(self).tokens_view() == loaded_tokens(returned),
            final(self).position_view() == 0,
    {
        let mut v: Vec<Option<String>> = vec![None];
        if returned.is_some() {
            v.push(returned);
        }
        self.tokens = v;
        self.position = 0;
    }

    /// Record the outcome of a forward move. The fetch was issued with the
    /// already-recorded token for the next page; the cursor advances, and
    /// the returned token is appended only when the move left from the tail
    /// and the server gave a further token.
    pub fn apply_next(&mut self, returned: Option<String>)
        requires
            old(self).well_formed(),
            old(self).position_view() + 1 < old(self).tokens_view().len(),
        ensures
            final(self).well_formed(),
            final(self).position_view() == old(self).position_view() + 1,
            final(self).tokens_view() == step_tokens(
                old(self).tokens_view(),
                old(self).position_view(),
                NavStep::Next(returned),
            ),
            final(self).position_view() == step_position(
                old(self).tokens_view(),
                old(self).position_view(),
                NavStep::Next(returned),
            ),
    {
        let n = self.tokens.len();
        let at_tail = self.position + 2 == n;
        if at_tail && returned.is_some() {
            self.tokens.push(returned);
        }
        self.position = self.position + 1;
    }

    /// Record a backward move: the cursor steps back and nothing else
    /// changes; at the start of the list this is a no-op, so stepping back
    /// there leaves the history exactly as it was.
    pub fn apply_prev(&mut self)
        requires
            old(self).well_formed(),
        ensures
            final(self).well_formed(),
            final(self).tokens_view() == old(self).tokens_view(),
            final(self).position_view() == step_position(
                old(self).tokens_view(),
                old(self).position_view(),
                NavStep::Prev,
            ),
            old(self).position_view() == 0 ==> *final(self) == *old(self),
    {
        if self.position > 0 {
            self.position = self.position - 1;
        }
    }
}

} // verus!
