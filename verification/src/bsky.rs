//! What the remote-service glue decides locally: the web address of a post,
//! the record key inside an at-uri, and which way a like or repost toggle
//! must go. The network calls themselves happen outside this crate; the
//! worker is handed these decisions as plain values.

use vstd::prelude::*;

use crate::state::Post;
use crate::text::push_char;

verus! {

/// The characters after the last '/' of `s`; all of `s` when it has none.
pub open spec fn after_last_slash(s: Seq<char>) -> Seq<char>
    decreases s.len(),
{
    if s.len() == 0 {
        s
    } else if s[s.len() - 1] == '/' {
        Seq::empty()
    } else {
        after_last_slash(s.drop_last()).push(s.last())
    }
}

/// The web address of a post, built from its author's handle and the record
/// key of its at-uri.
pub open spec fn url_view(handle: Seq<char>, uri: Seq<char>) -> Seq<char> {
    "https://bsky.app/profile/"@ + handle + "/post/"@ + after_last_slash(uri)
}

/// The record key of an at-uri: its last '/'-separated segment.
pub fn uri_to_rkey(uri: String) -> (r: Option<String>)
    ensures
        match r {
            Some(t) => t@ == after_last_slash(uri@),
            None => false,
        },
{
    let s = uri.as_str();
    let n = s.unicode_len();
    let mut out = String::new();
    let mut i: usize = 0;
    while i < n
        invariant
            0 <= i <= n,
            n == uri@.len(),
            s@ == uri@,
            out@ == after_last_slash(uri@.subrange(0, i as int)),
        decreases n - i,
    {
        let c = s.get_char(i);
        if c == '/' {
            out = String::new();
        } else {
            push_char(&mut out, c);
        }
        i = i + 1;
        proof {
            assert(uri@.subrange(0, i as int).drop_last() =~= uri@.subrange(0, i as int - 1));
        }
    }
    proof {
        assert(uri@.subrange(0, n as int) =~= uri@);
    }
    Some(out)
}

/// The web address of the post at `uri` by the author with `handle`.
pub fn get_url(handle: String, uri: String) -> (r: Option<String>)
    ensures
        match r {
            Some(u) => u@ == url_view(handle@, uri@),
            None => false,
        },
{
    let mut u = String::from_str("https://bsky.app/profile/");
    u.append(handle.as_str());
    u.append("/post/");
    match uri_to_rkey(uri) {
        Some(id) => {
            u.append(id.as_str());
            Some(u)
        },
        None => None,
    }
}

/// What a like or repost toggle must do: nothing when the viewer state is
/// unknown, delete the user's existing record when there is one, create a
/// new record otherwise.
#[derive(Debug, Clone, PartialEq, Eq)]
pub enum ToggleAction {
    Skip,
    Create { cid: String, uri: String },
    Delete { rkey: String },
}

/// Which way the like toggle goes for this post: a post the user already
/// likes gets its like record deleted, any other gets one created.
pub fn toggle_like_plan(post: &Post) -> (r: ToggleAction)
    ensures
        post.viewer is None ==> r == ToggleAction::Skip,
        post.viewer matches Some(v) ==> (v.like matches Some(like_uri) ==> (r matches
            ToggleAction::Delete { rkey } && rkey@ == after_last_slash(like_uri@))),
        post.viewer matches Some(v) ==> (v.like is None ==> r == (ToggleAction::Create {
            cid: post.cid,
            uri: post.uri,
        })),
{
    match &post.viewer {
        None => ToggleAction::Skip,
        Some(v) => match &v.like {
            Some(like_uri) => match uri_to_rkey(like_uri.clone()) {
                Some(rkey) => ToggleAction::Delete { rkey },
                None => ToggleAction::Skip,
            },
            None => ToggleAction::Create { cid: post.cid.clone(), uri: post.uri.clone() },
        },
    }
}

/// Which way the repost toggle goes for this post: a post the user already
/// reposted gets its repost record deleted, any other gets one created.
pub fn toggle_repost_plan(post: &Post) -> (r: ToggleAction)
    ensures
        post.viewer is None ==> r == ToggleAction::Skip,
        post.viewer matches Some(v) ==> (v.repost matches Some(repost_uri) ==> (r matches
            ToggleAction::Delete { rkey } && rkey@ == after_last_slash(repost_uri@))),
        post.viewer matches Some(v) ==> (v.repost is None ==> r == (ToggleAction::Create {
            cid: post.cid,
            uri: post.uri,
        })),
{
    match &post.viewer {
        None => ToggleAction::Skip,
        Some(v) => match &v.repost {
            Some(repost_uri) => match uri_to_rkey(repost_uri.clone()) {
                Some(rkey) => ToggleAction::Delete { rkey },
                None => ToggleAction::Skip,
            },
            None => ToggleAction::Create { cid: post.cid.clone(), uri: post.uri.clone() },
        },
    }
}

} // verus!
