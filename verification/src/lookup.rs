//! The lookup as a state machine: what to do next, given what just happened.
//!
//! The machine does no work of its own. It names the next request to make
//! (read the cache, ask the upstream, read the body, write the cache) and is
//! told how that request ended; whoever drives it does the reading and the
//! sending. One lookup makes at most one upstream attempt, and writes the
//! cache only with a result that the upstream sent with its success status
//! and that could be read.

use crate::model::{SearchResult, SearchResultView};
use vstd::prelude::*;

verus! {

/// Seconds for which a freshly fetched result is cached.
pub const CACHE_TTL_SECONDS: u64 = 60;

/// The one upstream status whose body is read and cached.
pub const SUCCESS_STATUS: u16 = 200;

/// Why a lookup gave no result.
#[derive(Clone, Copy, Debug, PartialEq, Eq, Structural)]
pub enum LookupError {
    /// The upstream answered with its success status, but the body could not
    /// be read as a result.
    MalformedUpstreamResponse,
    /// The upstream could not be reached.
    UpstreamUnavailable,
}

/// How a lookup ended.
#[derive(Debug, PartialEq, Eq)]
pub enum Reply {
    /// The cache held the result.
    Cached(SearchResult),
    /// The upstream sent the result, and it has been written to the cache.
    Fresh(SearchResult),
    /// The upstream answered with another status than success: its response
    /// goes to the caller as it came.
    PassThrough { status: u16 },
    /// No result.
    Failed(LookupError),
}

/// The view of a [`Reply`].
pub ghost enum ReplyView {
    Cached(SearchResultView),
    Fresh(SearchResultView),
    PassThrough { status: u16 },
    Failed(LookupError),
}

impl View for Reply {
    type V = ReplyView;

    open spec fn view(&self) -> ReplyView {
        match self {
            Reply::Cached(result) => ReplyView::Cached(result@),
            Reply::Fresh(result) => ReplyView::Fresh(result@),
            Reply::PassThrough { status } => ReplyView::PassThrough { status: *status },
            Reply::Failed(error) => ReplyView::Failed(*error),
        }
    }
}

/// How a request of the machine ended.
#[derive(Debug, PartialEq, Eq)]
pub enum Event {
    /// The cache held a readable, unexpired value for the key.
    CacheHit(SearchResult),
    /// The cache held nothing for the key, or what it held had expired.
    CacheAbsent,
    /// The cache held something for the key that could not be read as a result.
    CacheUnreadable,
    /// The upstream could not be reached.
    UpstreamUnreachable,
    /// The upstream answered, with this status.
    UpstreamStatus(u16),
    /// The body of the upstream's answer was read as this result.
    BodyParsed(SearchResult),
    /// The body of the upstream's answer could not be read as a result.
    BodyUnparsable,
    /// The cache has taken the value.
    Stored,
}

/// The view of an [`Event`].
pub ghost enum EventView {
    CacheHit(SearchResultView),
    CacheAbsent,
    CacheUnreadable,
    UpstreamUnreachable,
    UpstreamStatus(u16),
    BodyParsed(SearchResultView),
    BodyUnparsable,
    Stored,
}

impl View for Event {
    type V = EventView;

    open spec fn view(&self) -> EventView {
        match self {
            Event::CacheHit(result) => EventView::CacheHit(result@),
            Event::CacheAbsent => EventView::CacheAbsent,
            Event::CacheUnreadable => EventView::CacheUnreadable,
            Event::UpstreamUnreachable => EventView::UpstreamUnreachable,
            Event::UpstreamStatus(status) => EventView::UpstreamStatus(*status),
            Event::BodyParsed(result) => EventView::BodyParsed(result@),
            Event::BodyUnparsable => EventView::BodyUnparsable,
            Event::Stored => EventView::Stored,
        }
    }
}

/// What the machine asks for next.
#[derive(Debug, PartialEq, Eq)]
pub enum Action {
    /// Read the cache at `key`.
    ReadCache { key: String },
    /// Ask the upstream for `keyword`, once.
    Fetch { keyword: String },
    /// Read the body of the upstream's answer as a result.
    ReadBody,
    /// Write `value` to the cache at `key`, to expire after `ttl_seconds`.
    Store { key: String, value: SearchResult, ttl_seconds: u64 },
    /// Nothing more: hand `Reply` to the caller.
    Finish(Reply),
}

/// The view of an [`Action`].
pub ghost enum ActionView {
    ReadCache { key: Seq<char> },
    Fetch { keyword: Seq<char> },
    ReadBody,
    Store { key: Seq<char>, value: SearchResultView, ttl_seconds: u64 },
    Finish(ReplyView),
}

impl View for Action {
    type V = ActionView;

    open spec fn view(&self) -> ActionView {
        match self {
            Action::ReadCache { key } => ActionView::ReadCache { key: key@ },
            Action::Fetch { keyword } => ActionView::Fetch { keyword: keyword@ },
            Action::ReadBody => ActionView::ReadBody,
            Action::Store { key, value, ttl_seconds } => ActionView::Store {
                key: key@,
                value: value@,
                ttl_seconds: *ttl_seconds,
            },
            Action::Finish(reply) => ActionView::Finish(reply@),
        }
    }
}

/// Where a lookup stands: which answer it waits for.
#[derive(Debug, PartialEq, Eq)]
pub enum Lookup {
    /// Waiting for the cache to be read.
    CacheCheck { keyword: String },
    /// Waiting for the upstream.
    Fetching { keyword: String },
    /// Waiting for the body of the upstream's answer.
    ParseAndCache { keyword: String },
    /// Waiting for the cache to take `value`.
    Storing { value: SearchResult },
    /// Finished: the reply has been given.
    Done,
}

/// The view of a [`Lookup`].
pub ghost enum LookupView {
    CacheCheck { keyword: Seq<char> },
    Fetching { keyword: Seq<char> },
    ParseAndCache { keyword: Seq<char> },
    Storing { value: SearchResultView },
    Done,
}

impl View for Lookup {
    type V = LookupView;

    open spec fn view(&self) -> LookupView {
        match self {
            Lookup::CacheCheck { keyword } => LookupView::CacheCheck { keyword: keyword@ },
            Lookup::Fetching { keyword } => LookupView::Fetching { keyword: keyword@ },
            Lookup::ParseAndCache { keyword } => LookupView::ParseAndCache { keyword: keyword@ },
            Lookup::Storing { value } => LookupView::Storing { value: value@ },
            Lookup::Done => LookupView::Done,
        }
    }
}

/// The key under which the result for `keyword` is cached: the keyword
/// itself, character for character.
pub open spec fn key_of(keyword: Seq<char>) -> Seq<char> {
    keyword
}

/// The action that opens a lookup of `keyword`, and the state it leaves.
pub open spec fn opening(keyword: Seq<char>) -> (LookupView, ActionView) {
    (LookupView::CacheCheck { keyword }, ActionView::ReadCache { key: key_of(keyword) })
}

/// The machine's one rule: the state and action that follow `event` in
/// `state`, or `None` where `event` is not the answer that `state` waits for.
pub open spec fn transition(state: LookupView, event: EventView) -> Option<
    (LookupView, ActionView),
> {
    match state {
        LookupView::CacheCheck { keyword } => match event {
            EventView::CacheHit(result) => Some(
                (LookupView::Done, ActionView::Finish(ReplyView::Cached(result))),
            ),
            EventView::CacheAbsent | EventView::CacheUnreadable => Some(
                (LookupView::Fetching { keyword }, ActionView::Fetch { keyword }),
            ),
            _ => None,
        },
        LookupView::Fetching { keyword } => match event {
            EventView::UpstreamUnreachable => Some(
                (
                    LookupView::Done,
                    ActionView::Finish(ReplyView::Failed(LookupError::UpstreamUnavailable)),
                ),
            ),
            EventView::UpstreamStatus(status) => if status == SUCCESS_STATUS {
                Some((LookupView::ParseAndCache { keyword }, ActionView::ReadBody))
            } else {
                Some((LookupView::Done, ActionView::Finish(ReplyView::PassThrough { status })))
            },
            _ => None,
        },
        LookupView::ParseAndCache { keyword } => match event {
            EventView::BodyParsed(result) => Some(
                (
                    LookupView::Storing { value: result },
                    ActionView::Store {
                        key: key_of(keyword),
                        value: result,
                        ttl_seconds: CACHE_TTL_SECONDS,
                    },
                ),
            ),
            EventView::BodyUnparsable => Some(
                (
                    LookupView::Done,
                    ActionView::Finish(ReplyView::Failed(LookupError::MalformedUpstreamResponse)),
                ),
            ),
            _ => None,
        },
        LookupView::Storing { value } => match event {
            EventView::Stored => Some(
                (LookupView::Done, ActionView::Finish(ReplyView::Fresh(value))),
            ),
            _ => None,
        },
        LookupView::Done => None,
    }
}

/// The state and action that the machine gives for `event` in `state`: those
/// of [`transition`], and where there is none, the state as it was and no
/// action.
pub open spec fn after(state: LookupView, event: EventView) -> (LookupView, Option<ActionView>) {
    match transition(state, event) {
        Some((next, action)) => (next, Some(action)),
        None => (state, None),
    }
}

/// The view of an action that may be missing.
pub open spec fn action_view(action: Option<Action>) -> Option<ActionView> {
    match action {
        Some(action) => Some(action@),
        None => None,
    }
}

/// The cache key for `keyword`: the keyword as it is. Nothing is trimmed and
/// no case is folded.
pub fn cache_key(keyword: &str) -> (key: String)
    ensures
        key@ == key_of(keyword@),
{
    keyword.to_owned()
}

impl Lookup {
    /// Opens a lookup of `keyword`. Any keyword will do, the empty one too.
    pub fn start(keyword: &str) -> (opened: (Lookup, Action))
        ensures
            (opened.0@, opened.1@) == opening(keyword@),
    {
        let key = cache_key(keyword);
        (Lookup::CacheCheck { keyword: keyword.to_owned() }, Action::ReadCache { key })
    }

    /// Takes the answer to the request that is pending and gives the next
    /// one. An event that is not such an answer changes nothing and gives no
    /// action.
    pub fn step(self, event: Event) -> (next: (Lookup, Option<Action>))
        ensures
            (next.0@, action_view(next.1)) == after(self@, event@),
    {
        match self {
            Lookup::CacheCheck { keyword } => match event {
                Event::CacheHit(result) => (
                    Lookup::Done,
                    Some(Action::Finish(Reply::Cached(result))),
                ),
                Event::CacheAbsent | Event::CacheUnreadable => {
                    let asked = keyword.clone();
                    (Lookup::Fetching { keyword }, Some(Action::Fetch { keyword: asked }))
                },
                _ => (Lookup::CacheCheck { keyword }, None),
            },
            Lookup::Fetching { keyword } => match event {
                Event::UpstreamUnreachable => (
                    Lookup::Done,
                    Some(Action::Finish(Reply::Failed(LookupError::UpstreamUnavailable))),
                ),
                Event::UpstreamStatus(status) => if status == SUCCESS_STATUS {
                    (Lookup::ParseAndCache { keyword }, Some(Action::ReadBody))
                } else {
                    (Lookup::Done, Some(Action::Finish(Reply::PassThrough { status })))
                },
                _ => (Lookup::Fetching { keyword }, None),
            },
            Lookup::ParseAndCache { keyword } => match event {
                Event::BodyParsed(result) => {
                    let value = result.clone();
                    let key = cache_key(keyword.as_str());
                    (
                        Lookup::Storing { value: result },
                        Some(Action::Store { key, value, ttl_seconds: CACHE_TTL_SECONDS }),
                    )
                },
                Event::BodyUnparsable => (
                    Lookup::Done,
                    Some(Action::Finish(Reply::Failed(LookupError::MalformedUpstreamResponse))),
                ),
                _ => (Lookup::ParseAndCache { keyword }, None),
            },
            Lookup::Storing { value } => match event {
                Event::Stored => (Lookup::Done, Some(Action::Finish(Reply::Fresh(value)))),
                _ => (Lookup::Storing { value }, None),
            },
            Lookup::Done => (Lookup::Done, None),
        }
    }

    /// Whether the lookup has given its reply.
    pub fn is_done(&self) -> (done: bool)
        ensures
            done == (self@ is Done),
    {
        match self {
            Lookup::Done => true,
            _ => false,
        }
    }
}

} // verus!
