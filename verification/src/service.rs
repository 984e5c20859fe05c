//! The lookup run to its end against a [`CacheStore`]: read the store, on a
//! miss ask the upstream once, keep what it sent, and reply.
//!
//! [`resolve`] drives the [`Lookup`] machine and performs each request it
//! makes; the contracts say what that comes to, without the machine.

use crate::lookup::{
    key_of, Action, Event, Lookup, LookupError, Reply, ReplyView, CACHE_TTL_SECONDS,
    SUCCESS_STATUS,
};
use crate::model::{SearchResult, SearchResultView};
use crate::store::{lookup, stored, CacheStore, EntryView};
use vstd::pervasive::unreached;
use vstd::prelude::*;

verus! {

/// What one attempt at the upstream gave.
#[derive(Debug, PartialEq, Eq)]
pub enum FetchOutcome {
    /// The upstream could not be reached.
    Unreachable,
    /// The upstream answered with `status`. `body` is its body read as a
    /// result, and `None` where it cannot be read as one; it is looked at
    /// only under the success status.
    Responded { status: u16, body: Option<SearchResult> },
}

/// The view of a [`FetchOutcome`].
pub ghost enum FetchOutcomeView {
    Unreachable,
    Responded { status: u16, body: Option<SearchResultView> },
}

impl View for FetchOutcome {
    type V = FetchOutcomeView;

    open spec fn view(&self) -> FetchOutcomeView {
        match self {
            FetchOutcome::Unreachable => FetchOutcomeView::Unreachable,
            FetchOutcome::Responded { status, body } => FetchOutcomeView::Responded {
                status: *status,
                body: match body {
                    Some(result) => Some(result@),
                    None => None,
                },
            },
        }
    }
}

/// A reply, and the store as the lookup left it.
pub ghost struct Resolution {
    pub reply: ReplyView,
    pub entries: Map<Seq<char>, EntryView>,
}

/// How a lookup that missed the cache ends, given what the upstream gave.
/// Only a result that came with the success status and could be read is
/// written, under the keyword, for [`CACHE_TTL_SECONDS`]; everything else
/// leaves the store as it was.
pub open spec fn settlement(
    entries: Map<Seq<char>, EntryView>,
    keyword: Seq<char>,
    now: nat,
    outcome: FetchOutcomeView,
) -> Resolution {
    match outcome {
        FetchOutcomeView::Unreachable => Resolution {
            reply: ReplyView::Failed(LookupError::UpstreamUnavailable),
            entries,
        },
        FetchOutcomeView::Responded { status, body } => if status != SUCCESS_STATUS {
            Resolution { reply: ReplyView::PassThrough { status }, entries }
        } else {
            match body {
                Some(result) => Resolution {
                    reply: ReplyView::Fresh(result),
                    entries: stored(
                        entries,
                        key_of(keyword),
                        result,
                        CACHE_TTL_SECONDS as nat,
                        now,
                    ),
                },
                None => Resolution {
                    reply: ReplyView::Failed(LookupError::MalformedUpstreamResponse),
                    entries,
                },
            }
        },
    }
}

/// How a lookup of `keyword` at `now` ends, where `outcome` is what the
/// upstream gives if it is asked. A live entry under the keyword is the
/// reply, and nothing else happens; otherwise the lookup ends as
/// [`settlement`] says.
pub open spec fn resolution(
    entries: Map<Seq<char>, EntryView>,
    keyword: Seq<char>,
    now: nat,
    outcome: FetchOutcomeView,
) -> Resolution {
    match lookup(entries, key_of(keyword), now) {
        Some(cached) => Resolution { reply: ReplyView::Cached(cached), entries },
        None => settlement(entries, keyword, now, outcome),
    }
}

/// Carries a lookup that waits for the upstream to its end, with `outcome`
/// as the upstream's answer.
fn conclude(lookup: Lookup, store: &mut CacheStore, now: u64, outcome: FetchOutcome) -> (reply:
    Reply)
    requires
        lookup@ is Fetching,
    ensures
        reply@ == settlement(old(store)@, lookup@->Fetching_keyword, now as nat, outcome@).reply,
        final(store)@ == settlement(
            old(store)@,
            lookup@->Fetching_keyword,
            now as nat,
            outcome@,
        ).entries,
{
    let (answer, body) = match outcome {
        FetchOutcome::Unreachable => (Event::UpstreamUnreachable, None),
        FetchOutcome::Responded { status, body } => (Event::UpstreamStatus(status), body),
    };
    let (lookup, action) = lookup.step(answer);
    match action {
        Some(Action::Finish(reply)) => reply,
        Some(Action::ReadBody) => {
            let read = match body {
                Some(result) => Event::BodyParsed(result),
                None => Event::BodyUnparsable,
            };
            let (lookup, action) = lookup.step(read);
            match action {
                Some(Action::Finish(reply)) => reply,
                Some(Action::Store { key, value, ttl_seconds }) => {
                    store.put(key.as_str(), value, ttl_seconds, now);
                    let (_, action) = lookup.step(Event::Stored);
                    match action {
                        Some(Action::Finish(reply)) => reply,
                        _ => unreached(),
                    }
                },
                _ => unreached(),
            }
        },
        _ => unreached(),
    }
}

/// Ends a lookup of `keyword` that missed the cache, at time `now`, with
/// `outcome` as what the upstream gave: the reply and the store are those of
/// [`settlement`].
pub fn settle(store: &mut CacheStore, keyword: &str, now: u64, outcome: FetchOutcome) -> (reply:
    Reply)
    ensures
        reply@ == settlement(old(store)@, keyword@, now as nat, outcome@).reply,
        final(store)@ == settlement(old(store)@, keyword@, now as nat, outcome@).entries,
{
    conclude(Lookup::Fetching { keyword: keyword.to_owned() }, store, now, outcome)
}

/// Looks `keyword` up at time `now`: in `store` first, and only on a miss
/// through `fetch`, with the keyword as it is.
///
/// On a hit the reply is the cached result and the store is untouched;
/// `fetch` need not even be callable then, so it is not called. On a miss
/// `fetch` is called, once, and the reply and the store are those of
/// [`settlement`] for what it returned.
pub fn resolve<F: FnOnce(&str) -> FetchOutcome>(
    store: &mut CacheStore,
    keyword: &str,
    now: u64,
    fetch: F,
) -> (reply: Reply)
    requires
        lookup(old(store)@, key_of(keyword@), now as nat) is None ==> call_requires(
            fetch,
            (keyword,),
        ),
    ensures
        match lookup(old(store)@, key_of(keyword@), now as nat) {
            Some(cached) => reply@ == ReplyView::Cached(cached) && final(store)@ == old(store)@,
            None => exists|outcome: FetchOutcome|
                {
                    &&& call_ensures(fetch, (keyword,), outcome)
                    &&& reply@ == settlement(old(store)@, keyword@, now as nat, outcome@).reply
                    &&& final(store)@ == settlement(
                        old(store)@,
                        keyword@,
                        now as nat,
                        outcome@,
                    ).entries
                },
        },
{
    let (lookup, action) = Lookup::start(keyword);
    let read = match action {
        Action::ReadCache { key } => match store.get(key.as_str(), now) {
            Some(cached) => Event::CacheHit(cached),
            None => Event::CacheAbsent,
        },
        _ => unreached(),
    };
    let (lookup, action) = lookup.step(read);
    match action {
        Some(Action::Finish(reply)) => reply,
        Some(Action::Fetch { keyword: asked }) => {
            assert(asked@ == keyword@);
            let outcome = fetch(keyword);
            conclude(lookup, store, now, outcome)
        },
        _ => unreached(),
    }
}

} // verus!
