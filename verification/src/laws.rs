//! What holds of every lookup, proved from the definitions in the other
//! modules.

use crate::lookup::{
    key_of, opening, transition, ActionView, EventView, LookupError, LookupView, ReplyView,
    CACHE_TTL_SECONDS, SUCCESS_STATUS,
};
use crate::model::SearchResultView;
use crate::service::{resolution, settlement, FetchOutcomeView, Resolution};
use crate::store::{elapsed, lookup, stored, EntryView};
use vstd::prelude::*;

verus! {

/// How many answers a lookup in `state` can still take.
pub open spec fn steps_left(state: LookupView) -> nat {
    match state {
        LookupView::CacheCheck { .. } => 4,
        LookupView::Fetching { .. } => 3,
        LookupView::ParseAndCache { .. } => 2,
        LookupView::Storing { .. } => 1,
        LookupView::Done => 0,
    }
}

/// How a request of the machine ends when it is put to a store and an
/// upstream: the event to report, and the store afterwards. A read finds
/// what [`lookup`] finds, a write is [`stored`], and the upstream answers
/// with `outcome`, first by its status and then by its body. The last action
/// of a lookup asks for nothing, so there is nothing to report.
pub open spec fn performed(
    action: ActionView,
    entries: Map<Seq<char>, EntryView>,
    now: nat,
    outcome: FetchOutcomeView,
) -> Option<(EventView, Map<Seq<char>, EntryView>)> {
    match action {
        ActionView::ReadCache { key } => match lookup(entries, key, now) {
            Some(cached) => Some((EventView::CacheHit(cached), entries)),
            None => Some((EventView::CacheAbsent, entries)),
        },
        ActionView::Fetch { .. } => match outcome {
            FetchOutcomeView::Unreachable => Some((EventView::UpstreamUnreachable, entries)),
            FetchOutcomeView::Responded { status, .. } => Some(
                (EventView::UpstreamStatus(status), entries),
            ),
        },
        ActionView::ReadBody => match outcome {
            FetchOutcomeView::Responded { body: Some(result), .. } => Some(
                (EventView::BodyParsed(result), entries),
            ),
            _ => Some((EventView::BodyUnparsable, entries)),
        },
        ActionView::Store { key, value, ttl_seconds } => Some(
            (EventView::Stored, stored(entries, key, value, ttl_seconds as nat, now)),
        ),
        ActionView::Finish(_) => None,
    }
}

/// Where the machine ends when each request it makes is performed as
/// [`performed`] says and reported back: the reply it hands out and the store
/// by then, or `None` if it ever refuses the answer to its own request.
pub open spec fn driven(
    state: LookupView,
    action: ActionView,
    entries: Map<Seq<char>, EntryView>,
    now: nat,
    outcome: FetchOutcomeView,
) -> Option<Resolution>
    decreases steps_left(state),
{
    match action {
        ActionView::Finish(reply) => Some(Resolution { reply, entries }),
        _ => match performed(action, entries, now, outcome) {
            Some((event, entries_after)) => match transition(state, event) {
                Some((next, asked)) => driven(next, asked, entries_after, now, outcome),
                None => None,
            },
            None => None,
        },
    }
}

/// Driving the machine is the lookup. From its opening, with every request
/// performed and reported, the machine never refuses an answer and ends with
/// the reply and the store of [`resolution`].
pub proof fn law_machine_resolves(
    entries: Map<Seq<char>, EntryView>,
    keyword: Seq<char>,
    now: nat,
    outcome: FetchOutcomeView,
)
    ensures
        driven(opening(keyword).0, opening(keyword).1, entries, now, outcome) == Some(
            resolution(entries, keyword, now, outcome),
        ),
{
    reveal_with_fuel(driven, 6);
}

/// What one lookup has cached, the next one finds. After a miss that the
/// upstream answers with a readable result under its success status, a
/// second lookup of the keyword, while fewer than [`CACHE_TTL_SECONDS`] have
/// passed, replies with that result from the cache and changes nothing,
/// whatever the upstream would answer by then.
pub proof fn law_second_lookup_hits(
    entries: Map<Seq<char>, EntryView>,
    keyword: Seq<char>,
    now: nat,
    result: SearchResultView,
    later: nat,
    second: FetchOutcomeView,
)
    requires
        lookup(entries, key_of(keyword), now) is None,
        elapsed(now, later) < CACHE_TTL_SECONDS,
    ensures
        ({
            let first = FetchOutcomeView::Responded { status: SUCCESS_STATUS, body: Some(result) };
            let filled = resolution(entries, keyword, now, first).entries;
            resolution(filled, keyword, later, second) == (Resolution {
                reply: ReplyView::Cached(result),
                entries: filled,
            })
        }),
{
}

/// A hit ends the lookup at once. Where the cache holds a live entry for the
/// keyword, the reply is that entry's value and the store stays as it was,
/// whatever the upstream would have answered; and the machine, given the hit,
/// is done, and a machine that is done asks for nothing more, so the upstream
/// is never asked.
pub proof fn law_hit_short_circuits(
    entries: Map<Seq<char>, EntryView>,
    keyword: Seq<char>,
    now: nat,
    outcome: FetchOutcomeView,
    cached: SearchResultView,
)
    requires
        lookup(entries, key_of(keyword), now) == Some(cached),
    ensures
        resolution(entries, keyword, now, outcome) == (Resolution {
            reply: ReplyView::Cached(cached),
            entries,
        }),
        transition(opening(keyword).0, EventView::CacheHit(cached)) == Some(
            (LookupView::Done, ActionView::Finish(ReplyView::Cached(cached))),
        ),
        forall|event: EventView| transition(LookupView::Done, event) is None,
{
}

/// A miss that the upstream answers with a readable result under its success
/// status fills the cache. The reply is that result, and for as long as
/// fewer than [`CACHE_TTL_SECONDS`] have passed, a read of the keyword finds
/// an equal value.
pub proof fn law_miss_populates(
    entries: Map<Seq<char>, EntryView>,
    keyword: Seq<char>,
    now: nat,
    result: SearchResultView,
    later: nat,
)
    requires
        lookup(entries, key_of(keyword), now) is None,
        elapsed(now, later) < CACHE_TTL_SECONDS,
    ensures
        ({
            let outcome = FetchOutcomeView::Responded {
                status: SUCCESS_STATUS,
                body: Some(result),
            };
            let end = resolution(entries, keyword, now, outcome);
            &&& end.reply == ReplyView::Fresh(result)
            &&& lookup(end.entries, key_of(keyword), later) == Some(result)
        }),
{
}

/// An entry is gone once its time to live has passed: from then on a read of
/// its key finds nothing, and a lookup of it goes to the upstream as if
/// nothing had ever been written.
pub proof fn law_entry_expires(
    entries: Map<Seq<char>, EntryView>,
    keyword: Seq<char>,
    value: SearchResultView,
    ttl_seconds: nat,
    now: nat,
    later: nat,
    outcome: FetchOutcomeView,
)
    requires
        later >= now + ttl_seconds,
    ensures
        ({
            let written = stored(entries, key_of(keyword), value, ttl_seconds, now);
            &&& lookup(written, key_of(keyword), later) is None
            &&& resolution(written, keyword, later, outcome) == settlement(
                written,
                keyword,
                later,
                outcome,
            )
        }),
{
}

/// A write replaces what was under the key whole: of two writes to one key
/// only the later is left, with its own value, time to live and clock.
pub proof fn law_last_write_wins(
    entries: Map<Seq<char>, EntryView>,
    key: Seq<char>,
    first: EntryView,
    second: EntryView,
)
    ensures
        stored(
            stored(entries, key, first.value, first.ttl_seconds, first.written_at),
            key,
            second.value,
            second.ttl_seconds,
            second.written_at,
        ) == stored(entries, key, second.value, second.ttl_seconds, second.written_at),
{
    let twice = stored(
        stored(entries, key, first.value, first.ttl_seconds, first.written_at),
        key,
        second.value,
        second.ttl_seconds,
        second.written_at,
    );
    let once = stored(entries, key, second.value, second.ttl_seconds, second.written_at);
    assert(twice =~= once);
}

/// A write touches one key: what a read of any other key finds, at any time,
/// is what it found before.
pub proof fn law_write_touches_one_key(
    entries: Map<Seq<char>, EntryView>,
    key: Seq<char>,
    value: SearchResultView,
    ttl_seconds: nat,
    now: nat,
    other: Seq<char>,
    later: nat,
)
    requires
        other != key,
    ensures
        lookup(stored(entries, key, value, ttl_seconds, now), other, later) == lookup(
            entries,
            other,
            later,
        ),
{
}

/// A cache entry that cannot be read counts as a miss, not as a failure: the
/// machine asks the upstream for the keyword, just as it does when the cache
/// holds nothing.
pub proof fn law_unreadable_cache_is_a_miss(keyword: Seq<char>)
    ensures
        transition(opening(keyword).0, EventView::CacheUnreadable) == Some(
            (LookupView::Fetching { keyword }, ActionView::Fetch { keyword }),
        ),
        transition(opening(keyword).0, EventView::CacheUnreadable) == transition(
            opening(keyword).0,
            EventView::CacheAbsent,
        ),
{
}

/// An answer under another status than success is passed through and never
/// cached: on a miss the reply carries that status, the store stays as it
/// was, and so a read of the keyword still finds nothing.
pub proof fn law_non_success_passes_through(
    entries: Map<Seq<char>, EntryView>,
    keyword: Seq<char>,
    now: nat,
    status: u16,
    body: Option<SearchResultView>,
)
    requires
        lookup(entries, key_of(keyword), now) is None,
        status != SUCCESS_STATUS,
    ensures
        ({
            let end = resolution(
                entries,
                keyword,
                now,
                FetchOutcomeView::Responded { status, body },
            );
            &&& end.reply == ReplyView::PassThrough { status }
            &&& end.entries == entries
            &&& lookup(end.entries, key_of(keyword), now) is None
        }),
{
}

/// The cache key is the keyword, character for character: the same keyword
/// always gives the same key, and two keywords that differ in anything, be
/// it only in case or in a space, give different keys. It is the key that
/// the machine reads at the start and the key that it writes a fresh result
/// under.
pub proof fn law_key_is_keyword(a: Seq<char>, b: Seq<char>, result: SearchResultView)
    ensures
        key_of(a) == a,
        key_of(a) == key_of(b) <==> a == b,
        opening(a).1 == (ActionView::ReadCache { key: a }),
        transition(LookupView::ParseAndCache { keyword: a }, EventView::BodyParsed(result))
            == Some(
            (
                LookupView::Storing { value: result },
                ActionView::Store { key: a, value: result, ttl_seconds: CACHE_TTL_SECONDS },
            ),
        ),
{
}

/// An upstream that cannot be reached fails the lookup and leaves the cache
/// alone: on a miss the reply is `UpstreamUnavailable` and the store stays as
/// it was.
pub proof fn law_unreachable_upstream_fails(
    entries: Map<Seq<char>, EntryView>,
    keyword: Seq<char>,
    now: nat,
)
    requires
        lookup(entries, key_of(keyword), now) is None,
    ensures
        resolution(entries, keyword, now, FetchOutcomeView::Unreachable) == (Resolution {
            reply: ReplyView::Failed(LookupError::UpstreamUnavailable),
            entries,
        }),
{
}

/// A body that cannot be read under the success status fails the lookup and
/// leaves the cache alone.
pub proof fn law_malformed_body_fails(
    entries: Map<Seq<char>, EntryView>,
    keyword: Seq<char>,
    now: nat,
)
    requires
        lookup(entries, key_of(keyword), now) is None,
    ensures
        resolution(
            entries,
            keyword,
            now,
            FetchOutcomeView::Responded { status: SUCCESS_STATUS, body: None },
        ) == (Resolution {
            reply: ReplyView::Failed(LookupError::MalformedUpstreamResponse),
            entries,
        }),
{
}

/// Every answer that the machine takes brings it nearer to its end, so a
/// lookup takes at most four answers; and it is done exactly when it hands
/// out its reply.
pub proof fn law_lookup_advances(
    state: LookupView,
    event: EventView,
    next: LookupView,
    action: ActionView,
)
    requires
        transition(state, event) == Some((next, action)),
    ensures
        steps_left(next) < steps_left(state),
        action is Finish <==> next is Done,
{
}

/// The upstream is asked only on a miss, straight after the cache was read,
/// and for the keyword of the lookup. As no answer leads back to that state,
/// one lookup asks at most once.
pub proof fn law_single_attempt(
    state: LookupView,
    event: EventView,
    next: LookupView,
    asked: Seq<char>,
)
    requires
        transition(state, event) == Some((next, ActionView::Fetch { keyword: asked })),
    ensures
        state == (LookupView::CacheCheck { keyword: asked }),
        event is CacheAbsent || event is CacheUnreadable,
        forall|from: LookupView, by: EventView|
            (#[trigger] transition(from, by)) matches Some((to, _)) ==> !(to is CacheCheck),
{
}

/// The cache is written only with a result that the upstream sent under its
/// success status and that could be read: the machine asks for a write in
/// no other state and on no other event, and the write is that result, under
/// the keyword, for [`CACHE_TTL_SECONDS`]. The body is read only under the
/// success status.
pub proof fn law_store_only_after_success(
    state: LookupView,
    event: EventView,
    next: LookupView,
    action: ActionView,
)
    requires
        transition(state, event) == Some((next, action)),
        action is Store,
    ensures
        state matches LookupView::ParseAndCache { keyword } && event matches EventView::BodyParsed(
            result,
        ) && action == (ActionView::Store {
            key: key_of(keyword),
            value: result,
            ttl_seconds: CACHE_TTL_SECONDS,
        }),
        forall|from: LookupView, status: u16|
            (#[trigger] transition(from, EventView::UpstreamStatus(status))) matches Some(
                (to, _),
            ) ==> (to is ParseAndCache <==> status == SUCCESS_STATUS),
{
}

} // verus!
