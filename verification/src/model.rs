//! The mathematical model of the shortener: abstract views of links, events
//! and statistics, the replay function that folds an event stream into a link
//! snapshot, and the consistency relation between the event log and the
//! statistics projection.

use vstd::prelude::*;

verus! {

/// Abstract value of a [`crate::ShortLink`]: the alias and the target URL as
/// character sequences.
pub ghost struct ShortLinkView {
    pub slug: Seq<char>,
    pub url: Seq<char>,
}

/// Abstract value of a [`crate::Stats`] entry of the projection.
pub ghost struct StatsView {
    pub link: ShortLinkView,
    pub redirects: nat,
}

/// Abstract value of an [`crate::events::EventType`].
pub ghost enum EventTypeView {
    ShortLinkCreated(Seq<char>),
    ShortLinkRedirected,
}

/// Abstract value of an [`crate::events::Event`]: an immutable fact about one
/// alias.
pub ghost struct EventView {
    pub slug: Seq<char>,
    pub event_type: EventTypeView,
}

/// A URL is accepted for shortening when it is non-empty, contains a dot and
/// carries an `http://` or `https://` scheme.
pub open spec fn valid_url(url: Seq<char>) -> bool {
    &&& url.len() > 0
    &&& contains_char(url, '.')
    &&& (starts_with(url, http_prefix()) || starts_with(url, https_prefix()))
}

pub open spec fn contains_char(s: Seq<char>, c: char) -> bool {
    exists|i: int| 0 <= i < s.len() && s[i] == c
}

pub open spec fn starts_with(s: Seq<char>, prefix: Seq<char>) -> bool {
    prefix.len() <= s.len() && s.subrange(0, prefix.len() as int) == prefix
}

pub open spec fn http_prefix() -> Seq<char> {
    "http://"@
}

pub open spec fn https_prefix() -> Seq<char> {
    "https://"@
}

/// The full event stream recorded for `slug`: the empty sequence when the
/// alias is unknown to the log, never an error.
pub open spec fn stream_of(log: Map<Seq<char>, Seq<EventView>>, slug: Seq<char>) -> Seq<EventView> {
    if log.contains_key(slug) {
        log[slug]
    } else {
        Seq::<EventView>::empty()
    }
}

/// The state an aggregate starts from before folding any event: the alias
/// with an empty target URL.
pub open spec fn init_state(slug: Seq<char>) -> ShortLinkView {
    ShortLinkView { slug, url: Seq::<char>::empty() }
}

/// One pure fold step of the aggregate: a creation fact fixes alias and
/// target, a redirect fact leaves the local state unchanged (the counter
/// lives only in the projection).
pub open spec fn apply_event_view(state: ShortLinkView, event: EventView) -> ShortLinkView {
    match event.event_type {
        EventTypeView::ShortLinkCreated(url) => ShortLinkView { slug: event.slug, url },
        EventTypeView::ShortLinkRedirected => state,
    }
}

/// Replaying a whole stream from the empty state: the authoritative link
/// snapshot for an alias is this fold and nothing else.
pub open spec fn replay(slug: Seq<char>, events: Seq<EventView>) -> ShortLinkView
    decreases events.len(),
{
    if events.len() == 0 {
        init_state(slug)
    } else {
        apply_event_view(replay(slug, events.drop_last()), events.last())
    }
}

/// The target URL recorded by the creation fact at the head of a stream.
pub open spec fn stream_created_url(events: Seq<EventView>) -> Seq<char> {
    match events[0].event_type {
        EventTypeView::ShortLinkCreated(url) => url,
        EventTypeView::ShortLinkRedirected => Seq::<char>::empty(),
    }
}

/// A recorded stream is well-formed when it is non-empty, opens with exactly
/// one creation fact carrying a valid URL, continues with redirect facts
/// only, and every fact names the alias it is filed under.
pub open spec fn stream_wf(slug: Seq<char>, events: Seq<EventView>) -> bool {
    &&& events.len() > 0
    &&& events[0].event_type == EventTypeView::ShortLinkCreated(stream_created_url(events))
    &&& valid_url(stream_created_url(events))
    &&& forall|i: int|
        1 <= i < events.len() ==> (#[trigger] events[i]).event_type
            == EventTypeView::ShortLinkRedirected
    &&& forall|i: int| 0 <= i < events.len() ==> (#[trigger] events[i]).slug == slug
}

/// The statistics entry a well-formed stream projects to: the created link
/// and one count per redirect fact.
pub open spec fn stats_of_stream(slug: Seq<char>, events: Seq<EventView>) -> StatsView {
    StatsView {
        link: ShortLinkView { slug, url: stream_created_url(events) },
        redirects: (events.len() - 1) as nat,
    }
}

/// An event the aggregate may hand to the broker: a creation fact only for an
/// alias the log has never seen and only with a valid URL, a redirect fact
/// only for an alias that already has a stream.
pub open spec fn event_admissible(log: Map<Seq<char>, Seq<EventView>>, event: EventView) -> bool {
    match event.event_type {
        EventTypeView::ShortLinkCreated(url) => !log.contains_key(event.slug) && valid_url(url),
        EventTypeView::ShortLinkRedirected => log.contains_key(event.slug),
    }
}

/// How one published event folds into the statistics projection: a creation
/// fact installs a fresh entry with a zero count, a redirect fact increments
/// the existing entry and is a no-op when none exists.
pub open spec fn fold_stats(stats: Map<Seq<char>, StatsView>, event: EventView) -> Map<
    Seq<char>,
    StatsView,
> {
    match event.event_type {
        EventTypeView::ShortLinkCreated(url) => stats.insert(
            event.slug,
            StatsView { link: ShortLinkView { slug: event.slug, url }, redirects: 0 },
        ),
        EventTypeView::ShortLinkRedirected => if stats.contains_key(event.slug) {
            stats.insert(
                event.slug,
                StatsView {
                    link: stats[event.slug].link,
                    redirects: stats[event.slug].redirects + 1,
                },
            )
        } else {
            stats
        },
    }
}

/// Write/read consistency: log and projection know exactly the same aliases,
/// every recorded stream is well-formed, and every projection entry is the
/// fold of its stream.
pub open spec fn projection_consistent(
    log: Map<Seq<char>, Seq<EventView>>,
    stats: Map<Seq<char>, StatsView>,
) -> bool {
    &&& stats.dom() == log.dom()
    &&& forall|s: Seq<char>|
        #[trigger] log.contains_key(s) ==> stream_wf(s, log[s]) && stats.contains_key(s)
            && stats[s] == stats_of_stream(s, log[s])
}

/// The log after one publish: the event appended to its alias's stream.
pub open spec fn publish_log(
    log: Map<Seq<char>, Seq<EventView>>,
    event: EventView,
) -> Map<Seq<char>, Seq<EventView>> {
    log.insert(event.slug, stream_of(log, event.slug).push(event))
}

/// The log after a whole history of publishes, in order.
pub open spec fn publish_log_all(
    log: Map<Seq<char>, Seq<EventView>>,
    history: Seq<EventView>,
) -> Map<Seq<char>, Seq<EventView>>
    decreases history.len(),
{
    if history.len() == 0 {
        log
    } else {
        publish_log(publish_log_all(log, history.drop_last()), history.last())
    }
}

/// The projection after a whole history of publishes, in order.
pub open spec fn fold_stats_all(
    stats: Map<Seq<char>, StatsView>,
    history: Seq<EventView>,
) -> Map<Seq<char>, StatsView>
    decreases history.len(),
{
    if history.len() == 0 {
        stats
    } else {
        fold_stats(fold_stats_all(stats, history.drop_last()), history.last())
    }
}

/// A history every step of which the aggregate could have committed: each
/// event is admissible against the log as it stands when the event arrives.
pub open spec fn admissible_history(
    log: Map<Seq<char>, Seq<EventView>>,
    history: Seq<EventView>,
) -> bool
    decreases history.len(),
{
    history.len() == 0 || (admissible_history(log, history.drop_last()) && event_admissible(
        publish_log_all(log, history.drop_last()),
        history.last(),
    ))
}

/// Appending an admissible event and folding it into the projection keeps
/// the log and the projection consistent: the single fact every mutation
/// relies on.
pub proof fn lemma_publish_preserves_consistency(
    log: Map<Seq<char>, Seq<EventView>>,
    stats: Map<Seq<char>, StatsView>,
    event: EventView,
)
    requires
        projection_consistent(log, stats),
        event_admissible(log, event),
    ensures
        projection_consistent(
            log.insert(event.slug, stream_of(log, event.slug).push(event)),
            fold_stats(stats, event),
        ),
{
    let new_log = log.insert(event.slug, stream_of(log, event.slug).push(event));
    let new_stats = fold_stats(stats, event);
    assert(new_stats.dom() =~= new_log.dom());
    let new_stream = stream_of(log, event.slug).push(event);
    match event.event_type {
        EventTypeView::ShortLinkCreated(url) => {
            assert(new_stream.len() == 1);
            assert(new_stream[0] == event);
            assert(stream_created_url(new_stream) == url);
            assert(stream_wf(event.slug, new_stream));
        },
        EventTypeView::ShortLinkRedirected => {
            let old_stream = log[event.slug];
            assert(new_stream[0] == old_stream[0]);
            assert(stream_created_url(new_stream) == stream_created_url(old_stream));
            assert(forall|i: int|
                1 <= i < new_stream.len() ==> (#[trigger] new_stream[i]).event_type
                    == EventTypeView::ShortLinkRedirected) by {
                assert(forall|i: int|
                    1 <= i < old_stream.len() ==> (#[trigger] old_stream[i]).event_type
                        == EventTypeView::ShortLinkRedirected);
            }
            assert(stream_wf(event.slug, new_stream));
            assert(new_stats[event.slug] == stats_of_stream(event.slug, new_stream));
        },
    }
    assert(forall|s: Seq<char>|
        #[trigger] new_log.contains_key(s) && s != event.slug ==> new_log[s] == log[s]
            && new_stats[s] == stats[s]);
}

/// Replaying a well-formed stream lands exactly on the link its creation
/// fact recorded; replaying an empty stream stays in the initial state.
pub proof fn lemma_replay_wf(slug: Seq<char>, events: Seq<EventView>)
    requires
        stream_wf(slug, events),
    ensures
        replay(slug, events) == (ShortLinkView { slug, url: stream_created_url(events) }),
    decreases events.len(),
{
    if events.len() == 1 {
        assert(events.drop_last().len() == 0);
    } else {
        assert(stream_wf(slug, events.drop_last())) by {
            assert(events.drop_last()[0] == events[0]);
            assert(forall|i: int|
                0 <= i < events.drop_last().len() ==> #[trigger] events.drop_last()[i]
                    == events[i]);
        }
        lemma_replay_wf(slug, events.drop_last());
    }
}

} // verus!
