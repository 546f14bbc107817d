//! The guarantees the engine gives as a whole, stated over the abstract
//! model that the public contracts speak: replay determinism, creation
//! uniqueness, redirect monotonicity and unknown-alias symmetry.

use vstd::prelude::*;

use crate::model::{
    admissible_history, event_admissible, fold_stats, fold_stats_all,
    lemma_publish_preserves_consistency, lemma_replay_wf, projection_consistent, publish_log_all,
    replay, stream_of, EventTypeView, EventView, ShortLinkView, StatsView,
};

verus! {

/// Idempotent replay: folding an alias's full event sequence from the empty
/// state is a pure function of the sequence, so replay yields the same
/// snapshot no matter how many times it is performed. Rehydration reads the
/// broker through a shared reference and therefore cannot change the stream
/// it replays.
pub proof fn lemma_replay_deterministic(
    slug: Seq<char>,
    events: Seq<EventView>,
    first: ShortLinkView,
    second: ShortLinkView,
)
    requires
        first == replay(slug, events),
        second == replay(slug, events),
    ensures
        first == second,
{
}

/// Write/read consistency behind idempotent replay: for a recorded alias,
/// replaying its stream lands exactly on the link the projection stores.
pub proof fn lemma_replay_matches_projection(
    log: Map<Seq<char>, Seq<EventView>>,
    stats: Map<Seq<char>, StatsView>,
    slug: Seq<char>,
)
    requires
        projection_consistent(log, stats),
        log.contains_key(slug),
    ensures
        replay(slug, log[slug]) == stats[slug].link,
{
    lemma_replay_wf(slug, log[slug]);
}

/// Creation uniqueness: appending any event keeps an already recorded alias
/// in the log, so after one successful creation every later
/// `handle_create_short_link` on the same alias meets the first case of its
/// contract and answers `SlugAlreadyInUse`, whatever target URL it carries.
pub proof fn lemma_created_stays_created(
    log: Map<Seq<char>, Seq<EventView>>,
    event: EventView,
    slug: Seq<char>,
)
    requires
        log.contains_key(slug),
    ensures
        log.insert(event.slug, stream_of(log, event.slug).push(event)).contains_key(slug),
{
}

/// Creation uniqueness over any later history: however many events are
/// published after an alias's creation, the alias is still in the log, so
/// every subsequent `handle_create_short_link` on it answers
/// `SlugAlreadyInUse`.
pub proof fn lemma_created_stays_created_forever(
    log: Map<Seq<char>, Seq<EventView>>,
    history: Seq<EventView>,
    slug: Seq<char>,
)
    requires
        log.contains_key(slug),
    ensures
        publish_log_all(log, history).contains_key(slug),
    decreases history.len(),
{
    if history.len() > 0 {
        lemma_created_stays_created_forever(log, history.drop_last(), slug);
    }
}

/// Publishing an admissible history keeps the log and the projection
/// consistent, step by step.
pub proof fn lemma_history_preserves_consistency(
    log: Map<Seq<char>, Seq<EventView>>,
    stats: Map<Seq<char>, StatsView>,
    history: Seq<EventView>,
)
    requires
        projection_consistent(log, stats),
        admissible_history(log, history),
    ensures
        projection_consistent(publish_log_all(log, history), fold_stats_all(stats, history)),
    decreases history.len(),
{
    if history.len() > 0 {
        lemma_history_preserves_consistency(log, stats, history.drop_last());
        lemma_publish_preserves_consistency(
            publish_log_all(log, history.drop_last()),
            fold_stats_all(stats, history.drop_last()),
            history.last(),
        );
    }
}

/// Redirect monotonicity over any later history: however many admissible
/// events are published, a known alias's redirect counter never decreases.
pub proof fn lemma_redirects_never_decrease(
    log: Map<Seq<char>, Seq<EventView>>,
    stats: Map<Seq<char>, StatsView>,
    history: Seq<EventView>,
    slug: Seq<char>,
)
    requires
        projection_consistent(log, stats),
        admissible_history(log, history),
        stats.contains_key(slug),
    ensures
        fold_stats_all(stats, history).contains_key(slug),
        fold_stats_all(stats, history)[slug].redirects >= stats[slug].redirects,
    decreases history.len(),
{
    if history.len() > 0 {
        lemma_redirects_never_decrease(log, stats, history.drop_last(), slug);
        lemma_history_preserves_consistency(log, stats, history.drop_last());
        lemma_redirects_monotonic(
            publish_log_all(log, history.drop_last()),
            fold_stats_all(stats, history.drop_last()),
            history.last(),
            slug,
        );
    }
}

/// Redirect monotonicity: folding an admissible event into the projection
/// never lowers any redirect counter, and a redirect fact raises its own
/// alias's counter by exactly one.
pub proof fn lemma_redirects_monotonic(
    log: Map<Seq<char>, Seq<EventView>>,
    stats: Map<Seq<char>, StatsView>,
    event: EventView,
    slug: Seq<char>,
)
    requires
        projection_consistent(log, stats),
        event_admissible(log, event),
        stats.contains_key(slug),
    ensures
        fold_stats(stats, event).contains_key(slug),
        fold_stats(stats, event)[slug].redirects >= stats[slug].redirects,
        event.event_type == EventTypeView::ShortLinkRedirected && event.slug == slug
            ==> fold_stats(stats, event)[slug].redirects == stats[slug].redirects + 1,
{
    match event.event_type {
        EventTypeView::ShortLinkCreated(url) => {
            assert(log.contains_key(slug));
            assert(event.slug != slug);
        },
        EventTypeView::ShortLinkRedirected => {},
    }
}

/// Unknown-alias symmetry: the log and the projection know exactly the same
/// aliases, so `handle_redirect` and `get_stats` fail with `SlugNotFound` on
/// exactly the same aliases: those without a prior creation.
pub proof fn lemma_unknown_alias_symmetry(
    log: Map<Seq<char>, Seq<EventView>>,
    stats: Map<Seq<char>, StatsView>,
    slug: Seq<char>,
)
    requires
        projection_consistent(log, stats),
    ensures
        log.contains_key(slug) <==> stats.contains_key(slug),
{
    assert(stats.dom() == log.dom());
}

} // verus!
