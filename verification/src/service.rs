//! The service: owns the in-memory event log and the statistics projection,
//! and implements the broker, command and query contracts over them.

use vstd::hash_map::StringHashMap;
use vstd::prelude::*;

use crate::commands::CommandHandler;
use crate::domain::{generate_random_slug, EventBroker, ShortLinkAggregate};
use crate::events::Event;
use crate::model::{
    fold_stats, lemma_replay_wf, projection_consistent, stream_of, EventView, StatsView,
};
use crate::queries::QueryHandler;
use crate::{ShortLink, ShortenerError, Slug, Stats, Url};

verus! {

/// CQRS and Event Sourcing-based service implementation: the append-only
/// event log and the derived statistics projection, both keyed by alias and
/// living in process memory for the lifetime of one service instance.
pub struct UrlShortenerService {
    events: StringHashMap<Vec<Event>>,
    stats: StringHashMap<Stats>,
}

/// Copies an event stream element for element.
fn clone_events(events: &Vec<Event>) -> (res: Vec<Event>)
    ensures
        res@ == events@,
{
    let mut res: Vec<Event> = Vec::new();
    let n = events.len();
    let mut i: usize = 0;
    while i < n
        invariant
            i <= n,
            n == events.len(),
            res@ == events@.subrange(0, i as int),
        decreases n - i,
    {
        res.push(events[i].clone());
        proof {
            assert(events@.subrange(0, i + 1 as int) =~= events@.subrange(0, i as int).push(
                events@[i as int],
            ));
        }
        i += 1;
    }
    proof {
        assert(events@.subrange(0, n as int) =~= events@);
    }
    res
}

impl UrlShortenerService {
    /// Creates a new instance of the service, with an empty log and an
    /// empty projection.
    pub fn new() -> (service: Self)
        ensures
            service.log_view() == Map::<Seq<char>, Seq<EventView>>::empty(),
            service.stats_view() == Map::<Seq<char>, StatsView>::empty(),
            projection_consistent(service.log_view(), service.stats_view()),
    {
        let service = UrlShortenerService {
            events: StringHashMap::new(),
            stats: StringHashMap::new(),
        };
        proof {
            assert(service.log_view() =~= Map::<Seq<char>, Seq<EventView>>::empty());
            assert(service.stats_view() =~= Map::<Seq<char>, StatsView>::empty());
        }
        service
    }
}

impl EventBroker for UrlShortenerService {
    closed spec fn log_view(&self) -> Map<Seq<char>, Seq<EventView>> {
        self.events@.map_values(|stream: Vec<Event>| stream.deep_view())
    }

    closed spec fn stats_view(&self) -> Map<Seq<char>, StatsView> {
        self.stats@.map_values(|stats: Stats| stats@)
    }

    fn publish_event(&mut self, event: &Event) {
        let ghost old_log = self.log_view();
        let ghost old_stats = self.stats_view();
        // Save the event to the event store.
        let mut stream: Vec<Event> = match self.events.get(event.slug.0.as_str()) {
            Some(existing) => clone_events(existing),
            None => Vec::new(),
        };
        let appended_to: usize = stream.len();
        proof {
            assert(stream.deep_view() =~= stream_of(old_log, event@.slug));
        }
        stream.push(event.clone());
        proof {
            assert(stream.deep_view() =~= stream_of(old_log, event@.slug).push(event@));
        }
        self.events.insert(event.slug.0.clone(), stream);
        proof {
            assert(self.log_view() =~= old_log.insert(
                event@.slug,
                stream_of(old_log, event@.slug).push(event@),
            ));
            assert(self.stats_view() =~= old_stats);
        }
        // Update the query model.
        match &event.event_type {
            crate::events::EventType::ShortLinkCreated(url) => {
                let stats = Stats {
                    link: ShortLink { slug: event.slug.clone(), url: url.clone() },
                    redirects: 0,
                };
                self.stats.insert(event.slug.0.clone(), stats);
                proof {
                    assert(self.stats_view() =~= fold_stats(old_stats, event@));
                }
            },
            crate::events::EventType::ShortLinkRedirected => {
                let current: Option<Stats> = match self.stats.get(event.slug.0.as_str()) {
                    Some(stats) => Some(stats.clone()),
                    None => None,
                };
                match current {
                    Some(stats) => {
                        proof {
                            // The projection counts one redirect per fact after
                            // the creation fact, so the counter is bounded by
                            // the length of the stored stream.
                            assert(old_stats[event@.slug].redirects == old_log[event@.slug].len()
                                - 1);
                            assert(old_log[event@.slug].len() == appended_to);
                            assert(stats@.redirects < u64::MAX);
                        }
                        let updated = Stats { link: stats.link, redirects: stats.redirects + 1 };
                        self.stats.insert(event.slug.0.clone(), updated);
                        proof {
                            assert(self.stats_view() =~= fold_stats(old_stats, event@));
                        }
                    },
                    None => {
                        // Defensive: cannot occur, since a redirect fact is
                        // only admissible for an alias the projection knows.
                        proof {
                            assert(self.stats_view() =~= fold_stats(old_stats, event@));
                        }
                    },
                }
            },
        }
    }

    fn iter_by_slug(&self, slug: &Slug) -> (events: Vec<Event>) {
        match self.events.get(slug.0.as_str()) {
            Some(stream) => {
                let res = clone_events(stream);
                proof {
                    assert(res.deep_view() =~= stream_of(self.log_view(), slug@));
                }
                res
            },
            None => {
                let res = Vec::<Event>::new();
                proof {
                    assert(res.deep_view() =~= stream_of(self.log_view(), slug@));
                }
                res
            },
        }
    }
}

impl CommandHandler for UrlShortenerService {
    fn handle_create_short_link(&mut self, url: Url, slug: Option<Slug>) -> (res: Result<
        ShortLink,
        ShortenerError,
    >) {
        let mut aggregate = ShortLinkAggregate::new();
        let chosen: Slug = match slug {
            Some(slug) => slug,
            None => generate_random_slug(),
        };
        aggregate.rehydrate_by_slug(&*self, &chosen);
        proof {
            if self.log_view().contains_key(chosen@) {
                lemma_replay_wf(chosen@, self.log_view()[chosen@]);
            }
        }
        match aggregate.create_short_link(self, &url) {
            Ok(short_link) => Ok(short_link),
            Err(e) => Err(e),
        }
    }

    fn handle_redirect(&mut self, slug: Slug) -> (res: Result<ShortLink, ShortenerError>) {
        let mut aggregate = ShortLinkAggregate::new();
        aggregate.rehydrate_by_slug(&*self, &slug);
        proof {
            if self.log_view().contains_key(slug@) {
                lemma_replay_wf(slug@, self.log_view()[slug@]);
            }
        }
        match aggregate.redirect(self) {
            Ok(short_link) => Ok(short_link),
            Err(e) => Err(e),
        }
    }
}

impl QueryHandler for UrlShortenerService {
    fn get_stats(&self, slug: Slug) -> (res: Result<Stats, ShortenerError>) {
        match self.stats.get(slug.0.as_str()) {
            Some(stats) => Ok(stats.clone()),
            None => Err(ShortenerError::SlugNotFound),
        }
    }
}

} // verus!
