//! Queries: the read-only half of the service. Queries bypass the aggregate
//! and the log entirely and read the projection directly.

use vstd::prelude::*;

use crate::domain::EventBroker;
use crate::{ShortenerError, Slug, Stats};

verus! {

/// Trait for query handlers.
pub trait QueryHandler: EventBroker {
    /// Returns the [`Stats`] for a specific [`crate::ShortLink`], such as
    /// the number of redirects (clicks), or `SlugNotFound` for an alias with
    /// no projection entry.
    fn get_stats(&self, slug: Slug) -> (res: Result<Stats, ShortenerError>)
        ensures
            match res {
                Ok(stats) => self.stats_view().contains_key(slug@) && stats@ == self.stats_view()[
                    slug@
                ],
                Err(e) => e == ShortenerError::SlugNotFound && !self.stats_view().contains_key(
                    slug@,
                ),
            },
    ;
}

} // verus!
