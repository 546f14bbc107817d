//! Commands: the state-mutating half of the service, kept apart from the
//! queries.

use vstd::prelude::*;

use crate::domain::EventBroker;
use crate::model::{
    projection_consistent, stream_created_url, valid_url, EventTypeView, EventView, ShortLinkView,
    StatsView,
};
use crate::{ShortLink, ShortenerError, Slug, Url};

verus! {

/// Trait for command handlers. Each call builds a fresh aggregate over the
/// handler's own broker capability; no aggregate state survives across calls
/// except through the log.
pub trait CommandHandler: EventBroker {
    /// Creates a new short link. It accepts the original url and an optional
    /// [`Slug`]. If a [`Slug`] is not provided, the service will generate
    /// one. Returns the newly created [`ShortLink`].
    ///
    /// ## Errors
    ///
    /// See [`ShortenerError`].
    fn handle_create_short_link(&mut self, url: Url, slug: Option<Slug>) -> (res: Result<
        ShortLink,
        ShortenerError,
    >)
        requires
            projection_consistent(old(self).log_view(), old(self).stats_view()),
        ensures
            projection_consistent(final (self).log_view(), final (self).stats_view()),
            slug matches Some(chosen) ==> {
                &&& old(self).log_view().contains_key(chosen@) ==> {
                    &&& res == Err::<ShortLink, ShortenerError>(ShortenerError::SlugAlreadyInUse)
                    &&& final (self).log_view() == old(self).log_view()
                    &&& final (self).stats_view() == old(self).stats_view()
                }
                &&& !old(self).log_view().contains_key(chosen@) && !valid_url(url@) ==> {
                    &&& res == Err::<ShortLink, ShortenerError>(ShortenerError::InvalidUrl)
                    &&& final (self).log_view() == old(self).log_view()
                    &&& final (self).stats_view() == old(self).stats_view()
                }
                &&& !old(self).log_view().contains_key(chosen@) && valid_url(url@) ==> {
                    &&& res matches Ok(link) && link@ == (ShortLinkView {
                        slug: chosen@,
                        url: url@,
                    })
                    &&& final (self).log_view() == old(self).log_view().insert(
                        chosen@,
                        seq![
                            EventView {
                                slug: chosen@,
                                event_type: EventTypeView::ShortLinkCreated(url@),
                            },
                        ],
                    )
                    &&& final (self).stats_view() == old(self).stats_view().insert(
                        chosen@,
                        StatsView {
                            link: ShortLinkView { slug: chosen@, url: url@ },
                            redirects: 0,
                        },
                    )
                }
            },
            slug is None ==> match res {
                Ok(link) => {
                    &&& valid_url(url@)
                    &&& link@.url == url@
                    &&& !old(self).log_view().contains_key(link@.slug)
                    &&& final (self).log_view() == old(self).log_view().insert(
                        link@.slug,
                        seq![
                            EventView {
                                slug: link@.slug,
                                event_type: EventTypeView::ShortLinkCreated(url@),
                            },
                        ],
                    )
                    &&& final (self).stats_view() == old(self).stats_view().insert(
                        link@.slug,
                        StatsView { link: link@, redirects: 0 },
                    )
                },
                Err(e) => {
                    &&& e != ShortenerError::SlugNotFound
                    &&& e == ShortenerError::InvalidUrl ==> !valid_url(url@)
                    &&& final (self).log_view() == old(self).log_view()
                    &&& final (self).stats_view() == old(self).stats_view()
                },
            },
    ;

    /// Processes a redirection by [`Slug`], returning the associated
    /// [`ShortLink`] or a [`ShortenerError`].
    fn handle_redirect(&mut self, slug: Slug) -> (res: Result<ShortLink, ShortenerError>)
        requires
            projection_consistent(old(self).log_view(), old(self).stats_view()),
        ensures
            projection_consistent(final (self).log_view(), final (self).stats_view()),
            !old(self).log_view().contains_key(slug@) ==> {
                &&& res == Err::<ShortLink, ShortenerError>(ShortenerError::SlugNotFound)
                &&& final (self).log_view() == old(self).log_view()
                &&& final (self).stats_view() == old(self).stats_view()
            },
            old(self).log_view().contains_key(slug@) ==> {
                &&& res matches Ok(link) && link@ == (ShortLinkView {
                    slug: slug@,
                    url: stream_created_url(old(self).log_view()[slug@]),
                })
                &&& final (self).log_view() == old(self).log_view().insert(
                    slug@,
                    old(self).log_view()[slug@].push(
                        EventView {
                            slug: slug@,
                            event_type: EventTypeView::ShortLinkRedirected,
                        },
                    ),
                )
                &&& final (self).stats_view() == old(self).stats_view().insert(
                    slug@,
                    StatsView {
                        link: old(self).stats_view()[slug@].link,
                        redirects: old(self).stats_view()[slug@].redirects + 1,
                    },
                )
            },
    ;
}

} // verus!
