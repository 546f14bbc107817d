//! An in-memory URL shortener built on command/query separation and event
//! sourcing: an append-only per-alias event log is the sole source of truth,
//! and a statistics projection is folded from each appended event.

pub mod commands;
pub mod domain;
pub mod events;
pub mod laws;
pub mod model;
pub mod queries;
pub mod service;

use vstd::prelude::*;

use crate::model::{ShortLinkView, StatsView};

verus! {

/// All possible errors of the [`service::UrlShortenerService`].
#[derive(Debug, PartialEq, Eq, Structural)]
pub enum ShortenerError {
    /// An invalid [`Url`] was provided for shortening.
    InvalidUrl,
    /// An attempt was made to use a slug (custom alias) that already exists.
    SlugAlreadyInUse,
    /// The provided [`Slug`] does not map to any existing short link.
    SlugNotFound,
}

/// A unique string (or alias) that represents the shortened version of the
/// URL.
#[derive(Debug, PartialEq)]
pub struct Slug(pub String);

/// The original URL that the short link points to.
#[derive(Debug, PartialEq)]
pub struct Url(pub String);

/// Shortened URL representation.
#[derive(Debug, PartialEq)]
pub struct ShortLink {
    /// A unique string (or alias) that represents the shortened version of
    /// the URL.
    pub slug: Slug,
    /// The original URL that the short link points to.
    pub url: Url,
}

/// Statistics of the [`ShortLink`].
#[derive(Debug, PartialEq)]
pub struct Stats {
    /// [`ShortLink`] to which this [`Stats`] are related.
    pub link: ShortLink,
    /// Count of redirects of the [`ShortLink`].
    pub redirects: u64,
}

impl View for Slug {
    type V = Seq<char>;

    open spec fn view(&self) -> Seq<char> {
        self.0@
    }
}

impl View for Url {
    type V = Seq<char>;

    open spec fn view(&self) -> Seq<char> {
        self.0@
    }
}

impl View for ShortLink {
    type V = ShortLinkView;

    open spec fn view(&self) -> ShortLinkView {
        ShortLinkView { slug: self.slug@, url: self.url@ }
    }
}

impl View for Stats {
    type V = StatsView;

    open spec fn view(&self) -> StatsView {
        StatsView { link: self.link@, redirects: self.redirects as nat }
    }
}

impl From<&str> for Slug {
    fn from(value: &str) -> (res: Self)
        ensures
            res@ == value@,
    {
        Slug(value.to_owned())
    }
}

/// No blanket `From::from` equation is claimed: callers rely on the
/// `ensures` of the impl above, which pins the view of the result.
impl vstd::std_specs::convert::FromSpecImpl<&str> for Slug {
    open spec fn obeys_from_spec() -> bool {
        false
    }

    open spec fn from_spec(value: &str) -> Self {
        arbitrary()
    }
}

impl From<&str> for Url {
    fn from(value: &str) -> (res: Self)
        ensures
            res@ == value@,
    {
        Url(value.to_owned())
    }
}

/// No blanket `From::from` equation is claimed: callers rely on the
/// `ensures` of the impl above, which pins the view of the result.
impl vstd::std_specs::convert::FromSpecImpl<&str> for Url {
    open spec fn obeys_from_spec() -> bool {
        false
    }

    open spec fn from_spec(value: &str) -> Self {
        arbitrary()
    }
}

impl Clone for Slug {
    fn clone(&self) -> (res: Self)
        ensures
            res == *self,
    {
        Slug(self.0.clone())
    }
}

impl Clone for Url {
    fn clone(&self) -> (res: Self)
        ensures
            res == *self,
    {
        Url(self.0.clone())
    }
}

impl Clone for ShortLink {
    fn clone(&self) -> (res: Self)
        ensures
            res == *self,
    {
        ShortLink { slug: self.slug.clone(), url: self.url.clone() }
    }
}

impl Clone for Stats {
    fn clone(&self) -> (res: Self)
        ensures
            res == *self,
    {
        Stats { link: self.link.clone(), redirects: self.redirects }
    }
}

} // verus!
