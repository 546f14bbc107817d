//! Domain events: the immutable facts that the append-only log records for
//! each alias.

use vstd::prelude::*;

use crate::model::{EventTypeView, EventView};
use crate::{Slug, Url};

verus! {

/// An immutable fact about one alias, filed in its event stream.
#[derive(Debug, PartialEq)]
pub struct Event {
    pub slug: Slug,
    pub event_type: EventType,
}

/// The kind of fact an [`Event`] records.
#[derive(Debug, PartialEq)]
pub enum EventType {
    /// The first and only creation fact for an alias, carrying its target.
    ShortLinkCreated(Url),
    /// One fact per successful redirect.
    ShortLinkRedirected,
}

impl View for EventType {
    type V = EventTypeView;

    open spec fn view(&self) -> EventTypeView {
        match self {
            EventType::ShortLinkCreated(url) => EventTypeView::ShortLinkCreated(url@),
            EventType::ShortLinkRedirected => EventTypeView::ShortLinkRedirected,
        }
    }
}

impl View for Event {
    type V = EventView;

    open spec fn view(&self) -> EventView {
        EventView { slug: self.slug@, event_type: self.event_type@ }
    }
}

impl DeepView for EventType {
    type V = EventTypeView;

    open spec fn deep_view(&self) -> EventTypeView {
        self@
    }
}

impl DeepView for Event {
    type V = EventView;

    open spec fn deep_view(&self) -> EventView {
        self@
    }
}

impl Clone for EventType {
    fn clone(&self) -> (res: Self)
        ensures
            res == *self,
    {
        match self {
            EventType::ShortLinkCreated(url) => EventType::ShortLinkCreated(url.clone()),
            EventType::ShortLinkRedirected => EventType::ShortLinkRedirected,
        }
    }
}

impl Clone for Event {
    fn clone(&self) -> (res: Self)
        ensures
            res == *self,
    {
        Event { slug: self.slug.clone(), event_type: self.event_type.clone() }
    }
}

} // verus!
