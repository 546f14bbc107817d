//! The aggregate: the transient, per-operation object that rehydrates one
//! alias's state from its event stream, enforces the business invariants and
//! decides which new event, if any, is committed through the broker.

use vstd::prelude::*;
use vstd::string::StrSliceExecFns;
use vstd::string::StringExecFns;

use crate::events::{Event, EventType};
use crate::model::{
    apply_event_view, event_admissible, init_state, lemma_publish_preserves_consistency,
    lemma_replay_wf, projection_consistent, replay, starts_with, stream_created_url, stream_of,
    valid_url, contains_char, EventTypeView, EventView, ShortLinkView, StatsView,
};
use crate::{ShortLink, ShortenerError, Slug, Url};

verus! {

/// The capability set every mutation funnels through: append an event to the
/// log and fold it into the projection in one step, and read one alias's
/// full event stream back for rehydration.
pub trait EventBroker: Sized {
    /// The append-only event log: the ordered stream recorded for each
    /// known alias.
    spec fn log_view(&self) -> Map<Seq<char>, Seq<EventView>>;

    /// The read-optimized projection: the current statistics entry for each
    /// known alias.
    spec fn stats_view(&self) -> Map<Seq<char>, StatsView>;

    /// Appends `event` to its alias's stream and folds it into the
    /// projection, atomically and immediately visible to subsequent reads.
    fn publish_event(&mut self, event: &Event)
        requires
            projection_consistent(old(self).log_view(), old(self).stats_view()),
            event_admissible(old(self).log_view(), event@),
        ensures
            final (self).log_view() == old(self).log_view().insert(
                event@.slug,
                stream_of(old(self).log_view(), event@.slug).push(event@),
            ),
            final (self).stats_view() == crate::model::fold_stats(old(self).stats_view(), event@),
    ;

    /// The full ordered event stream for `slug`; the empty sequence, not an
    /// error, when the alias is unknown.
    fn iter_by_slug(&self, slug: &Slug) -> (events: Vec<Event>)
        ensures
            events.deep_view() == stream_of(self.log_view(), slug@),
    ;
}

/// Transient object enforcing the invariants of one alias, derived by
/// replaying its event stream.
pub struct ShortLinkAggregate {
    state: ShortLink,
}

impl View for ShortLinkAggregate {
    type V = ShortLinkView;

    closed spec fn view(&self) -> ShortLinkView {
        self.state@
    }
}

impl ShortLinkAggregate {
    /// A fresh aggregate, not yet bound to any alias.
    pub fn new() -> (aggregate: Self)
        ensures
            aggregate@ == init_state(Seq::<char>::empty()),
    {
        ShortLinkAggregate { state: ShortLink { slug: Slug(String::new()), url: Url(String::new()) } }
    }

    /// Rebuilds the aggregate's state for `slug` by folding the alias's full
    /// event stream, in order, over the initial state. Reading never mutates
    /// the broker.
    pub fn rehydrate_by_slug<B: EventBroker>(&mut self, broker: &B, slug: &Slug)
        ensures
            final (self)@ == replay(slug@, stream_of(broker.log_view(), slug@)),
    {
        self.state = ShortLink { slug: slug.clone(), url: Url(String::new()) };
        let events = broker.iter_by_slug(slug);
        let ghost stream = events.deep_view();
        let n = events.len();
        let mut i: usize = 0;
        assert(self@ == replay(slug@, stream.subrange(0, 0)));
        while i < n
            invariant
                i <= n,
                n == events.len(),
                stream == events.deep_view(),
                stream == stream_of(broker.log_view(), slug@),
                self@ == replay(slug@, stream.subrange(0, i as int)),
            decreases n - i,
        {
            self.apply_event(&events[i]);
            proof {
                let prefix = stream.subrange(0, i as int);
                let extended = stream.subrange(0, i + 1 as int);
                assert(extended.drop_last() =~= prefix);
                assert(extended.last() == stream[i as int]);
            }
            i += 1;
        }
        proof {
            assert(stream.subrange(0, n as int) =~= stream);
        }
    }

    /// Binds the aggregate to a freshly generated alias; the local target
    /// URL is untouched.
    pub fn create_random_slug(&mut self)
        ensures
            final (self)@.url == old(self)@.url,
            exists|n: nat| final (self)@.slug == "rand"@ + decimal_of(n),
    {
        self.state.slug = generate_random_slug();
    }

    /// The pure fold step shared by rehydration and the transitions: a
    /// creation fact fixes alias and target, a redirect fact changes
    /// nothing locally. Committing a new fact is the broker's job alone.
    pub fn apply_event(&mut self, event: &Event)
        ensures
            final (self)@ == apply_event_view(old(self)@, event@),
    {
        match &event.event_type {
            EventType::ShortLinkCreated(url) => {
                self.state.slug = event.slug.clone();
                self.state.url = url.clone();
            },
            EventType::ShortLinkRedirected => {},
        }
    }

    /// The creation transition: fails with `SlugAlreadyInUse` when the
    /// rehydrated alias already has a creation event, with `InvalidUrl` when
    /// the validator rejects `url`; otherwise commits one creation fact and
    /// returns the resulting snapshot. No event is appended on any failure.
    pub fn create_short_link<B: EventBroker>(&mut self, broker: &mut B, url: &Url) -> (res: Result<
        ShortLink,
        ShortenerError,
    >)
        requires
            projection_consistent(old(broker).log_view(), old(broker).stats_view()),
            old(self)@ == replay(
                old(self)@.slug,
                stream_of(old(broker).log_view(), old(self)@.slug),
            ),
        ensures
            projection_consistent(final (broker).log_view(), final (broker).stats_view()),
            old(broker).log_view().contains_key(old(self)@.slug) ==> {
                &&& res == Err::<ShortLink, ShortenerError>(ShortenerError::SlugAlreadyInUse)
                &&& final (broker).log_view() == old(broker).log_view()
                &&& final (broker).stats_view() == old(broker).stats_view()
                &&& final (self)@ == old(self)@
            },
            !old(broker).log_view().contains_key(old(self)@.slug) && !valid_url(url@) ==> {
                &&& res == Err::<ShortLink, ShortenerError>(ShortenerError::InvalidUrl)
                &&& final (broker).log_view() == old(broker).log_view()
                &&& final (broker).stats_view() == old(broker).stats_view()
                &&& final (self)@ == old(self)@
            },
            !old(broker).log_view().contains_key(old(self)@.slug) && valid_url(url@) ==> {
                &&& res matches Ok(link) && link@ == (ShortLinkView {
                    slug: old(self)@.slug,
                    url: url@,
                })
                &&& final (self)@ == (ShortLinkView { slug: old(self)@.slug, url: url@ })
                &&& final (broker).log_view() == old(broker).log_view().insert(
                    old(self)@.slug,
                    seq![
                        EventView {
                            slug: old(self)@.slug,
                            event_type: EventTypeView::ShortLinkCreated(url@),
                        },
                    ],
                )
                &&& final (broker).stats_view() == old(broker).stats_view().insert(
                    old(self)@.slug,
                    StatsView {
                        link: ShortLinkView { slug: old(self)@.slug, url: url@ },
                        redirects: 0,
                    },
                )
            },
    {
        let ghost slug_view = old(self)@.slug;
        proof {
            if old(broker).log_view().contains_key(slug_view) {
                lemma_replay_wf(slug_view, old(broker).log_view()[slug_view]);
            }
        }
        if !self.state.url.0.as_str().is_empty() {
            return Err(ShortenerError::SlugAlreadyInUse);
        }
        if !is_valid_url(url) {
            return Err(ShortenerError::InvalidUrl);
        }
        let event = Event {
            slug: self.state.slug.clone(),
            event_type: EventType::ShortLinkCreated(url.clone()),
        };
        proof {
            lemma_publish_preserves_consistency(
                old(broker).log_view(),
                old(broker).stats_view(),
                event@,
            );
            assert(stream_of(old(broker).log_view(), slug_view).push(event@) =~= seq![event@]);
        }
        broker.publish_event(&event);
        self.apply_event(&event);
        Ok(self.state.clone())
    }

    /// The redirect transition: fails with `SlugNotFound` when the
    /// rehydrated alias has no creation event; otherwise commits one
    /// redirect fact and returns the current snapshot.
    pub fn redirect<B: EventBroker>(&mut self, broker: &mut B) -> (res: Result<
        ShortLink,
        ShortenerError,
    >)
        requires
            projection_consistent(old(broker).log_view(), old(broker).stats_view()),
            old(self)@ == replay(
                old(self)@.slug,
                stream_of(old(broker).log_view(), old(self)@.slug),
            ),
        ensures
            projection_consistent(final (broker).log_view(), final (broker).stats_view()),
            !old(broker).log_view().contains_key(old(self)@.slug) ==> {
                &&& res == Err::<ShortLink, ShortenerError>(ShortenerError::SlugNotFound)
                &&& final (broker).log_view() == old(broker).log_view()
                &&& final (broker).stats_view() == old(broker).stats_view()
                &&& final (self)@ == old(self)@
            },
            old(broker).log_view().contains_key(old(self)@.slug) ==> {
                &&& res matches Ok(link) && link@ == (ShortLinkView {
                    slug: old(self)@.slug,
                    url: stream_created_url(old(broker).log_view()[old(self)@.slug]),
                })
                &&& final (self)@ == old(self)@
                &&& final (broker).log_view() == old(broker).log_view().insert(
                    old(self)@.slug,
                    old(broker).log_view()[old(self)@.slug].push(
                        EventView {
                            slug: old(self)@.slug,
                            event_type: EventTypeView::ShortLinkRedirected,
                        },
                    ),
                )
                &&& final (broker).stats_view() == old(broker).stats_view().insert(
                    old(self)@.slug,
                    StatsView {
                        link: old(broker).stats_view()[old(self)@.slug].link,
                        redirects: old(broker).stats_view()[old(self)@.slug].redirects + 1,
                    },
                )
            },
    {
        let ghost slug_view = old(self)@.slug;
        proof {
            if old(broker).log_view().contains_key(slug_view) {
                lemma_replay_wf(slug_view, old(broker).log_view()[slug_view]);
            }
        }
        if self.state.url.0.as_str().is_empty() {
            return Err(ShortenerError::SlugNotFound);
        }
        let event = Event {
            slug: self.state.slug.clone(),
            event_type: EventType::ShortLinkRedirected,
        };
        proof {
            lemma_publish_preserves_consistency(
                old(broker).log_view(),
                old(broker).stats_view(),
                event@,
            );
        }
        broker.publish_event(&event);
        self.apply_event(&event);
        Ok(self.state.clone())
    }
}

/// Checks whether `s` opens with the full character sequence of `prefix`.
fn str_starts_with(s: &str, prefix: &str) -> (res: bool)
    ensures
        res == starts_with(s@, prefix@),
{
    let n = s.unicode_len();
    let p = prefix.unicode_len();
    if p > n {
        return false;
    }
    let mut i: usize = 0;
    while i < p
        invariant
            i <= p,
            p <= n,
            n == s@.len(),
            p == prefix@.len(),
            forall|j: int| 0 <= j < i ==> s@[j] == prefix@[j],
        decreases p - i,
    {
        if s.get_char(i) != prefix.get_char(i) {
            proof {
                assert(s@.subrange(0, p as int)[i as int] == s@[i as int]);
            }
            return false;
        }
        i += 1;
    }
    proof {
        assert(s@.subrange(0, p as int) =~= prefix@);
    }
    true
}

/// Checks whether any character of `s` is `needle`.
fn str_contains_char(s: &str, needle: char) -> (res: bool)
    ensures
        res == contains_char(s@, needle),
{
    let n = s.unicode_len();
    let mut i: usize = 0;
    while i < n
        invariant
            i <= n,
            n == s@.len(),
            forall|j: int| 0 <= j < i ==> s@[j] != needle,
        decreases n - i,
    {
        if s.get_char(i) == needle {
            return true;
        }
        i += 1;
    }
    false
}

/// The pluggable URL validity predicate: non-empty, carries a dot, and uses
/// an `http://` or `https://` scheme. A simple syntactic check, replaceable
/// by a stricter implementation without touching the aggregate.
pub fn is_valid_url(url: &Url) -> (res: bool)
    ensures
        res == valid_url(url@),
{
    let s: &str = url.0.as_str();
    !s.is_empty() && str_contains_char(s, '.') && (str_starts_with(s, "http://")
        || str_starts_with(s, "https://"))
}

/// The decimal character for one digit value.
pub open spec fn decimal_digit(d: nat) -> char {
    if d == 0 {
        '0'
    } else if d == 1 {
        '1'
    } else if d == 2 {
        '2'
    } else if d == 3 {
        '3'
    } else if d == 4 {
        '4'
    } else if d == 5 {
        '5'
    } else if d == 6 {
        '6'
    } else if d == 7 {
        '7'
    } else if d == 8 {
        '8'
    } else {
        '9'
    }
}

/// The decimal digit sequence of `n`, most significant first, with no
/// leading zero except for zero itself.
pub open spec fn decimal_of(n: nat) -> Seq<char>
    decreases n,
{
    if n < 10 {
        seq![decimal_digit(n)]
    } else {
        decimal_of(n / 10).push(decimal_digit(n % 10))
    }
}

/// Appends the decimal character of one digit value to `out`.
fn append_digit(out: &mut String, d: u128)
    requires
        d < 10,
    ensures
        final (out)@ == old(out)@ + seq![decimal_digit(d as nat)],
{
    let digit: &str = if d == 0 {
        "0"
    } else if d == 1 {
        "1"
    } else if d == 2 {
        "2"
    } else if d == 3 {
        "3"
    } else if d == 4 {
        "4"
    } else if d == 5 {
        "5"
    } else if d == 6 {
        "6"
    } else if d == 7 {
        "7"
    } else if d == 8 {
        "8"
    } else {
        "9"
    };
    proof {
        reveal_strlit("0");
        reveal_strlit("1");
        reveal_strlit("2");
        reveal_strlit("3");
        reveal_strlit("4");
        reveal_strlit("5");
        reveal_strlit("6");
        reveal_strlit("7");
        reveal_strlit("8");
        reveal_strlit("9");
        assert(digit@ =~= seq![decimal_digit(d as nat)]);
    }
    out.append(digit);
}

/// Appends the full decimal rendering of `n` to `out`.
fn append_decimal(out: &mut String, n: u128)
    ensures
        final (out)@ == old(out)@ + decimal_of(n as nat),
    decreases n,
{
    if n >= 10 {
        proof {
            assert(n / 10 < n) by (nonlinear_arith)
                requires n >= 10;
        }
        append_decimal(out, n / 10);
        append_digit(out, n % 10);
        proof {
            assert(old(out)@ + decimal_of((n / 10) as nat) + seq![decimal_digit((n % 10) as nat)]
                =~= old(out)@ + decimal_of(n as nat));
        }
    } else {
        append_digit(out, n);
        proof {
            assert(old(out)@ + seq![decimal_digit(n as nat)] =~= old(out)@ + decimal_of(n as nat));
        }
    }
}

/// A clock reading of the system time, declared so that the generator can
/// carry one through to the nanosecond conversion.
#[verifier::external_type_specification]
#[verifier::external_body]
pub struct ExSystemTime(std::time::SystemTime);

/// Relies on std::time::SystemTime::now: a reading of the system clock,
/// used only as an entropy source for fresh aliases.
#[verifier::external_body]
fn system_time_now() -> std::time::SystemTime {
    std::time::SystemTime::now()
}

/// Relies on std::time::SystemTime::duration_since: the whole nanoseconds
/// between the Unix epoch and `t`, converted to a plain integer; zero when
/// the clock reads before the epoch, so the call never panics.
#[verifier::external_body]
fn nanos_since_epoch(t: &std::time::SystemTime) -> u128 {
    match t.duration_since(std::time::UNIX_EPOCH) {
        Ok(duration) => duration.as_nanos(),
        Err(_) => 0,
    }
}

/// The pluggable alias generator: a clock-derived slug, expected but not
/// guaranteed to be absent from the log. A collision surfaces naturally as
/// `SlugAlreadyInUse`, since creation re-validates against the log.
pub fn generate_random_slug() -> (res: Slug)
    ensures
        exists|n: nat| res@ == "rand"@ + decimal_of(n),
{
    let now = system_time_now();
    let nanos = nanos_since_epoch(&now);
    let mut text = String::from_str("rand");
    append_decimal(&mut text, nanos);
    proof {
        assert(text@ == "rand"@ + decimal_of(nanos as nat));
    }
    Slug(text)
}

} // verus!
