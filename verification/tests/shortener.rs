use url_shortener::commands::CommandHandler;
use url_shortener::domain::{
    generate_random_slug, is_valid_url, EventBroker, ShortLinkAggregate,
};
use url_shortener::events::{Event, EventType};
use url_shortener::queries::QueryHandler;
use url_shortener::service::UrlShortenerService;
use url_shortener::{ShortLink, ShortenerError, Slug, Stats, Url};

fn create_goog(service: &mut UrlShortenerService) -> Result<ShortLink, ShortenerError> {
    service.handle_create_short_link(Url::from("https://google.com"), Some(Slug::from("goog")))
}

#[test]
fn scenario_create_with_chosen_slug() {
    let mut service = UrlShortenerService::new();
    let created = create_goog(&mut service);
    assert_eq!(
        created,
        Ok(ShortLink { slug: Slug::from("goog"), url: Url::from("https://google.com") })
    );
}

#[test]
fn scenario_duplicate_slug_is_rejected() {
    let mut service = UrlShortenerService::new();
    assert!(create_goog(&mut service).is_ok());
    assert_eq!(create_goog(&mut service), Err(ShortenerError::SlugAlreadyInUse));
}

#[test]
fn scenario_invalid_url_is_rejected() {
    let mut service = UrlShortenerService::new();
    let created = service.handle_create_short_link(Url::from("invalid-url"), None);
    assert_eq!(created, Err(ShortenerError::InvalidUrl));
}

#[test]
fn scenario_two_redirects_are_counted() {
    let mut service = UrlShortenerService::new();
    assert!(create_goog(&mut service).is_ok());
    assert!(service.handle_redirect(Slug::from("goog")).is_ok());
    assert!(service.handle_redirect(Slug::from("goog")).is_ok());
    let stats = service.get_stats(Slug::from("goog"));
    assert_eq!(
        stats,
        Ok(Stats {
            link: ShortLink { slug: Slug::from("goog"), url: Url::from("https://google.com") },
            redirects: 2,
        })
    );
}

#[test]
fn scenario_missing_slug_is_not_found() {
    let mut service = UrlShortenerService::new();
    assert_eq!(service.handle_redirect(Slug::from("missing")), Err(ShortenerError::SlugNotFound));
    assert_eq!(service.get_stats(Slug::from("missing")), Err(ShortenerError::SlugNotFound));
}

#[test]
fn replay_is_idempotent_and_side_effect_free() {
    let mut service = UrlShortenerService::new();
    assert!(create_goog(&mut service).is_ok());
    assert!(service.handle_redirect(Slug::from("goog")).is_ok());

    // Reading the stream for rehydration changes neither the log nor the
    // projection, and replaying it any number of times yields the same
    // snapshot.
    let stream_first = service.iter_by_slug(&Slug::from("goog"));
    let stream_second = service.iter_by_slug(&Slug::from("goog"));
    assert_eq!(stream_first, stream_second);
    assert_eq!(service.get_stats(Slug::from("goog")).unwrap().redirects, 1);

    let mut once = ShortLinkAggregate::new();
    once.rehydrate_by_slug(&service, &Slug::from("goog"));
    let mut thrice = ShortLinkAggregate::new();
    thrice.rehydrate_by_slug(&service, &Slug::from("goog"));
    thrice.rehydrate_by_slug(&service, &Slug::from("goog"));
    thrice.rehydrate_by_slug(&service, &Slug::from("goog"));

    // Drive both aggregates to an observable snapshot: each sees the same
    // created link.
    let from_once = once.redirect(&mut service).unwrap();
    let from_thrice = thrice.redirect(&mut service).unwrap();
    assert_eq!(from_once, from_thrice);
    assert_eq!(from_once, ShortLink { slug: Slug::from("goog"), url: Url::from("https://google.com") });
}

#[test]
fn creation_stays_unique_for_any_later_url() {
    let mut service = UrlShortenerService::new();
    assert!(create_goog(&mut service).is_ok());
    assert!(service.handle_redirect(Slug::from("goog")).is_ok());
    let retry = service.handle_create_short_link(
        Url::from("https://example.org"),
        Some(Slug::from("goog")),
    );
    assert_eq!(retry, Err(ShortenerError::SlugAlreadyInUse));
    // The duplicate attempt appended nothing: the counter is untouched.
    assert_eq!(service.get_stats(Slug::from("goog")).unwrap().redirects, 1);
}

#[test]
fn redirect_count_grows_by_one_each_time() {
    let mut service = UrlShortenerService::new();
    assert!(create_goog(&mut service).is_ok());
    assert_eq!(service.get_stats(Slug::from("goog")).unwrap().redirects, 0);
    for expected in 1..=5u64 {
        assert!(service.handle_redirect(Slug::from("goog")).is_ok());
        assert_eq!(service.get_stats(Slug::from("goog")).unwrap().redirects, expected);
    }
}

#[test]
fn random_slug_creation_round_trip() {
    let mut service = UrlShortenerService::new();
    let created = service
        .handle_create_short_link(Url::from("https://google.com"), None)
        .unwrap();
    assert!(created.slug.0.starts_with("rand"));
    assert_eq!(created.url, Url::from("https://google.com"));
    let stats = service.get_stats(created.slug.clone()).unwrap();
    assert_eq!(stats.link, created);
    assert_eq!(stats.redirects, 0);
}

#[test]
fn generated_slugs_carry_the_expected_shape() {
    let slug = generate_random_slug();
    assert!(slug.0.starts_with("rand"));
    assert!(slug.0.len() > "rand".len());
    assert!(slug.0["rand".len()..].chars().all(|c| c.is_ascii_digit()));
}

#[test]
fn url_validation_accepts_and_rejects() {
    assert!(is_valid_url(&Url::from("https://google.com")));
    assert!(is_valid_url(&Url::from("http://a.b")));
    assert!(!is_valid_url(&Url::from("")));
    assert!(!is_valid_url(&Url::from("invalid-url")));
    assert!(!is_valid_url(&Url::from("https://nodotcom")));
    assert!(!is_valid_url(&Url::from("ftp://a.com")));
    assert!(!is_valid_url(&Url::from("a.com")));
}

#[test]
fn broker_appends_and_reads_back_streams() {
    let mut service = UrlShortenerService::new();
    assert!(service.iter_by_slug(&Slug::from("goog")).is_empty());
    let created = Event {
        slug: Slug::from("goog"),
        event_type: EventType::ShortLinkCreated(Url::from("https://google.com")),
    };
    service.publish_event(&created);
    let redirected = Event { slug: Slug::from("goog"), event_type: EventType::ShortLinkRedirected };
    service.publish_event(&redirected);
    let stream = service.iter_by_slug(&Slug::from("goog"));
    assert_eq!(stream, vec![created, redirected]);
    assert_eq!(service.get_stats(Slug::from("goog")).unwrap().redirects, 1);
}

#[test]
fn conversions_preserve_the_text() {
    assert_eq!(Slug::from("goog"), Slug(String::from("goog")));
    assert_eq!(Url::from("https://google.com"), Url(String::from("https://google.com")));
    assert_eq!(Slug::from("goog").clone(), Slug::from("goog"));
    assert_eq!(Url::from("x").clone(), Url::from("x"));
}

#[test]
fn full_demonstration_sequence() {
    let mut service = UrlShortenerService::new();

    assert!(create_goog(&mut service).is_ok());
    assert_eq!(create_goog(&mut service), Err(ShortenerError::SlugAlreadyInUse));
    assert_eq!(
        service.handle_create_short_link(Url::from("invalid-url"), None),
        Err(ShortenerError::InvalidUrl)
    );
    let random = service
        .handle_create_short_link(Url::from("https://google.com"), None)
        .unwrap();
    assert!(random.slug.0.starts_with("rand"));
    assert!(service.handle_redirect(Slug::from("goog")).is_ok());
    assert!(service.handle_redirect(Slug::from("goog")).is_ok());
    assert_eq!(
        service.handle_redirect(Slug::from("missing")),
        Err(ShortenerError::SlugNotFound)
    );
    assert_eq!(service.get_stats(Slug::from("goog")).unwrap().redirects, 2);
    assert_eq!(service.get_stats(Slug::from("missing")), Err(ShortenerError::SlugNotFound));
}
