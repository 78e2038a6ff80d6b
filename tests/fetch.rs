use aws_health_exporter::fetcher::backoff_ms;
use aws_health_exporter::{AccountEvent, Action, Error, Fetcher, OrganizationEvent, ProviderFailure, Scraper};

fn strings(v: &[&str]) -> Vec<String> {
    v.iter().map(|s| s.to_string()).collect()
}

fn account_event(region: Option<&str>) -> AccountEvent {
    AccountEvent {
        availability_zone: None,
        region: region.map(|s| s.to_string()),
        service: None,
        event_type_category: None,
        event_type_code: None,
        status_code: None,
    }
}

fn account_fetcher() -> Fetcher {
    Scraper::new(Some(strings(&["eu-west-3"])), None, false).start_fetch()
}

fn expect_request(a: Action, cursor: Option<&str>) {
    match a {
        Action::Request(c) => assert_eq!(c.as_deref(), cursor),
        other => panic!("expected a request, got {:?}", other),
    }
}

fn expect_sleep(a: Action, ms: u64) {
    match a {
        Action::Sleep(d) => assert_eq!(d, ms),
        other => panic!("expected a sleep, got {:?}", other),
    }
}

#[test]
fn backoff_doubles_from_fifty_milliseconds() {
    assert_eq!(backoff_ms(0), 50);
    assert_eq!(backoff_ms(1), 100);
    assert_eq!(backoff_ms(3), 400);
    assert_eq!(backoff_ms(10), 51200);
}

#[test]
fn first_action_requests_first_page() {
    let f = account_fetcher();
    expect_request(f.action(), None);
    assert_eq!(f.attempts(), 1);
    assert_eq!(f.retries(), 0);
}

#[test]
fn page_without_cursor_ends_fetch() {
    let mut f = account_fetcher();
    let events: Vec<AccountEvent> = vec![];
    assert!(matches!(f.on_page(&events, None), Action::Finish));
    assert!(f.is_finished());
    // later reports change nothing and ask for no request
    assert!(matches!(f.on_page(&events, Some("again".to_string())), Action::Finish));
    assert!(matches!(f.on_rate_limited(), Action::Finish));
    assert!(matches!(f.on_elapsed(), Action::Finish));
    assert!(matches!(f.action(), Action::Finish));
}

#[test]
fn rate_limited_page_is_retried_with_same_cursor() {
    for n in [1u32, 3, 10] {
        let mut f = account_fetcher();
        let events: Vec<AccountEvent> = vec![];
        expect_request(f.on_page(&events, Some("page-2".to_string())), Some("page-2"));
        for k in 1..=n {
            expect_sleep(f.on_rate_limited(), 50 * 2u64.pow(k));
            assert_eq!(f.retries(), k);
            expect_request(f.on_elapsed(), Some("page-2"));
            assert_eq!(f.attempts(), k + 1);
        }
        let a = f.on_page(&vec![account_event(Some("eu-west-3"))], None);
        assert!(matches!(a, Action::Finish));
        assert_eq!(f.retries(), 0);
        assert_eq!(f.family().series().len(), 1);
        assert!(f.into_result().is_ok());
    }
}

#[test]
fn retry_counter_resets_after_a_page() {
    let mut f = account_fetcher();
    expect_sleep(f.on_rate_limited(), 100);
    expect_request(f.on_elapsed(), None);
    let events: Vec<AccountEvent> = vec![];
    expect_request(f.on_page(&events, Some("next".to_string())), Some("next"));
    assert_eq!(f.retries(), 0);
    assert_eq!(f.attempts(), 1);
    expect_sleep(f.on_rate_limited(), 100);
}

#[test]
fn eleventh_rate_limit_fails_with_too_many_retries() {
    let mut f = account_fetcher();
    for k in 1..=10u32 {
        expect_sleep(f.on_rate_limited(), 50 * 2u64.pow(k));
        expect_request(f.on_elapsed(), None);
    }
    assert_eq!(f.attempts(), 11);
    assert!(matches!(f.on_rate_limited(), Action::Abort(Error::TooManyRetries)));
    assert_eq!(f.attempts(), 11);
    // more refusals issue no more requests
    assert!(matches!(f.on_rate_limited(), Action::Abort(Error::TooManyRetries)));
    assert!(matches!(f.on_elapsed(), Action::Abort(Error::TooManyRetries)));
    assert_eq!(f.attempts(), 11);
    assert!(matches!(f.into_result(), Err(Error::TooManyRetries)));
}

#[test]
fn provider_failures_are_told_apart() {
    let throttled = ProviderFailure { status: Some(429), code: None, message: "slow down".to_string() };
    assert!(throttled.is_rate_limit());
    let coded = ProviderFailure {
        status: Some(400),
        code: Some("ThrottlingException".to_string()),
        message: "Rate exceeded".to_string(),
    };
    assert!(coded.is_rate_limit());
    let other = ProviderFailure {
        status: Some(400),
        code: Some("InvalidPaginationToken".to_string()),
        message: "bad token".to_string(),
    };
    assert!(!other.is_rate_limit());

    let mut f = account_fetcher();
    expect_sleep(f.on_provider_failure(coded), 100);
    expect_request(f.on_elapsed(), None);
    match f.on_provider_failure(other) {
        Action::Abort(Error::ProviderError(m)) => assert_eq!(m, "bad token"),
        a => panic!("expected an abort, got {:?}", a),
    }
    match f.into_result() {
        Err(Error::ProviderError(m)) => assert_eq!(m, "bad token"),
        r => panic!("expected a provider error, got {:?}", r.map(|_| ())),
    }
}

#[test]
fn partial_results_stay_when_a_later_page_fails() {
    let mut f = account_fetcher();
    expect_request(f.on_page(&vec![account_event(Some("eu-west-3"))], Some("p2".to_string())), Some("p2"));
    f.on_failure(Error::ProviderError("down".to_string()));
    assert_eq!(f.family().series().len(), 1);
    let (family, error) = f.into_parts();
    assert_eq!(family.series().len(), 1);
    assert!(matches!(error, Some(Error::ProviderError(m)) if m == "down"));
}

#[test]
fn mismatched_schema_is_a_registration_error() {
    // an organization event has five labels, an account family six
    let mut f = account_fetcher();
    let org = OrganizationEvent {
        region: Some("eu-west-3".to_string()),
        service: None,
        event_type_category: None,
        event_type_code: None,
        status_code: None,
    };
    let a = f.on_page(&vec![org], None);
    assert!(matches!(a, Action::Abort(Error::MetricRegistrationError(_))));
    assert_eq!(f.family().series().len(), 0);
}

#[test]
fn account_two_page_scenario() {
    let scraper = Scraper::new(Some(strings(&["eu-west-3"])), None, false);
    let request = scraper.build_request();
    let filter = request.filter.as_ref().unwrap();
    assert_eq!(filter.regions, Some(strings(&["eu-west-3"])));
    assert_eq!(filter.services, None);
    let mut f = scraper.start_fetch();
    expect_request(f.action(), None);
    let page1 = vec![account_event(Some("eu-west-3"))];
    expect_request(f.on_page(&page1, Some("cursor-1".to_string())), Some("cursor-1"));
    let page2: Vec<AccountEvent> = vec![];
    assert!(matches!(f.on_page(&page2, None), Action::Finish));
    let family = f.into_result().unwrap();
    assert_eq!(family.name(), "aws_health_events");
    assert_eq!(
        family.label_names(),
        &strings(&["availability_zone", "region", "service", "event_type_category", "event_type_code", "status_code"])
    );
    assert_eq!(family.series().len(), 1);
    let row = strings(&["", "eu-west-3", "", "", "", ""]);
    assert_eq!(family.series()[0], row);
    assert_eq!(family.value(&row), Some(1));
}

#[test]
fn organization_event_without_type_code() {
    let scraper = Scraper::new(None, None, true);
    let mut f = scraper.start_fetch();
    let event = OrganizationEvent {
        region: Some("us-east-1".to_string()),
        service: Some("EC2".to_string()),
        event_type_category: Some("issue".to_string()),
        event_type_code: None,
        status_code: Some("open".to_string()),
    };
    assert!(matches!(f.on_page(&vec![event], None), Action::Finish));
    let family = f.into_result().unwrap();
    assert_eq!(
        family.label_names(),
        &strings(&["region", "service", "event_type_category", "event_type_code", "status_code"])
    );
    assert_eq!(family.series().len(), 1);
    let row = strings(&["us-east-1", "EC2", "issue", "", "open"]);
    assert_eq!(family.series()[0], row);
    assert_eq!(family.value(&row), Some(1));
}

#[test]
fn equal_events_share_one_series() {
    let mut f = account_fetcher();
    let page = vec![account_event(Some("eu-west-3")), account_event(Some("eu-west-3")), account_event(None)];
    assert!(matches!(f.on_page(&page, None), Action::Finish));
    let family = f.into_result().unwrap();
    assert_eq!(family.series().len(), 2);
    assert_eq!(family.value(&strings(&["", "", "", "", "", ""])), Some(1));
    assert_eq!(family.value(&strings(&["", "us-east-1", "", "", "", ""])), None);
}
