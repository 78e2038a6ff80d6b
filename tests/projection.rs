use aws_health_exporter::metrics::MetricFamily;
use aws_health_exporter::request::GenericRequest;
use aws_health_exporter::scraper::scrape_status;
use aws_health_exporter::{AccountEvent, ConcreteRequest, Error, EventScope, LabeledEvent, OrganizationEvent, Scraper};

fn strings(v: &[&str]) -> Vec<String> {
    v.iter().map(|s| s.to_string()).collect()
}

#[test]
fn account_event_without_fields_has_six_empty_labels() {
    let e = AccountEvent {
        availability_zone: None,
        region: None,
        service: None,
        event_type_category: None,
        event_type_code: None,
        status_code: None,
    };
    assert_eq!(e.label_values(), strings(&["", "", "", "", "", ""]));
}

#[test]
fn account_event_labels_in_schema_order() {
    let e = AccountEvent {
        availability_zone: Some("eu-west-3a".to_string()),
        region: Some("eu-west-3".to_string()),
        service: None,
        event_type_category: Some("scheduledChange".to_string()),
        event_type_code: Some("AWS_EC2_MAINTENANCE".to_string()),
        status_code: None,
    };
    assert_eq!(
        e.label_values(),
        strings(&["eu-west-3a", "eu-west-3", "", "scheduledChange", "AWS_EC2_MAINTENANCE", ""])
    );
    assert_eq!(EventScope::Account.label_names().len(), e.label_values().len());
}

#[test]
fn organization_event_has_five_labels() {
    let e = OrganizationEvent {
        region: None,
        service: Some("S3".to_string()),
        event_type_category: None,
        event_type_code: None,
        status_code: None,
    };
    assert_eq!(e.label_values(), strings(&["", "S3", "", "", ""]));
    assert_eq!(
        EventScope::Organization.label_names(),
        strings(&["region", "service", "event_type_category", "event_type_code", "status_code"])
    );
}

#[test]
fn family_refuses_wrong_label_count() {
    let mut f = MetricFamily::new("g".to_string(), "help".to_string(), strings(&["a", "b"]));
    assert!(matches!(f.set(&strings(&["x"])), Err(Error::MetricRegistrationError(_))));
    assert!(f.series().is_empty());
    assert!(f.set(&strings(&["x", "y"])).is_ok());
    assert!(f.set(&strings(&["x", "y"])).is_ok());
    assert_eq!(f.series().len(), 1);
    assert_eq!(f.value(&strings(&["x", "y"])), Some(1));
    assert_eq!(f.value(&strings(&["y", "x"])), None);
    assert_eq!(f.help(), "help");
}

#[test]
fn request_adapts_to_both_listings() {
    let scraper = Scraper::new(Some(strings(&["eu-west-3", "global"])), Some(strings(&["EC2"])), false);
    let mut request = scraper.build_request();
    assert_eq!(request.locale, "en");
    assert_eq!(request.max_results, None);
    assert_eq!(request.cursor, None);
    assert_eq!(
        request.filter.as_ref().unwrap().event_type_categories,
        strings(&["issue", "scheduledChange"])
    );
    request.set_cursor(Some("next".to_string()));
    match request.into_concrete_request(EventScope::Account) {
        ConcreteRequest::Account(a) => {
            let f = a.filter.unwrap();
            assert_eq!(f.regions, Some(strings(&["eu-west-3", "global"])));
            assert_eq!(f.services, Some(strings(&["EC2"])));
            assert_eq!(f.event_type_categories, strings(&["issue", "scheduledChange"]));
            assert_eq!(a.locale, "en");
            assert_eq!(a.next_token, Some("next".to_string()));
        },
        ConcreteRequest::Organization(_) => panic!("expected the account listing"),
    }
    match request.into_concrete_request(EventScope::Organization) {
        ConcreteRequest::Organization(o) => {
            let f = o.filter.unwrap();
            assert_eq!(f.regions, Some(strings(&["eu-west-3", "global"])));
            assert_eq!(o.next_token, Some("next".to_string()));
        },
        ConcreteRequest::Account(_) => panic!("expected the organization listing"),
    }
    let bare = GenericRequest::new(None);
    match bare.into_concrete_request(EventScope::Organization) {
        ConcreteRequest::Organization(o) => assert!(o.filter.is_none()),
        ConcreteRequest::Account(_) => panic!("expected the organization listing"),
    }
}

#[test]
fn scraper_scope_follows_flag() {
    assert_eq!(Scraper::new(None, None, true).scope(), EventScope::Organization);
    assert_eq!(Scraper::new(None, None, false).scope(), EventScope::Account);
    let filter = Scraper::new(None, None, false).event_filter();
    assert!(filter.regions.is_none());
    assert!(filter.services.is_none());
}

#[test]
fn status_of_a_scrape() {
    let family = Scraper::new(None, None, false).new_family();
    assert_eq!(family.help(), "AWS Health events");
    let (label, value) = scrape_status(&None);
    assert_eq!((label.as_str(), value), ("success", 1));
    let (label, value) = scrape_status(&Some(Error::TooManyRetries));
    assert_eq!((label.as_str(), value), ("error", 0));
    assert_eq!(Error::TooManyRetries.message(), "too many retries of a rate-limited request");
    assert_eq!(Error::ProviderError("boom".to_string()).message(), "boom");
}
