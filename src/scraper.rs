use vstd::prelude::*;

use crate::error::Error;
use crate::event::EventScope;
use crate::fetcher::{start, Fetcher};
use crate::metrics::{strings_view, MetricFamily};
use crate::request::{category_names, copy_opt_strings, opt_seq, GenericFilter, GenericRequest};

verus! {

/// The name of the gauge that counts the observed events.
pub open spec fn family_name() -> Seq<char> {
    "aws_health_events"@
}

/// The top of a scrape cycle: what to ask for, of which listing, and into
/// which metric family.
pub struct Scraper {
    regions: Option<Vec<String>>,
    services: Option<Vec<String>>,
    scope: EventScope,
}

impl Scraper {
    pub closed spec fn regions_spec(&self) -> Option<Seq<String>> {
        opt_seq(self.regions)
    }

    pub closed spec fn services_spec(&self) -> Option<Seq<String>> {
        opt_seq(self.services)
    }

    pub closed spec fn scope_spec(&self) -> EventScope {
        self.scope
    }

    /// A scraper for events of `regions` and `services` (all of them where
    /// unset), of the organization when `use_organization` holds, else of
    /// the account.
    pub fn new(regions: Option<Vec<String>>, services: Option<Vec<String>>, use_organization: bool) -> (r: Scraper)
        ensures
            r.regions_spec() == opt_seq(regions),
            r.services_spec() == opt_seq(services),
            r.scope_spec() == (if use_organization { EventScope::Organization } else { EventScope::Account }),
    {
        let scope = if use_organization {
            EventScope::Organization
        } else {
            EventScope::Account
        };
        Scraper { regions, services, scope }
    }

    pub fn scope(&self) -> (r: EventScope)
        ensures
            r == self.scope_spec(),
    {
        self.scope
    }

    /// The filter of a cycle: the configured regions and services, issues
    /// and scheduled changes.
    pub fn event_filter(&self) -> (r: GenericFilter)
        ensures
            opt_seq(r.regions) == self.regions_spec(),
            opt_seq(r.services) == self.services_spec(),
            strings_view(r.event_type_categories@) == category_names(),
    {
        GenericFilter::new(copy_opt_strings(&self.regions), copy_opt_strings(&self.services))
    }

    /// The first request of a cycle.
    pub fn build_request(&self) -> (r: GenericRequest)
        ensures
            r.filter is Some,
            opt_seq(r.filter->Some_0.regions) == self.regions_spec(),
            opt_seq(r.filter->Some_0.services) == self.services_spec(),
            strings_view(r.filter->Some_0.event_type_categories@) == category_names(),
            r.locale@ == "en"@,
            r.max_results is None,
            r.cursor is None,
    {
        GenericRequest::new(Some(self.event_filter()))
    }

    /// An empty family with the label schema of the scraper's listing.
    pub fn new_family(&self) -> (r: MetricFamily)
        ensures
            r.wf(),
            r.name_spec() == family_name(),
            r.help_spec() == "AWS Health events"@,
            r.names() == self.scope_spec().schema(),
            r.rows().len() == 0,
    {
        MetricFamily::new(
            String::from_str("aws_health_events"),
            String::from_str("AWS Health events"),
            self.scope.label_names(),
        )
    }

    /// The fetch of a cycle: from the first page, into an empty family.
    pub fn start_fetch(&self) -> (r: Fetcher)
        ensures
            r.wf(),
            r@ == start(None),
            r.family_spec().name_spec() == family_name(),
            r.family_spec().names() == self.scope_spec().schema(),
            r.family_spec().rows().len() == 0,
    {
        Fetcher::new(self.new_family(), None)
    }
}

/// The status a metrics endpoint reports for one cycle, given the error that
/// ended it if one did: the label of the request counter, and the value of
/// the success gauge.
pub fn scrape_status(error: &Option<Error>) -> (r: (String, i64))
    ensures
        error is None ==> r.0@ == "success"@ && r.1 == 1,
        error is Some ==> r.0@ == "error"@ && r.1 == 0,
{
    match error {
        None => (String::from_str("success"), 1),
        Some(_) => (String::from_str("error"), 0),
    }
}

} // verus!
