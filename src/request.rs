use vstd::prelude::*;

use crate::event::EventScope;

verus! {

/// A copy of `v`, string for string.
pub fn copy_strings(v: &Vec<String>) -> (r: Vec<String>)
    ensures
        r@ == v@,
{
    let mut r: Vec<String> = Vec::new();
    let mut i: usize = 0;
    while i < v.len()
        invariant
            i <= v@.len(),
            r@ == v@.subrange(0, i as int),
        decreases v.len() - i,
    {
        r.push(v[i].clone());
        i = i + 1;
    }
    assert(r@ =~= v@);
    r
}

/// The items of an optional list.
pub open spec fn opt_seq(v: Option<Vec<String>>) -> Option<Seq<String>> {
    match v {
        Some(v) => Some(v@),
        None => None,
    }
}

/// A copy of an optional list of strings.
pub fn copy_opt_strings(v: &Option<Vec<String>>) -> (r: Option<Vec<String>>)
    ensures
        opt_seq(r) == opt_seq(*v),
{
    match v {
        Some(v) => Some(copy_strings(v)),
        None => None,
    }
}

fn copy_opt_string(s: &Option<String>) -> (r: Option<String>)
    ensures
        r == *s,
{
    match s {
        Some(s) => Some(s.clone()),
        None => None,
    }
}

/// The event-type categories that every filter asks for.
pub open spec fn category_names() -> Seq<Seq<char>> {
    seq!["issue"@, "scheduledChange"@]
}

/// A filter that either listing understands. A list left unset asks for
/// events of every region, or of every service.
pub struct GenericFilter {
    pub regions: Option<Vec<String>>,
    pub services: Option<Vec<String>>,
    pub event_type_categories: Vec<String>,
}

impl GenericFilter {
    /// A filter on `regions` and `services` for issues and scheduled changes.
    pub fn new(regions: Option<Vec<String>>, services: Option<Vec<String>>) -> (r: GenericFilter)
        ensures
            r.regions == regions,
            r.services == services,
            r.event_type_categories@.map_values(|s: String| s@) == category_names(),
    {
        let mut categories: Vec<String> = Vec::new();
        categories.push(String::from_str("issue"));
        categories.push(String::from_str("scheduledChange"));
        assert(categories@.map_values(|s: String| s@) =~= category_names());
        GenericFilter { regions, services, event_type_categories: categories }
    }
}

/// One request of a scrape cycle, before it is adapted to a listing.
pub struct GenericRequest {
    pub filter: Option<GenericFilter>,
    pub locale: String,
    /// Left unset: the provider picks the page size.
    pub max_results: Option<u32>,
    /// The provider's cursor, present from the second page on.
    pub cursor: Option<String>,
}

impl GenericRequest {
    /// The first request of a cycle: in English, with no cursor.
    pub fn new(filter: Option<GenericFilter>) -> (r: GenericRequest)
        ensures
            r.filter == filter,
            r.locale@ == "en"@,
            r.max_results is None,
            r.cursor is None,
    {
        GenericRequest { filter, locale: String::from_str("en"), max_results: None, cursor: None }
    }

    /// Moves the request on to the page that `cursor` names.
    pub fn set_cursor(&mut self, cursor: Option<String>)
        ensures
            final(self).cursor == cursor,
            final(self).filter == old(self).filter,
            final(self).locale == old(self).locale,
            final(self).max_results == old(self).max_results,
    {
        self.cursor = cursor;
    }

    /// The request in the shape of the listing of `scope`, field for field.
    pub fn into_concrete_request(&self, scope: EventScope) -> (r: ConcreteRequest)
        ensures
            r.matches(*self, scope),
    {
        match scope {
            EventScope::Account => ConcreteRequest::Account(
                AccountEventsRequest {
                    filter: match &self.filter {
                        Some(f) => Some(
                            EventFilter {
                                regions: copy_opt_strings(&f.regions),
                                services: copy_opt_strings(&f.services),
                                event_type_categories: copy_strings(&f.event_type_categories),
                            },
                        ),
                        None => None,
                    },
                    locale: self.locale.clone(),
                    max_results: self.max_results,
                    next_token: copy_opt_string(&self.cursor),
                },
            ),
            EventScope::Organization => ConcreteRequest::Organization(
                OrganizationEventsRequest {
                    filter: match &self.filter {
                        Some(f) => Some(
                            OrganizationEventFilter {
                                regions: copy_opt_strings(&f.regions),
                                services: copy_opt_strings(&f.services),
                                event_type_categories: copy_strings(&f.event_type_categories),
                            },
                        ),
                        None => None,
                    },
                    locale: self.locale.clone(),
                    max_results: self.max_results,
                    next_token: copy_opt_string(&self.cursor),
                },
            ),
        }
    }
}

/// The filter of the account-scoped listing.
pub struct EventFilter {
    pub regions: Option<Vec<String>>,
    pub services: Option<Vec<String>>,
    pub event_type_categories: Vec<String>,
}

/// A request of the account-scoped listing.
pub struct AccountEventsRequest {
    pub filter: Option<EventFilter>,
    pub locale: String,
    pub max_results: Option<u32>,
    pub next_token: Option<String>,
}

/// The filter of the organization-scoped listing.
pub struct OrganizationEventFilter {
    pub regions: Option<Vec<String>>,
    pub services: Option<Vec<String>>,
    pub event_type_categories: Vec<String>,
}

/// A request of the organization-scoped listing.
pub struct OrganizationEventsRequest {
    pub filter: Option<OrganizationEventFilter>,
    pub locale: String,
    pub max_results: Option<u32>,
    pub next_token: Option<String>,
}

/// A request in the shape of one of the two listings.
pub enum ConcreteRequest {
    Account(AccountEventsRequest),
    Organization(OrganizationEventsRequest),
}

impl ConcreteRequest {
    /// Whether this is `g` adapted to the listing of `scope`: every field
    /// copied as it is.
    pub open spec fn matches(self, g: GenericRequest, scope: EventScope) -> bool {
        match self {
            ConcreteRequest::Account(a) => {
                &&& scope == EventScope::Account
                &&& a.locale == g.locale
                &&& a.max_results == g.max_results
                &&& a.next_token == g.cursor
                &&& match (a.filter, g.filter) {
                    (Some(f), Some(h)) => opt_seq(f.regions) == opt_seq(h.regions) && opt_seq(f.services) == opt_seq(h.services)
                        && f.event_type_categories@ == h.event_type_categories@,
                    (None, None) => true,
                    _ => false,
                }
            },
            ConcreteRequest::Organization(o) => {
                &&& scope == EventScope::Organization
                &&& o.locale == g.locale
                &&& o.max_results == g.max_results
                &&& o.next_token == g.cursor
                &&& match (o.filter, g.filter) {
                    (Some(f), Some(h)) => opt_seq(f.regions) == opt_seq(h.regions) && opt_seq(f.services) == opt_seq(h.services)
                        && f.event_type_categories@ == h.event_type_categories@,
                    (None, None) => true,
                    _ => false,
                }
            },
        }
    }
}

} // verus!
