use vstd::prelude::*;

use crate::metrics::strings_view;

verus! {

/// The label value of an optional field: its text, or empty when absent.
pub open spec fn label_of(field: Option<String>) -> Seq<char> {
    match field {
        Some(s) => s@,
        None => Seq::empty(),
    }
}

/// The label value of `field` as a string.
pub fn label(field: &Option<String>) -> (r: String)
    ensures
        r@ == label_of(*field),
{
    match field {
        Some(s) => s.clone(),
        None => String::new(),
    }
}

/// An event that projects onto an ordered list of label values.
pub trait LabeledEvent {
    /// The label values, in schema order.
    spec fn label_row(&self) -> Seq<Seq<char>>;

    fn label_values(&self) -> (r: Vec<String>)
        ensures
            strings_view(r@) == self.label_row(),
    ;
}

/// An event of the account-scoped listing.
pub struct AccountEvent {
    pub availability_zone: Option<String>,
    pub region: Option<String>,
    pub service: Option<String>,
    pub event_type_category: Option<String>,
    pub event_type_code: Option<String>,
    pub status_code: Option<String>,
}

/// An event of the organization-scoped listing, which has no availability zone.
pub struct OrganizationEvent {
    pub region: Option<String>,
    pub service: Option<String>,
    pub event_type_category: Option<String>,
    pub event_type_code: Option<String>,
    pub status_code: Option<String>,
}

/// The label values shared by both kinds of event.
pub open spec fn common_row(
    region: Option<String>,
    service: Option<String>,
    event_type_category: Option<String>,
    event_type_code: Option<String>,
    status_code: Option<String>,
) -> Seq<Seq<char>> {
    seq![
        label_of(region),
        label_of(service),
        label_of(event_type_category),
        label_of(event_type_code),
        label_of(status_code),
    ]
}

fn common_values(
    region: &Option<String>,
    service: &Option<String>,
    event_type_category: &Option<String>,
    event_type_code: &Option<String>,
    status_code: &Option<String>,
) -> (r: Vec<String>)
    ensures
        strings_view(r@) == common_row(*region, *service, *event_type_category, *event_type_code, *status_code),
{
    let mut r: Vec<String> = Vec::new();
    r.push(label(region));
    r.push(label(service));
    r.push(label(event_type_category));
    r.push(label(event_type_code));
    r.push(label(status_code));
    assert(strings_view(r@) =~= common_row(*region, *service, *event_type_category, *event_type_code, *status_code));
    r
}

impl LabeledEvent for AccountEvent {
    open spec fn label_row(&self) -> Seq<Seq<char>> {
        seq![label_of(self.availability_zone)] + common_row(
            self.region,
            self.service,
            self.event_type_category,
            self.event_type_code,
            self.status_code,
        )
    }

    fn label_values(&self) -> (r: Vec<String>) {
        let mut r: Vec<String> = Vec::new();
        r.push(label(&self.availability_zone));
        let mut rest = common_values(
            &self.region,
            &self.service,
            &self.event_type_category,
            &self.event_type_code,
            &self.status_code,
        );
        let ghost tail = strings_view(rest@);
        r.append(&mut rest);
        assert(strings_view(r@) =~= self.label_row());
        r
    }
}

impl LabeledEvent for OrganizationEvent {
    open spec fn label_row(&self) -> Seq<Seq<char>> {
        common_row(self.region, self.service, self.event_type_category, self.event_type_code, self.status_code)
    }

    fn label_values(&self) -> (r: Vec<String>) {
        common_values(&self.region, &self.service, &self.event_type_category, &self.event_type_code, &self.status_code)
    }
}

/// Which of the two event listings a scraper reads.
#[derive(PartialEq, Eq, Structural, Clone, Copy, Debug)]
pub enum EventScope {
    Account,
    Organization,
}

/// The label names of the shared part of the schema.
pub open spec fn common_schema() -> Seq<Seq<char>> {
    seq!["region"@, "service"@, "event_type_category"@, "event_type_code"@, "status_code"@]
}

impl EventScope {
    /// The label schema of the scope's metric family: the organization scope
    /// drops the availability zone.
    pub open spec fn schema(self) -> Seq<Seq<char>> {
        match self {
            EventScope::Account => seq!["availability_zone"@] + common_schema(),
            EventScope::Organization => common_schema(),
        }
    }

    pub fn label_names(self) -> (r: Vec<String>)
        ensures
            strings_view(r@) == self.schema(),
    {
        let mut r: Vec<String> = Vec::new();
        if self == EventScope::Account {
            r.push(String::from_str("availability_zone"));
        }
        r.push(String::from_str("region"));
        r.push(String::from_str("service"));
        r.push(String::from_str("event_type_category"));
        r.push(String::from_str("event_type_code"));
        r.push(String::from_str("status_code"));
        assert(strings_view(r@) =~= self.schema());
        r
    }
}

/// Every account-scoped event projects onto the six labels of its schema,
/// and a field that is absent becomes an empty label value, never a missing
/// label.
pub proof fn lemma_account_projection_total(e: AccountEvent)
    ensures
        e.label_row().len() == EventScope::Account.schema().len() == 6,
        e.availability_zone is None ==> e.label_row()[0] == Seq::<char>::empty(),
        e.region is None ==> e.label_row()[1] == Seq::<char>::empty(),
        e.service is None ==> e.label_row()[2] == Seq::<char>::empty(),
        e.event_type_category is None ==> e.label_row()[3] == Seq::<char>::empty(),
        e.event_type_code is None ==> e.label_row()[4] == Seq::<char>::empty(),
        e.status_code is None ==> e.label_row()[5] == Seq::<char>::empty(),
{
}

/// Every organization-scoped event projects onto the five labels of its
/// schema, and a field that is absent becomes an empty label value.
pub proof fn lemma_organization_projection_total(e: OrganizationEvent)
    ensures
        e.label_row().len() == EventScope::Organization.schema().len() == 5,
        e.region is None ==> e.label_row()[0] == Seq::<char>::empty(),
        e.service is None ==> e.label_row()[1] == Seq::<char>::empty(),
        e.event_type_category is None ==> e.label_row()[2] == Seq::<char>::empty(),
        e.event_type_code is None ==> e.label_row()[3] == Seq::<char>::empty(),
        e.status_code is None ==> e.label_row()[4] == Seq::<char>::empty(),
{
}

} // verus!
