use vstd::prelude::*;

verus! {

/// What can end a scrape cycle. Each variant carries the text of the
/// underlying failure where there is one.
#[derive(Debug)]
pub enum Error {
    /// A region name that the provider does not know.
    InvalidRegion(String),
    /// The role could not be assumed, or gave no usable credentials.
    CredentialsError(String),
    /// The listing call failed for a reason other than rate limiting.
    ProviderError(String),
    /// The rate-limit retry budget of one page was spent.
    TooManyRetries,
    /// A label set did not fit the schema of the metric family.
    MetricRegistrationError(String),
}

impl Clone for Error {
    fn clone(&self) -> (r: Error)
        ensures
            r == *self,
    {
        match self {
            Error::InvalidRegion(m) => Error::InvalidRegion(m.clone()),
            Error::CredentialsError(m) => Error::CredentialsError(m.clone()),
            Error::ProviderError(m) => Error::ProviderError(m.clone()),
            Error::TooManyRetries => Error::TooManyRetries,
            Error::MetricRegistrationError(m) => Error::MetricRegistrationError(m.clone()),
        }
    }
}

impl Error {
    /// The text of the failure, for a log line.
    pub open spec fn message_spec(&self) -> Seq<char> {
        match self {
            Error::InvalidRegion(m) => m@,
            Error::CredentialsError(m) => m@,
            Error::ProviderError(m) => m@,
            Error::TooManyRetries => "too many retries of a rate-limited request"@,
            Error::MetricRegistrationError(m) => m@,
        }
    }

    pub fn message(&self) -> (r: String)
        ensures
            r@ == self.message_spec(),
    {
        match self {
            Error::InvalidRegion(m) => m.clone(),
            Error::CredentialsError(m) => m.clone(),
            Error::ProviderError(m) => m.clone(),
            Error::TooManyRetries => String::from_str("too many retries of a rate-limited request"),
            Error::MetricRegistrationError(m) => m.clone(),
        }
    }
}

} // verus!
