use vstd::prelude::*;

use crate::error::Error;

verus! {

/// Credentials are renewed when they would expire within this many seconds.
pub const SAFETY_MARGIN_SECS: u64 = 60;

/// A temporary credential set, as one role assumption issues it.
#[derive(Debug)]
pub struct CredentialSet {
    pub access_key: String,
    pub secret_key: String,
    pub session_token: String,
    /// Expiry, in seconds since the Unix epoch.
    pub expiry: u64,
}

impl Clone for CredentialSet {
    fn clone(&self) -> (r: CredentialSet)
        ensures
            r == *self,
    {
        CredentialSet {
            access_key: self.access_key.clone(),
            secret_key: self.secret_key.clone(),
            session_token: self.session_token.clone(),
            expiry: self.expiry,
        }
    }
}

/// Whether `c` may still be handed out at `now`: it expires later than the
/// safety margin from now.
pub open spec fn still_valid(c: CredentialSet, now: u64) -> bool {
    c.expiry > now + SAFETY_MARGIN_SECS
}

impl CredentialSet {
    pub fn is_valid_at(&self, now: u64) -> (r: bool)
        ensures
            r == still_valid(*self, now),
    {
        self.expiry > now && self.expiry - now > SAFETY_MARGIN_SECS
    }
}

/// What a caller of the cache must do.
#[derive(Debug)]
pub enum CacheDecision {
    /// Use these credentials.
    Use(CredentialSet),
    /// Assume the role, then report the outcome with `complete_refresh`.
    Refresh,
    /// Another caller is refreshing: wait for it, then collect its outcome
    /// with `awaited_outcome` and this ticket.
    Await(u64),
}

/// The state of the cache.
pub struct CacheState {
    pub cached: Option<CredentialSet>,
    pub refreshing: bool,
    /// Refreshes completed so far.
    pub completed: u64,
    /// The outcome of the latest completed refresh.
    pub last: Option<Result<CredentialSet, Error>>,
}

/// What a caller at `now` is told, and the state that follows.
pub open spec fn decide(s: CacheState, now: u64) -> (CacheState, CacheDecision) {
    if s.cached is Some && still_valid(s.cached->Some_0, now) {
        (s, CacheDecision::Use(s.cached->Some_0))
    } else if s.refreshing {
        (s, CacheDecision::Await(s.completed))
    } else {
        (CacheState { refreshing: true, ..s }, CacheDecision::Refresh)
    }
}

/// The outcome of a role assumption as the cache reports it: a failure
/// becomes a `CredentialsError`.
pub open spec fn refresh_result(outcome: Result<CredentialSet, String>) -> Result<CredentialSet, Error> {
    match outcome {
        Ok(c) => Ok(c),
        Err(m) => Err(Error::CredentialsError(m)),
    }
}

/// The state after a refresh ends with `outcome`: the credentials replace the
/// cached ones wholesale, and a failure clears them.
pub open spec fn complete(s: CacheState, outcome: Result<CredentialSet, String>) -> CacheState {
    CacheState {
        cached: match outcome {
            Ok(c) => Some(c),
            Err(_) => None,
        },
        refreshing: false,
        completed: (s.completed + 1) as u64,
        last: Some(refresh_result(outcome)),
    }
}

/// What a waiter with `ticket` collects: the latest outcome, once a refresh
/// has completed since it was told to wait.
pub open spec fn awaited(s: CacheState, ticket: u64) -> Option<Result<CredentialSet, Error>> {
    if s.completed > ticket {
        s.last
    } else {
        None
    }
}

/// A single-slot cache of temporary credentials. It hands out the cached set
/// while it is valid past the safety margin, and lets one caller at a time
/// renew it; the others wait for that renewal and share its outcome. The
/// caller holds the cache under a lock around each call.
pub struct CredentialCache {
    cached: Option<CredentialSet>,
    refreshing: bool,
    completed: u64,
    last: Option<Result<CredentialSet, Error>>,
}

impl View for CredentialCache {
    type V = CacheState;

    closed spec fn view(&self) -> CacheState {
        CacheState {
            cached: self.cached,
            refreshing: self.refreshing,
            completed: self.completed,
            last: self.last,
        }
    }
}

fn clone_result(o: &Result<CredentialSet, Error>) -> (r: Result<CredentialSet, Error>)
    ensures
        r == *o,
{
    match o {
        Ok(c) => Ok(c.clone()),
        Err(e) => Err(e.clone()),
    }
}

impl CredentialCache {
    /// An empty cache.
    pub fn new() -> (r: CredentialCache)
        ensures
            r@ == (CacheState { cached: None, refreshing: false, completed: 0, last: None }),
    {
        CredentialCache { cached: None, refreshing: false, completed: 0, last: None }
    }

    /// Asks for credentials at `now`.
    pub fn request(&mut self, now: u64) -> (r: CacheDecision)
        ensures
            (final(self)@, r) == decide(old(self)@, now),
    {
        if let Some(c) = &self.cached {
            if c.is_valid_at(now) {
                return CacheDecision::Use(c.clone());
            }
        }
        if self.refreshing {
            CacheDecision::Await(self.completed)
        } else {
            self.refreshing = true;
            CacheDecision::Refresh
        }
    }

    /// Reports how the role assumption ended, and returns what the caller
    /// that made it gets.
    pub fn complete_refresh(&mut self, outcome: Result<CredentialSet, String>) -> (r: Result<CredentialSet, Error>)
        requires
            old(self)@.completed < u64::MAX,
        ensures
            final(self)@ == complete(old(self)@, outcome),
            r == refresh_result(outcome),
    {
        let r = match outcome {
            Ok(c) => {
                self.cached = Some(c.clone());
                Ok(c)
            },
            Err(m) => {
                self.cached = None;
                Err(Error::CredentialsError(m))
            },
        };
        self.refreshing = false;
        self.completed = self.completed + 1;
        self.last = Some(clone_result(&r));
        r
    }

    /// The outcome that a waiter told `Await(ticket)` collects, once the
    /// refresh it waited for has ended.
    pub fn awaited_outcome(&self, ticket: u64) -> (r: Option<Result<CredentialSet, Error>>)
        ensures
            r == awaited(self@, ticket),
    {
        if self.completed > ticket {
            match &self.last {
                Some(o) => Some(clone_result(o)),
                None => None,
            }
        } else {
            None
        }
    }

    /// Refreshes completed so far.
    pub fn refreshes(&self) -> (r: u64)
        ensures
            r == self@.completed,
    {
        self.completed
    }

    /// Whether a refresh is under way.
    pub fn is_refreshing(&self) -> (r: bool)
        ensures
            r == self@.refreshing,
    {
        self.refreshing
    }
}

/// With a cached set that expires 59 seconds from now the cache asks for a
/// refresh; with one that expires 61 seconds from now it hands that set out.
pub proof fn lemma_refresh_margin(s: CacheState, c: CredentialSet, now: u64)
    requires
        s.cached == Some(c),
        !s.refreshing,
    ensures
        c.expiry == now + 59 ==> decide(s, now).1 is Refresh && decide(s, now).0.refreshing,
        c.expiry == now + 61 ==> decide(s, now) == (s, CacheDecision::Use(c)),
{
}

/// Two callers that find no valid credentials cause one role assumption:
/// the first is asked to refresh, the second to wait, and when the refresh
/// ends both get its outcome.
pub proof fn lemma_single_refresh(
    s: CacheState,
    now1: u64,
    now2: u64,
    outcome: Result<CredentialSet, String>,
)
    requires
        !s.refreshing,
        s.completed < u64::MAX,
        s.cached is None || (!still_valid(s.cached->Some_0, now1) && !still_valid(s.cached->Some_0, now2)),
    ensures
        decide(s, now1).1 is Refresh,
        decide(decide(s, now1).0, now2).1 == CacheDecision::Await(s.completed),
        awaited(complete(decide(decide(s, now1).0, now2).0, outcome), s.completed) == Some(
            refresh_result(outcome),
        ),
        awaited(decide(decide(s, now1).0, now2).0, s.completed) is None,
{
}

} // verus!
