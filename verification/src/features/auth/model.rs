//! Users, sessions and the external services a user has connected.
use vstd::prelude::*;
use crate::shared::clock::{clock_reading, now_unix_nanos};
use crate::shared::text::str_eq;

verus! {

/// A user account. OAuth-only accounts have no password hash.
#[derive(Debug)]
pub struct User {
    pub id: u128,
    pub username: String,
    pub email: String,
    pub password_hash: Option<String>,
    pub github_id: Option<String>,
    pub language: String,
    /// Nanoseconds since the Unix epoch.
    pub created_at: i128,
    pub updated_at: i128,
}

/// A login session; its id is the bearer token.
#[derive(Debug, Clone, Copy)]
pub struct Session {
    pub id: u128,
    pub user_id: u128,
    /// Nanoseconds since the Unix epoch.
    pub created_at: i128,
    pub expires_at: i128,
}

/// A session together with its user's name.
#[derive(Debug)]
pub struct SessionWithUsername {
    pub id: u128,
    pub user_id: u128,
    pub username: String,
    /// Nanoseconds since the Unix epoch.
    pub expires_at: i128,
}

/// How long a session lasts: seven days, in nanoseconds.
pub const SESSION_DURATION_NANOS: i128 = 604_800_000_000_000i128;

/// When a session opened at `now` (nanoseconds since the epoch) expires.
pub fn session_expiry(now: i128) -> (r: i128)
    requires
        now <= i128::MAX - SESSION_DURATION_NANOS,
    ensures
        r == now + SESSION_DURATION_NANOS,
{
    now + SESSION_DURATION_NANOS
}

impl Session {
    /// Whether the session had expired at `now`: its expiry lies strictly before.
    pub fn is_expired_at(&self, now: i128) -> (r: bool)
        ensures
            r == (self.expires_at < now),
    {
        self.expires_at < now
    }

    /// Whether the session has expired at the moment of the call: whether its expiry
    /// lies strictly before the clock's reading. A session that expires before any
    /// instant the clock can read has always expired; one that expires after every
    /// such instant never has.
    pub fn is_expired(&self) -> (r: bool)
        ensures
            exists|t: int| #[trigger] clock_reading(t) && r == (self.expires_at < t),
            self.expires_at <= -40_000_000_000_000_000_000_000 ==> r,
            self.expires_at >= 40_000_000_000_000_000_000_000 ==> !r,
    {
        let now = now_unix_nanos();
        let r = self.is_expired_at(now);
        assert(clock_reading(now as int) && r == (self.expires_at < now as int));
        r
    }
}

impl SessionWithUsername {
    /// Whether the session had expired at `now`: its expiry lies strictly before.
    pub fn is_expired_at(&self, now: i128) -> (r: bool)
        ensures
            r == (self.expires_at < now),
    {
        self.expires_at < now
    }

    /// Whether the session has expired at the moment of the call: whether its expiry
    /// lies strictly before the clock's reading. A session that expires before any
    /// instant the clock can read has always expired; one that expires after every
    /// such instant never has.
    pub fn is_expired(&self) -> (r: bool)
        ensures
            exists|t: int| #[trigger] clock_reading(t) && r == (self.expires_at < t),
            self.expires_at <= -40_000_000_000_000_000_000_000 ==> r,
            self.expires_at >= 40_000_000_000_000_000_000_000 ==> !r,
    {
        let now = now_unix_nanos();
        let r = self.is_expired_at(now);
        assert(clock_reading(now as int) && r == (self.expires_at < now as int));
        r
    }
}

/// An external service that a user can connect.
#[derive(Debug, Clone, Copy, PartialEq, Eq, Structural)]
pub enum ServiceKind {
    Github,
    Http,
}

pub open spec fn service_text(s: ServiceKind) -> Seq<char> {
    match s {
        ServiceKind::Github => "github"@,
        ServiceKind::Http => "http"@,
    }
}

pub proof fn lemma_service_texts_differ()
    ensures
        "github"@ != "http"@,
{
    reveal_strlit("github");
    reveal_strlit("http");
    assert("github"@.len() != "http"@.len());
}

impl ServiceKind {
    pub fn as_str(&self) -> (r: &'static str)
        ensures
            r@ == service_text(*self),
    {
        match self {
            ServiceKind::Github => "github",
            ServiceKind::Http => "http",
        }
    }

    /// Reads a service from its text; `None` for any other text.
    pub fn parse(s: &str) -> (r: Option<ServiceKind>)
        ensures
            match r {
                Some(k) => service_text(k) == s@,
                None => s@ != "github"@ && s@ != "http"@,
            },
    {
        if str_eq(s, "github") {
            Some(ServiceKind::Github)
        } else if str_eq(s, "http") {
            Some(ServiceKind::Http)
        } else {
            None
        }
    }
}

/// Reading a service's text gives the service back.
pub proof fn law_service_text_round_trip(a: ServiceKind, b: ServiceKind)
    ensures
        service_text(a) == service_text(b) <==> a == b,
{
    lemma_service_texts_differ();
}

/// A service connected by a user, with its encrypted access token.
#[derive(Debug)]
pub struct ConnectedService {
    pub id: u128,
    pub user_id: u128,
    pub service: ServiceKind,
    pub encrypted_token: Vec<u8>,
    /// Nanoseconds since the Unix epoch.
    pub created_at: i128,
}

} // verus!
