//! Per-platform login sessions: the stored row and how it changes.
use vstd::prelude::*;

use crate::text::str_eq;

verus! {

/// State of a platform's session.
#[derive(Debug, Clone, Copy, PartialEq, Eq, Structural)]
pub enum SessionStatus {
    /// No session is stored (persisted as `NONE`).
    Absent,
    Active,
    Expired,
}

impl SessionStatus {
    pub open spec fn text(self) -> Seq<char> {
        match self {
            SessionStatus::Absent => "NONE"@,
            SessionStatus::Active => "ACTIVE"@,
            SessionStatus::Expired => "EXPIRED"@,
        }
    }

    pub fn as_str(&self) -> (r: &'static str)
        ensures
            r@ == self.text(),
    {
        match self {
            SessionStatus::Absent => "NONE",
            SessionStatus::Active => "ACTIVE",
            SessionStatus::Expired => "EXPIRED",
        }
    }

    pub fn parse(s: &str) -> (r: Option<SessionStatus>)
        ensures
            match r {
                Some(t) => t.text() == s@,
                None => forall|t: SessionStatus| t.text() != s@,
            },
    {
        if str_eq(s, "NONE") {
            Some(SessionStatus::Absent)
        } else if str_eq(s, "ACTIVE") {
            Some(SessionStatus::Active)
        } else if str_eq(s, "EXPIRED") {
            Some(SessionStatus::Expired)
        } else {
            None
        }
    }
}

/// One row of the session table. Cookies are only ever stored encrypted.
/// Times are milliseconds since the Unix epoch.
pub struct SessionRow {
    pub platform_id: String,
    pub status: SessionStatus,
    pub encrypted_cookies: Option<Vec<u8>>,
    /// Where the cookies came from (`webview`, `browser_import:<name>`, `manual`).
    pub cookie_method: String,
    pub expires_at: Option<i64>,
    pub last_verified: Option<i64>,
    pub created_at: i64,
    pub updated_at: i64,
}

/// The row after a session was stored: ACTIVE with the new encrypted
/// cookies and method; a new row where the platform had none.
pub fn session_after_set(
    existing: Option<SessionRow>,
    platform_id: String,
    encrypted_cookies: Vec<u8>,
    cookie_method: String,
    now: i64,
) -> (r: SessionRow)
    ensures
        r.status == SessionStatus::Active,
        r.encrypted_cookies == Some(encrypted_cookies),
        r.cookie_method == cookie_method,
        r.updated_at == now,
        match existing {
            Some(e) => r.platform_id == e.platform_id && r.created_at == e.created_at
                && r.expires_at == e.expires_at && r.last_verified == e.last_verified,
            None => r.platform_id == platform_id && r.created_at == now && r.expires_at is None
                && r.last_verified is None,
        },
{
    match existing {
        Some(e) => SessionRow {
            platform_id: e.platform_id,
            status: SessionStatus::Active,
            encrypted_cookies: Some(encrypted_cookies),
            cookie_method,
            expires_at: e.expires_at,
            last_verified: e.last_verified,
            created_at: e.created_at,
            updated_at: now,
        },
        None => SessionRow {
            platform_id,
            status: SessionStatus::Active,
            encrypted_cookies: Some(encrypted_cookies),
            cookie_method,
            expires_at: None,
            last_verified: None,
            created_at: now,
            updated_at: now,
        },
    }
}

/// The row after the session was deleted: no cookies, status NONE.
pub fn session_after_delete(row: SessionRow, now: i64) -> (r: SessionRow)
    ensures
        r.status == SessionStatus::Absent,
        r.encrypted_cookies is None,
        r.platform_id == row.platform_id,
        r.cookie_method == row.cookie_method,
        r.created_at == row.created_at,
        r.updated_at == now,
{
    SessionRow {
        platform_id: row.platform_id,
        status: SessionStatus::Absent,
        encrypted_cookies: None,
        cookie_method: row.cookie_method,
        expires_at: row.expires_at,
        last_verified: row.last_verified,
        created_at: row.created_at,
        updated_at: now,
    }
}

/// The encrypted cookies to hand to the downloader: those of an ACTIVE
/// session only.
pub fn usable_cookies(row: &Option<SessionRow>) -> (r: Option<&Vec<u8>>)
    ensures
        match *row {
            Some(s) => if s.status == SessionStatus::Active && s.encrypted_cookies is Some {
                r == Some(&s.encrypted_cookies->0)
            } else {
                r is None
            },
            None => r is None,
        },
{
    match row {
        Some(s) => {
            if s.status == SessionStatus::Active {
                match &s.encrypted_cookies {
                    Some(c) => Some(c),
                    None => None,
                }
            } else {
                None
            }
        },
        None => None,
    }
}

} // verus!
