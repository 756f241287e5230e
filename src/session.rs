//! The session carried by a request's cookies, and its extraction.
//!
//! Extraction is a strict two-phase check: every one of the four cookie
//! values must be present before any of them is parsed, so a missing value
//! is reported as such even where another value is malformed.
use crate::decimal::{decimal_text, lemma_decimal_round_trip, parse_unsigned, unsigned_value};
use vstd::prelude::*;

verus! {

/// The validated identity of an authenticated request. A value of this type
/// exists only fully populated.
#[derive(Debug, Clone, PartialEq, Eq)]
pub struct Session {
    pub id: u64,
    pub email: String,
    pub auth_key: String,
    pub time_stamp: u32,
}

/// A session with its text fields taken as character sequences.
pub struct SessionView {
    pub id: u64,
    pub email: Seq<char>,
    pub auth_key: Seq<char>,
    pub time_stamp: u32,
}

impl View for Session {
    type V = SessionView;

    open spec fn view(&self) -> SessionView {
        SessionView {
            id: self.id,
            email: self.email@,
            auth_key: self.auth_key@,
            time_stamp: self.time_stamp,
        }
    }
}

/// The four cookie values that a session is made from, each as the jar
/// handed it out: `None` where the jar has no cookie of that name.
#[derive(Debug, Clone, PartialEq, Eq)]
pub struct SessionCookies {
    pub id: Option<String>,
    pub email: Option<String>,
    pub auth_key: Option<String>,
    pub time_stamp: Option<String>,
}

/// The cookie values with their text taken as character sequences.
pub struct SessionCookiesView {
    pub id: Option<Seq<char>>,
    pub email: Option<Seq<char>>,
    pub auth_key: Option<Seq<char>>,
    pub time_stamp: Option<Seq<char>>,
}

/// The text of an optional cookie value.
pub open spec fn text_of(value: Option<String>) -> Option<Seq<char>> {
    match value {
        Some(s) => Some(s@),
        None => None,
    }
}

impl View for SessionCookies {
    type V = SessionCookiesView;

    open spec fn view(&self) -> SessionCookiesView {
        SessionCookiesView {
            id: text_of(self.id),
            email: text_of(self.email),
            auth_key: text_of(self.auth_key),
            time_stamp: text_of(self.time_stamp),
        }
    }
}

/// Why a request's cookies do not make a session. The two kinds are
/// deliberately coarse: neither says which value was at fault.
#[derive(Debug, Clone, Copy, PartialEq, Eq, Structural)]
pub enum ExtractionError {
    /// At least one of the four values is absent.
    MissingFields,
    /// All four values are present, and at least one does not parse.
    MalformedFields,
}

impl ExtractionError {
    /// The human-readable text that goes with the error.
    pub open spec fn message_text(self) -> Seq<char> {
        match self {
            ExtractionError::MissingFields => "Request cookies did not have the required fields."@,
            ExtractionError::MalformedFields => "Request cookie fields could not be parsed to their proper types."@,
        }
    }

    /// The human-readable text that goes with the error.
    pub fn message(&self) -> (r: String)
        ensures
            r@ == self.message_text(),
    {
        match self {
            ExtractionError::MissingFields => String::from_str(
                "Request cookies did not have the required fields.",
            ),
            ExtractionError::MalformedFields => String::from_str(
                "Request cookie fields could not be parsed to their proper types.",
            ),
        }
    }
}

/// Whether all four cookie values are present.
pub open spec fn all_present(c: SessionCookiesView) -> bool {
    c.id is Some && c.email is Some && c.auth_key is Some && c.time_stamp is Some
}

/// The session that the cookie values make, where all four are present and
/// `id` and `time_stamp` read as numbers of their types; the two text fields
/// are taken as they are.
pub open spec fn parsed_session(c: SessionCookiesView) -> Option<SessionView> {
    match (c.id, c.email, c.auth_key, c.time_stamp) {
        (Some(id), Some(email), Some(auth_key), Some(time_stamp)) => match (
            unsigned_value(id, u64::MAX as nat),
            unsigned_value(time_stamp, u32::MAX as nat),
        ) {
            (Some(id), Some(time_stamp)) => Some(
                SessionView { id: id as u64, email, auth_key, time_stamp: time_stamp as u32 },
            ),
            _ => None,
        },
        _ => None,
    }
}

/// The outcome of extracting a session from the cookie values: presence of
/// all four is checked before any of them is parsed.
pub open spec fn extraction(c: SessionCookiesView) -> Result<SessionView, ExtractionError> {
    if !all_present(c) {
        Err(ExtractionError::MissingFields)
    } else {
        match parsed_session(c) {
            Some(s) => Ok(s),
            None => Err(ExtractionError::MalformedFields),
        }
    }
}

/// The outcome of an extraction with the session taken as its view.
pub open spec fn outcome_view(r: Result<Session, ExtractionError>) -> Result<SessionView, ExtractionError> {
    match r {
        Ok(s) => Ok(s@),
        Err(e) => Err(e),
    }
}

/// The session taken as its view, where there is one.
pub open spec fn session_view(r: Option<Session>) -> Option<SessionView> {
    match r {
        Some(s) => Some(s@),
        None => None,
    }
}

impl SessionCookies {
    /// Whether all four cookie values are present.
    pub fn are_all_some(&self) -> (r: bool)
        ensures
            r == all_present(self@),
    {
        self.id.is_some() && self.email.is_some() && self.auth_key.is_some()
            && self.time_stamp.is_some()
    }
}

/// Parses the four cookie values into a session: `None` where one is absent
/// or where `id` or `time_stamp` does not read as a number of its type.
pub fn session(cookies: SessionCookies) -> (r: Option<Session>)
    ensures
        session_view(r) == parsed_session(cookies@),
{
    let SessionCookies { id, email, auth_key, time_stamp } = cookies;
    match (id, email, auth_key, time_stamp) {
        (Some(id), Some(email), Some(auth_key), Some(time_stamp)) => {
            let id = match parse_unsigned(id.as_str(), u64::MAX) {
                Some(v) => v,
                None => return None,
            };
            let time_stamp = match parse_unsigned(time_stamp.as_str(), u32::MAX as u64) {
                Some(v) => v as u32,
                None => return None,
            };
            Some(Session { id, email, auth_key, time_stamp })
        },
        _ => None,
    }
}

/// Extracts the session from the four cookie values: `MissingFields` where
/// any of them is absent, else `MalformedFields` where `id` or `time_stamp`
/// does not read as a number of its type, else the session that they make.
pub fn extract(cookies: SessionCookies) -> (r: Result<Session, ExtractionError>)
    ensures
        outcome_view(r) == extraction(cookies@),
{
    if !cookies.are_all_some() {
        return Err(ExtractionError::MissingFields);
    }
    match session(cookies) {
        Some(s) => Ok(s),
        None => Err(ExtractionError::MalformedFields),
    }
}

/// The cookie values that carry the session `s`: its numbers written in
/// decimal, its text fields as they are.
pub open spec fn cookies_of(s: SessionView) -> SessionCookiesView {
    SessionCookiesView {
        id: Some(decimal_text(s.id as nat)),
        email: Some(s.email),
        auth_key: Some(s.auth_key),
        time_stamp: Some(decimal_text(s.time_stamp as nat)),
    }
}

/// Cookie values of which at least one is absent give `MissingFields`,
/// whether the values that are present are well formed or not.
pub proof fn lemma_absent_value_is_missing(c: SessionCookiesView)
    requires
        !all_present(c),
    ensures
        extraction(c) == Err::<SessionView, ExtractionError>(ExtractionError::MissingFields),
{
}

/// Cookie values that are all present, of which `id` or `time_stamp` does
/// not read as a number of its type, give `MalformedFields`.
pub proof fn lemma_unreadable_value_is_malformed(c: SessionCookiesView)
    requires
        all_present(c),
        unsigned_value(c.id->Some_0, u64::MAX as nat) is None
            || unsigned_value(c.time_stamp->Some_0, u32::MAX as nat) is None,
    ensures
        extraction(c) == Err::<SessionView, ExtractionError>(ExtractionError::MalformedFields),
{
}

/// Cookie values that are all present and all read as their types give the
/// session whose fields are exactly the values read.
pub proof fn lemma_readable_values_make_session(c: SessionCookiesView)
    requires
        all_present(c),
        unsigned_value(c.id->Some_0, u64::MAX as nat) is Some,
        unsigned_value(c.time_stamp->Some_0, u32::MAX as nat) is Some,
    ensures
        extraction(c) == Ok::<SessionView, ExtractionError>(
            SessionView {
                id: unsigned_value(c.id->Some_0, u64::MAX as nat)->Some_0 as u64,
                email: c.email->Some_0,
                auth_key: c.auth_key->Some_0,
                time_stamp: unsigned_value(c.time_stamp->Some_0, u32::MAX as nat)->Some_0 as u32,
            },
        ),
{
}

/// Presence is checked before parsing: without `email`, an `id` that is not
/// a number still gives `MissingFields`, never `MalformedFields`.
pub proof fn lemma_presence_checked_first(c: SessionCookiesView)
    requires
        c.email is None,
        c.id is Some,
        unsigned_value(c.id->Some_0, u64::MAX as nat) is None,
    ensures
        extraction(c) == Err::<SessionView, ExtractionError>(ExtractionError::MissingFields),
{
}

/// Extracting from the cookie values that carry a session gives back that
/// same session.
pub proof fn lemma_extract_round_trip(s: SessionView)
    ensures
        extraction(cookies_of(s)) == Ok::<SessionView, ExtractionError>(s),
{
    lemma_decimal_round_trip(s.id as nat, u64::MAX as nat);
    lemma_decimal_round_trip(s.time_stamp as nat, u32::MAX as nat);
}

} // verus!
