use vstd::prelude::*;

use crate::routes::VisitInfo;

verus! {

/// A page visit in the analytics database. It holds the bare minimum of
/// data required for threat prevention. A record is immutable once
/// constructed: the core only moves it between the pending buffer and the
/// store, never changes its fields.
#[derive(Debug, Clone, PartialEq)]
pub struct Visit {
    /// An opaque unique identifier, assigned once at construction by the
    /// intake layer and never reused.
    pub visit_id: u128,
    /// The time the request was made, as seconds of UTC time.
    pub time: i64,
    /// The relative url of the request.
    pub path: String,
    /// The base domain of the request.
    pub domain: String,
    /// The user agent used to make the request.
    pub user_agent: String,
    /// The 128-bit address of the client that made the request.
    pub ip: u128,
    /// The two-letter country code of the client, if the geo lookup
    /// succeeded.
    pub country_code: Option<String>,
    /// The client's latitude, if the geo lookup succeeded, in the binary
    /// encoding the intake layer produced; the core never reads it.
    pub latitude: Option<u64>,
    /// The client's longitude, under the same encoding.
    pub longitude: Option<u64>,
    /// The session id, present only with the enhanced-consent opt-in.
    pub session_id: Option<String>,
    /// Whether the enhanced analytics consent was given.
    pub consent: bool,
    /// Estimated seconds spent on the page, present only with the
    /// enhanced-consent opt-in.
    pub time_on_page: Option<u64>,
}

impl Visit {
    /// Assembles the record the intake layer enqueues for one visit
    /// request: the request body, the values the HTTP layer read from the
    /// connection, and the geo lookup's result.
    pub fn from_intake(
        visit_id: u128,
        time: i64,
        info: VisitInfo,
        ip: u128,
        user_agent: String,
        country_code: Option<String>,
        latitude: Option<u64>,
        longitude: Option<u64>,
    ) -> (v: Visit)
        ensures
            v == (Visit {
                visit_id,
                time,
                path: info.path,
                domain: info.domain,
                user_agent,
                ip,
                country_code,
                latitude,
                longitude,
                session_id: None::<String>,
                consent: info.consent,
                time_on_page: None::<u64>,
            }),
    {
        Visit {
            visit_id,
            time,
            path: info.path,
            domain: info.domain,
            user_agent,
            ip,
            country_code,
            latitude,
            longitude,
            session_id: None,
            consent: info.consent,
            time_on_page: None,
        }
    }

    /// A field-for-field copy, equal to the original; the in-memory store
    /// records copies of the batches it is handed.
    pub fn duplicate(&self) -> (r: Visit)
        ensures
            r == *self,
    {
        Visit {
            visit_id: self.visit_id,
            time: self.time,
            path: self.path.clone(),
            domain: self.domain.clone(),
            user_agent: self.user_agent.clone(),
            ip: self.ip,
            country_code: match &self.country_code {
                Some(c) => Some(c.clone()),
                None => None,
            },
            latitude: self.latitude,
            longitude: self.longitude,
            session_id: match &self.session_id {
                Some(s) => Some(s.clone()),
                None => None,
            },
            consent: self.consent,
            time_on_page: self.time_on_page,
        }
    }
}

} // verus!
