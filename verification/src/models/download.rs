use vstd::prelude::*;

use crate::routes::DownloadInfo;

verus! {

/// A file download in the analytics database. It holds data strictly
/// necessary for threat protection. Like a visit, it is immutable once
/// constructed.
#[derive(Debug, Clone, PartialEq)]
pub struct Download {
    /// An opaque unique identifier, assigned once at construction by the
    /// intake layer and never reused.
    pub download_id: u128,
    /// The time the download was made, as seconds of UTC time.
    pub time: i64,
    /// The id of the requested project.
    pub mod_id: String,
    /// The id of the requested version.
    pub version_id: String,
    /// The file name of the requested download.
    pub file_name: String,
    /// The 128-bit address of the client that made the request.
    pub ip: u128,
    /// The user agent used to make the request.
    pub user_agent: String,
    /// The two-letter country code of the client, if the geo lookup
    /// succeeded.
    pub country_code: Option<String>,
    /// The client's latitude, if the geo lookup succeeded, in the binary
    /// encoding the intake layer produced; the core never reads it.
    pub latitude: Option<u64>,
    /// The client's longitude, under the same encoding.
    pub longitude: Option<u64>,
}

impl Download {
    /// Assembles the record the intake layer enqueues for one download
    /// request: the request body, the parsed client address, and the geo
    /// lookup's result.
    pub fn from_intake(
        download_id: u128,
        time: i64,
        info: DownloadInfo,
        ip: u128,
        country_code: Option<String>,
        latitude: Option<u64>,
        longitude: Option<u64>,
    ) -> (d: Download)
        ensures
            d == (Download {
                download_id,
                time,
                mod_id: info.mod_id,
                version_id: info.version_id,
                file_name: info.file_name,
                ip,
                user_agent: info.user_agent,
                country_code,
                latitude,
                longitude,
            }),
    {
        Download {
            download_id,
            time,
            mod_id: info.mod_id,
            version_id: info.version_id,
            file_name: info.file_name,
            ip,
            user_agent: info.user_agent,
            country_code,
            latitude,
            longitude,
        }
    }

    /// A field-for-field copy, equal to the original; the in-memory store
    /// records copies of the batches it is handed.
    pub fn duplicate(&self) -> (r: Download)
        ensures
            r == *self,
    {
        Download {
            download_id: self.download_id,
            time: self.time,
            mod_id: self.mod_id.clone(),
            version_id: self.version_id.clone(),
            file_name: self.file_name.clone(),
            ip: self.ip,
            user_agent: self.user_agent.clone(),
            country_code: match &self.country_code {
                Some(c) => Some(c.clone()),
                None => None,
            },
            latitude: self.latitude,
            longitude: self.longitude,
        }
    }
}

} // verus!
