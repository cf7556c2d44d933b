//! Metadata an extension publishes about itself: the manifest, who wrote
//! it, and where and how the process runs. Collecting the live values
//! (clock, process id, operating system) and rendering the documents happen
//! outside the library.

use vstd::prelude::*;
use crate::dependency::Version;

verus! {

/// One author of an extension.
#[derive(Debug, Clone)]
pub struct Author {
    pub name: String,
    pub email: Option<String>,
    pub url: Option<String>,
}

/// The operating system the process runs on.
#[derive(Debug, Clone)]
pub struct OsInfo {
    pub os_type: String,
    pub os_version: String,
    pub architecture: String,
}

/// Where and how the extension process runs. The startup time is carried
/// as milliseconds since the Unix epoch, as read by the caller's clock.
#[derive(Debug, Clone)]
pub struct RuntimeInfo {
    pub startup_time_millis: u64,
    pub pid: Option<u32>,
    pub host: String,
    pub port: u16,
    pub rust_version: String,
    pub os_info: OsInfo,
}

/// The static description of an extension: identity, version bounds,
/// provenance and classification.
#[derive(Debug, Clone)]
pub struct ExtensionManifest {
    pub name: String,
    pub unique_id: String,
    pub version: Version,
    pub opensearch_min_version: Version,
    pub opensearch_max_version: Option<Version>,
    pub java_version: String,
    pub description: String,
    pub vendor: String,
    pub license: String,
    pub homepage: Option<String>,
    pub repository: Option<String>,
    pub issues: Option<String>,
    pub categories: Vec<String>,
    pub keywords: Vec<String>,
    pub authors: Vec<Author>,
}

} // verus!
