//! Verified core of the Alist upload manager: the task model and its
//! lifecycle, settings and their initial values, the error answers of the
//! web service, directory listings for the file browser, the path and text
//! rules these rest on, and the upload speed limiter.

pub mod config;
pub mod error;
pub mod files;
pub mod listing;
pub mod paths;
pub mod rate_limiter;
pub mod records;
pub mod routes;
pub mod storage;
pub mod task;
pub mod text;
pub mod time;
