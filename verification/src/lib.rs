//! Verified core of a C binding for a multi-threaded downloader.
pub mod ctext;
pub mod text;
pub mod pusher;
pub mod event;
pub mod config;
pub mod url_info;
pub mod download;
pub mod prefetch;
pub mod safe_ptr;
