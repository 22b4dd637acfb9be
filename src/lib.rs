//! File icons as RGBA pixels, with caching providers.
//!
//! The platform's icon lookup runs outside this library. The library decides
//! what to ask it for, checks what comes back, and keeps the converted results
//! in a cache keyed by icon size and by extension or path.

pub mod error;
pub mod file_provider;
pub mod cache;
pub mod icon;
pub mod path;
pub mod provider;
pub mod request;

pub use error::Error;
pub use icon::Icon;
pub use file_provider::FileIconProvider;
pub use path::PathInfo;
pub use provider::Provider;
pub use request::{accept_icon, check_request, get_file_icon, IconFetch, Lookup};
