//! Bulk upload of localization keys and their translations to a remote
//! translation service: the input format, the requests, the lookups and the
//! order in which the upload proceeds.

pub mod lines;
pub mod records;
pub mod request;
pub mod resolver;
pub mod keys;
pub mod upload;
pub mod settings;
