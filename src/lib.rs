//! Read-only resolution of recipe and package revisions for a package
//! registry: compound identifiers, the "latest revision" rule, and the
//! mapping from lookup outcomes to response statuses.

pub mod identifier;
pub mod revision;
pub mod repository;
pub mod api;
