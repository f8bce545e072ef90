//! The logic of a one-page, paginated web front-end: which page a request asks
//! for, what the server answers to a fetch, what the page shows, and what the
//! document around it holds. Rendering and transport are left to the caller.

pub mod decimal;
pub mod fetch;
pub mod filter;
pub mod home;
pub mod page;
pub mod query;
pub mod site;
