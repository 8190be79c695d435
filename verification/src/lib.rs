//! The rules of a wiki kept on Holochain: who may create and assign roles,
//! who may edit pages and sections, and how pages, sections and users are
//! found and changed.

pub mod admin_chain;
pub mod assignment;
pub mod chain;
pub mod constants;
pub mod definition;
pub mod file;
pub mod laws;
pub mod page;
pub mod role;
pub mod section;
pub mod text;
pub mod user;
pub mod validation;
pub mod wiki;
