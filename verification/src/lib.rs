//! Enumerate Azure AD PIM role assignments a user is eligible for and
//! format an interactive selection of them.
//!
//! The library holds the verified logic of the tool: building the OData
//! request URL for the role-assignment endpoint, trimming what the external
//! identity tool answers, extracting `(id, name)` pairs from the JSON
//! envelope the endpoint returns, and formatting the lines printed for a
//! selection. The surrounding binary performs the subprocess calls, the
//! HTTP request and the terminal prompt, and hands this crate plain values.

pub mod command;
pub mod json;
pub mod query;
pub mod roles;
pub mod selection;
