//! Authentication against a helpdesk-style web API.
//!
//! The crate decodes a JSON configuration into typed settings, classifies
//! login responses — including the body pattern that signals that a manual
//! browser login is required — and extracts identity fields (user group,
//! display name, email address) from the loosely-typed user-info payload.
//! Network traffic itself is left to the caller; the library works on the
//! status and body text it is handed.

pub mod auth;
pub mod config;
pub mod json;
pub mod text;
