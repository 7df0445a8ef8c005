//! Normalization of the platform's direct-message inbox and home-timeline
//! documents into typed, verified domain values.

pub mod fields;
pub mod json;
pub mod messages;
pub mod timeline;
