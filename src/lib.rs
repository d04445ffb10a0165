//! Moderation workflow for user-submitted images: a pending-request index,
//! the request lifecycle that drives it, and the rules around submissions,
//! approvals and moderator commands.
//!
//! The library decides; the caller does the talking. Each lifecycle call
//! returns the effects to carry out on the chat platform, and the rules for
//! submissions, downloads, storage and commands take plain values and give
//! plain values back.

pub mod anchor;
pub mod approval;
pub mod auth;
pub mod commands;
pub mod config;
pub mod decimal;
pub mod imgur;
pub mod index;
pub mod laws;
pub mod lifecycle;
pub mod records;
pub mod submission;
