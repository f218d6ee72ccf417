//! Presence correlation for a voice-chat join notifier.
//!
//! A roster links each person to one or more source-platform accounts and an
//! optional destination chat. For every voice-state transition the library
//! decides whether it is a genuine arrival of a roster member, and which
//! notifications follow from it.
pub mod config;
pub mod delivery;
pub mod message;
pub mod presence;
pub mod roster;
pub mod laws;
