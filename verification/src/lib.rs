//! A keyboard-layout polling provider.
//!
//! The provider tracks the last input layout observed by an OS-level
//! detector, compares each new observation against a configured registry of
//! layout tags, and publishes a compact two-byte event on a broadcast
//! channel whenever the active layout changes to one the registry knows.
//! Detection itself and the background polling thread are platform glue and
//! live outside this crate; the decision logic, the registry indexing, the
//! wire encoding and the lifecycle state machine are verified here.

pub mod bus;
pub mod detector;
pub mod event;
pub mod laws;
pub mod provider;
pub mod registry;
