//! A flag-precedence engine for racing telemetry.
//!
//! The library reconciles two independently-lived flag categories — a
//! session-wide flag (virtual/full safety car, red flag) and a per-driver
//! local flag (green, yellow, blue) — together with two transient overlays
//! (a penalty notice and a race-finish indicator) into one deterministic
//! display value, emitting exactly one output command per meaningful state
//! transition.

pub mod engine;
pub mod flags;
pub mod laws;
pub mod router;
