//! Core logic of a physical menu for a small embedded device.
//!
//! Button presses arrive as small numeric codes, are normalized into
//! [`state_machine::Event`] values, and drive a total transition function
//! over the menu's [`state_machine::State`]. Each screen is rendered by
//! computing a fixed, ordered sequence of display commands
//! ([`render::PlanStep`]) from the screen and a freshly gathered
//! [`snapshot::TelemetrySnapshot`]. The [`actor::MenuActor`] owns the
//! current screen, applies transitions one event at a time, and guards the
//! terminal shutdown sequence so its side effects are issued at most once.
//!
//! Everything here is pure computation over plain values; reading buttons,
//! talking to the display and telemetry services, and powering the device
//! off are left to the surrounding program, which executes the command
//! sequences this crate produces.

pub mod actor;
pub mod error;
pub mod render;
pub mod snapshot;
pub mod state_machine;
pub mod states;
pub mod text;
