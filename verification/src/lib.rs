//! A verified core for a local wireless-adapter session: adapter and device
//! state snapshots, time-boxed discovery, the passkey-confirmation handshake,
//! and the pair/connect/disconnect/forget lifecycle, together with the icon
//! and menu-text tables that a session driver renders from the state.
//!
//! All platform I/O (the adapter transport, notifications, the menu launcher)
//! lives outside this crate; the modules here are pure state machines and
//! string builders over plain values, each with a proved contract.

pub mod agent;
pub mod controller;
pub mod device;
pub mod error;
pub mod icons;
pub mod menu;
pub mod pairing;
pub mod scanner;
pub mod strutil;
