//! Relay of racing-simulation telemetry to a gear-indicator peripheral.
//!
//! The simulation emits fixed-layout binary datagrams; a small HID device shows
//! the current gear. This crate holds the rules of that relay: how a datagram is
//! decoded, which attached device is driven, what the listener forwards, and what
//! the bridge sends to the device on every turn of its loop. Sockets, device
//! handles and task scheduling are left to the program that links it.

pub mod bridge;
pub mod decoder;
pub mod listener;
pub mod relay;
pub mod report;
pub mod selector;
pub mod telemetry;
pub mod wire;
