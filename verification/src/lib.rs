//! A panic-to-bootloader library for a microcontroller whose boot ROM exposes
//! a routine that resets the device into a USB bootloader mode.
//!
//! On an unrecoverable fault the handler ignores the fault description,
//! computes a bitmask selecting which USB interfaces the bootloader exposes
//! (mass storage, a vendor boot protocol, or both), and invokes the ROM's
//! reset routine with a reserved zero argument and that bitmask. The routine
//! never returns; as a safety net the handler also loops forever.
//!
//! This crate holds the handler's decisions: the configuration and its
//! bitmask, the ROM lookup parameters, and the terminal state machine. The
//! raw-memory resolution of the ROM function pointer and the divergent call
//! itself cannot be expressed here and live with the bare-metal shim that
//! registers the handler.

pub mod config;
pub mod handler;
pub mod rom;
