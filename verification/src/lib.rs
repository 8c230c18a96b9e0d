//! Verified core of a single-window launcher for a KVM/SPICE virtual machine:
//! the persisted window state, the parsers for `virsh` output, the keyboard
//! and mouse mapping onto the SPICE protocol, the input bookkeeping of
//! a SPICE session, the clipboard bridge, and the decisions of the window's
//! lifecycle.

pub mod config;
pub mod decimal;
pub mod spice;
pub mod text;
pub mod ui;
pub mod vm;
