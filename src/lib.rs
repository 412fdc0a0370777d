//! Supervision of the background server that the desktop shell depends on:
//! how it is launched, how its output is relayed into the host's logs, and
//! the bounded readiness poll that decides when the shell may call it ready.
pub mod config;
pub mod relay;
pub mod supervisor;
pub mod tray;
