//! A single-instance subprocess supervisor: starts, monitors and stops exactly
//! one long-lived background worker process, exposes its status, and keeps the
//! worker alive across window-close events so the surrounding application can
//! run minimized to the background.

pub mod resolver;
pub mod supervisor;
pub mod hooks;
pub mod messages;
