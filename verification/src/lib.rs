//! Power modes of an MSI embedded controller, served over D-Bus.
//!
//! The controller shows two files: one lists the modes it offers, one holds the
//! mode it is in. `controls::power_control` reads modes from the contents of
//! those files and says what is to be written to set one; `dbus_handler`
//! answers the three methods of the bus object from that. Nothing here opens a
//! file or a connection: callers hand in what they read and write what they
//! are handed.

pub mod controls;
pub mod dbus_handler;
pub mod text;
