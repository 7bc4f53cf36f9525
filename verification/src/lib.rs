//! The decision core of a system-wide network content filter.
//!
//! A filter provider sees every new connection on the machine. This library names the app behind a
//! connection ([`attribution`]), describes the connection ([`flow`]), decides it by an ordered rule
//! list keyed on app and destination ([`rules`]), and says what to log ([`logging`], [`provider`]).
//! For the app that installs and switches the provider it decides what each report of the OS means
//! ([`sysext`], [`filter_manager`]), what a command does next ([`commands`]), and how a test
//! connection went ([`probe`]). [`laws`] states what holds of all of it.

pub mod attribution;
pub mod commands;
pub mod filter_manager;
pub mod flow;
pub mod flow_log;
pub mod laws;
pub mod logging;
pub mod probe;
pub mod provider;
pub mod rules;
pub mod status;
pub mod sysext;
pub mod text;
