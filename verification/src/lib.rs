//! Transport layer of a daemon/client task-queue tool.
//!
//! A long-running daemon exposes a control endpoint (a Unix domain socket or
//! a loopback TCP port) and short-lived clients connect to it.  This crate
//! holds the verified core of that transport layer: the decision logic that
//! picks a transport and an address, the daemon-side bind protocol with its
//! stale-socket reclamation, the TLS identity loader (PEM parsing and server
//! configuration assembly), the settings defaults, and the task-list
//! navigation of the client UI.
//!
//! The unverified shell that performs the actual socket, terminal and file
//! system operations lives outside this crate and drives these decision
//! functions.

pub mod error;
pub mod pem;
pub mod settings;
pub mod socket;
pub mod tls;
pub mod ui;
