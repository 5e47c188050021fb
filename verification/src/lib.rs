//! dothub: manage collections of configuration files ("Dots") in a central
//! hub, activate one chosen variant per collection by linking it into its
//! destination, and drive start/kill/reload commands for the programs that
//! consume them.
//!
//! This crate holds the verified core: configuration resolution, marker-file
//! parsing, activation planning, lifecycle command derivation, watch-loop
//! decisions and profile application. The surrounding binary performs the
//! filesystem walks, spawns the commands and runs the watch loop, feeding
//! plain values in and carrying the planned actions out.

pub mod activation;
pub mod config;
pub mod lifecycle;
pub mod lookup;
pub mod markers;
pub mod profiles;
pub mod scan;
pub mod textops;
pub mod watch;
