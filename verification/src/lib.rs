//! Supervision of an external proxy subprocess.
//!
//! The library covers the core logic of a small proxy manager: extracting
//! the local listening port from a proxy configuration file, deciding how
//! the operating system's global proxy setting must change as the managed
//! process starts and stops, classifying the process's log output, and the
//! state machine that tracks the currently supervised child process.
//!
//! Spawning, killing and stream-reading of the real child process are the
//! driver's job; the library supplies the verified decisions and records
//! the child by an identity token handed in by the driver.

pub mod classifier;
pub mod config;
pub mod errors;
pub mod supervisor;
pub mod system_proxy;
pub mod vpn;
