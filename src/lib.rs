//! Launching a target process, loading a module into it through a remote
//! loader thread, and reading the target's objects through a binary layout
//! descriptor.
//!
//! The decisions are verified: the launch and injection procedures are state
//! machines that say which operating-system action to take next; the loopback
//! process and launcher are in-memory targets that those machines are run
//! against, with every allocation, handle and termination accounted for; and
//! the foreign object layer computes every address it reads from a layout
//! table and stops at the first null pointer.

pub mod cstr;
pub mod remote;
pub mod injector;
pub mod loopback;
pub mod launcher;
pub mod logger;
pub mod layout;
pub mod foreign;
pub mod paths;
pub mod simulate;
