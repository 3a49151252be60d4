//! A light process isolation sandbox for competitive programming judges.
//!
//! This library holds the decisions of the sandbox, each with a contract
//! that Verus proves: how a command is configured, what the child does
//! before it starts the program, how the jail is built and torn down, how
//! the parent answers every report of `waitpid`, which syscalls pass the
//! filter, what is asked of the control group, and how its readings become
//! the result. It reads and writes nothing itself: the caller forks, waits,
//! mounts and reads the kernel's counters, and hands plain values over.

pub mod builder;
pub mod cgroup;
pub mod context;
pub mod error;
pub mod jail;
pub mod mount;
pub mod params;
pub mod pipe;
pub mod prelude;
pub mod preset;
pub mod signal;
pub mod supervisor;
pub mod syscall;
pub mod text;

pub use builder::{CatBoxBuilder, CatBoxOptionBuilder};
pub use context::{CatBox, CatBoxOption, CatBoxResult};
pub use error::CatBoxError;
pub use params::CatBoxParams;
pub use syscall::{RestrictedSyscall, SyscallFilter};
