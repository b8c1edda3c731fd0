//! A passthrough filesystem bridge: every operation issued against a mount
//! point is redirected to an equivalent path inside a backing directory and
//! the backing store's result is returned to the caller unchanged.
//!
//! The crate covers the operation-dispatch and marshaling core of such an
//! adapter: translating virtual paths into backing-store paths, converting
//! between optional arguments and the nullable-pointer convention of the
//! native callback protocol, dispatching each operation to a backing
//! operation provider, and assembling the mount session's startup arguments.
//! The native session runtime (the kernel-facing mount protocol) and the
//! provider that performs real storage work are external collaborators,
//! reached only through the interfaces declared here.

pub mod bridge;
pub mod config;
pub mod marshal;
pub mod native;
pub mod path;
pub mod provider;

pub use config::Passthrough;
pub use config::PassthroughBuilder;
pub use marshal::NativePtr;
pub use native::{DirBuffer, DirFiller, FileInfo, FileStat, FsStat, LockRecord, VectoredBuffer};
pub use path::ResolvedPath;
pub use provider::BackingProvider;
