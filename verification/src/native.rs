//! Plain-value models of the native protocol's data shapes.
//!
//! The native callback protocol hands the bridge raw structures and opaque
//! contexts. The bridge never interprets them; it only forwards them between
//! the session runtime and the backing operation provider. Each shape is
//! modeled here as a plain value the contracts can speak about; the glue at
//! the process boundary converts between these and the raw native forms.

use vstd::prelude::*;

verus! {

/// The per-open-file context threaded through `open`, `read`, `write`,
/// `release` and their kin. The bridge never allocates or frees one: the
/// session runtime owns it, the provider populates it where an operation
/// (such as `open` or `create`) is defined to do so, and the bridge only
/// forwards it.
#[derive(Clone, Copy, PartialEq, Eq, Structural)]
pub struct FileInfo {
    /// The provider's file handle for this open file.
    pub fh: u64,
    /// The open flags the session runtime recorded for this file.
    pub flags: i32,
}

/// The attribute record `getattr` fills: a required output slot whose
/// contents come entirely from the backing operation provider.
#[derive(Clone, Copy, PartialEq, Eq, Structural)]
pub struct FileStat {
    pub mode: u32,
    pub nlink: u64,
    pub uid: u32,
    pub gid: u32,
    pub rdev: u64,
    pub size: i64,
}

/// The filesystem-statistics record `statfs` fills when its optional output
/// slot is present.
#[derive(Clone, Copy, PartialEq, Eq, Structural)]
pub struct FsStat {
    pub bsize: u64,
    pub blocks: u64,
    pub bfree: u64,
    pub bavail: u64,
    pub files: u64,
    pub ffree: u64,
}

/// A POSIX record-lock description, carried by the `lock` operation. The
/// minimal profile never reads it.
#[derive(Clone, Copy, PartialEq, Eq, Structural)]
pub struct LockRecord {
    pub kind: i16,
    pub whence: i16,
    pub start: i64,
    pub len: i64,
    pub pid: i32,
}

/// The opaque directory-listing buffer a `readdir` call writes entries
/// into. The session runtime owns it; the bridge forwards it untouched, so
/// only an opaque token stands for it here.
#[derive(Clone, Copy, PartialEq, Eq, Structural)]
pub struct DirBuffer {
    pub token: u64,
}

/// The write-only entry-filler capability supplied with every `readdir`
/// call: the provider invokes it once per directory entry. Opaque to the
/// bridge, which merely hands it on.
#[derive(Clone, Copy, PartialEq, Eq, Structural)]
pub struct DirFiller {
    pub token: u64,
}

/// A provider-allocated, provider-owned list of buffer segments, handed
/// back by the vectored read. Ownership transfers to the session runtime;
/// the bridge's only duty is relaying it without copying or inspecting it,
/// so an opaque token stands for it here.
#[derive(Clone, Copy, PartialEq, Eq, Structural)]
pub struct VectoredBuffer {
    pub token: u64,
}

} // verus!
