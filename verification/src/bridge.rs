//! The operation dispatch bridge: the full vocabulary of filesystem
//! operations, each following the same shape — resolve the virtual path
//! (both paths, for the dual-path operations), hand the arguments to the
//! backing operation provider, and return the provider's status unchanged.
//!
//! The bridge is stateless: every operation's contract says its result is
//! exactly the provider's result for the resolved path and the very
//! arguments given — no retries, no error remapping, no interpretation.
//! Failure classification belongs entirely to the provider, so the mount
//! behaves identically to direct access of the backing store.
//!
//! The one deliberate gap: `lock` (POSIX record locking) is unimplemented
//! in this minimal profile. It succeeds without effect — a documented
//! capability gap, not a silent one — and callers must not take its
//! success for a mandatory record lock.

use vstd::prelude::*;

use crate::config::Passthrough;
use crate::marshal::NativePtr;
use crate::native::{DirBuffer, DirFiller, FileInfo, FileStat, FsStat, LockRecord, VectoredBuffer};
use crate::provider::BackingProvider;

verus! {

impl Passthrough {
    /// Attribute lookup. `stbuf` is a required output slot: the attributes
    /// the caller sees are exactly what the provider wrote into it.
    pub fn getattr<P: BackingProvider>(
        &self,
        provider: &mut P,
        path: &str,
        stbuf: &mut FileStat,
        fi: &mut NativePtr<FileInfo>,
    ) -> (r: i32)
        ensures
            r == old(provider).getattr_result(self.resolved_spec(path@), *old(fi)),
            *final(stbuf) == old(provider).getattr_attrs(
                self.resolved_spec(path@),
                *old(stbuf),
                *old(fi),
            ),
            (*old(fi)) is Addr <==> (*final(fi)) is Addr,
    {
        let resolved = self.canonicalize(path);
        provider.getattr(&resolved, stbuf, fi)
    }

    /// Reads a symlink target into `buf`: the caller's buffer ends up
    /// holding exactly what the provider wrote, and it keeps its length,
    /// so the provider can never write past it.
    pub fn readlink<P: BackingProvider>(
        &self,
        provider: &mut P,
        path: &str,
        buf: &mut Vec<u8>,
    ) -> (r: i32)
        ensures
            r == old(provider).readlink_result(self.resolved_spec(path@), old(buf)@.len()),
            final(buf)@ == old(provider).readlink_data(self.resolved_spec(path@), old(buf)@),
            final(buf)@.len() == old(buf)@.len(),
    {
        let resolved = self.canonicalize(path);
        provider.readlink(&resolved, buf)
    }

    pub fn mknod<P: BackingProvider>(
        &self,
        provider: &mut P,
        path: &str,
        mode: u32,
        rdev: u64,
    ) -> (r: i32)
        ensures
            r == old(provider).mknod_result(self.resolved_spec(path@), mode, rdev),
    {
        let resolved = self.canonicalize(path);
        provider.mknod(&resolved, mode, rdev)
    }

    pub fn mkdir<P: BackingProvider>(&self, provider: &mut P, path: &str, mode: u32) -> (r: i32)
        ensures
            r == old(provider).mkdir_result(self.resolved_spec(path@), mode),
    {
        let resolved = self.canonicalize(path);
        provider.mkdir(&resolved, mode)
    }

    pub fn unlink<P: BackingProvider>(&self, provider: &mut P, path: &str) -> (r: i32)
        ensures
            r == old(provider).unlink_result(self.resolved_spec(path@)),
    {
        let resolved = self.canonicalize(path);
        provider.unlink(&resolved)
    }

    pub fn rmdir<P: BackingProvider>(&self, provider: &mut P, path: &str) -> (r: i32)
        ensures
            r == old(provider).rmdir_result(self.resolved_spec(path@)),
    {
        let resolved = self.canonicalize(path);
        provider.rmdir(&resolved)
    }

    /// Dual-path operation: both paths are resolved independently against
    /// the same backing root before the provider is invoked once.
    pub fn symlink<P: BackingProvider>(&self, provider: &mut P, from: &str, to: &str) -> (r: i32)
        ensures
            r == old(provider).symlink_result(self.resolved_spec(from@), self.resolved_spec(to@)),
    {
        let resolved_from = self.canonicalize(from);
        let resolved_to = self.canonicalize(to);
        provider.symlink(&resolved_from, &resolved_to)
    }

    /// Dual-path operation; the rename flags (exchange, no-replace, …) are
    /// forwarded unmodified — their semantics are the provider's contract.
    pub fn rename<P: BackingProvider>(
        &self,
        provider: &mut P,
        from: &str,
        to: &str,
        flags: u32,
    ) -> (r: i32)
        ensures
            r == old(provider).rename_result(
                self.resolved_spec(from@),
                self.resolved_spec(to@),
                flags,
            ),
    {
        let resolved_from = self.canonicalize(from);
        let resolved_to = self.canonicalize(to);
        provider.rename(&resolved_from, &resolved_to, flags)
    }

    /// Dual-path operation: both paths are resolved independently against
    /// the same backing root before the provider is invoked once.
    pub fn link<P: BackingProvider>(&self, provider: &mut P, from: &str, to: &str) -> (r: i32)
        ensures
            r == old(provider).link_result(self.resolved_spec(from@), self.resolved_spec(to@)),
    {
        let resolved_from = self.canonicalize(from);
        let resolved_to = self.canonicalize(to);
        provider.link(&resolved_from, &resolved_to)
    }

    pub fn chmod<P: BackingProvider>(
        &self,
        provider: &mut P,
        path: &str,
        mode: u32,
        fi: &mut NativePtr<FileInfo>,
    ) -> (r: i32)
        ensures
            r == old(provider).chmod_result(self.resolved_spec(path@), mode, *old(fi)),
            (*old(fi)) is Addr <==> (*final(fi)) is Addr,
    {
        let resolved = self.canonicalize(path);
        provider.chmod(&resolved, mode, fi)
    }

    pub fn chown<P: BackingProvider>(
        &self,
        provider: &mut P,
        path: &str,
        uid: u32,
        gid: u32,
        fi: &mut NativePtr<FileInfo>,
    ) -> (r: i32)
        ensures
            r == old(provider).chown_result(self.resolved_spec(path@), uid, gid, *old(fi)),
            (*old(fi)) is Addr <==> (*final(fi)) is Addr,
    {
        let resolved = self.canonicalize(path);
        provider.chown(&resolved, uid, gid, fi)
    }

    pub fn truncate<P: BackingProvider>(
        &self,
        provider: &mut P,
        path: &str,
        size: i64,
        fi: &mut NativePtr<FileInfo>,
    ) -> (r: i32)
        ensures
            r == old(provider).truncate_result(self.resolved_spec(path@), size, *old(fi)),
            (*old(fi)) is Addr <==> (*final(fi)) is Addr,
    {
        let resolved = self.canonicalize(path);
        provider.truncate(&resolved, size, fi)
    }

    /// Opens a file. A supplied per-open-file context is the provider's to
    /// populate in place, and the caller gets back that very context; an
    /// absent context stays absent.
    pub fn open<P: BackingProvider>(
        &self,
        provider: &mut P,
        path: &str,
        fi: &mut NativePtr<FileInfo>,
    ) -> (r: i32)
        ensures
            r == old(provider).open_result(self.resolved_spec(path@), *old(fi)),
            (*old(fi)) is Null ==> *final(fi) == *old(fi),
            (*old(fi)) is Addr ==> *final(fi) == NativePtr::<FileInfo>::Addr(
                old(provider).open_fi(self.resolved_spec(path@), *old(fi)),
            ),
    {
        let resolved = self.canonicalize(path);
        provider.open(&resolved, fi)
    }

    /// Reads up to `buf`'s length bytes at `offset`. The caller's buffer
    /// ends up holding exactly what the provider wrote, its length fixed:
    /// the provider fills it in place and can neither read nor write
    /// beyond it.
    pub fn read<P: BackingProvider>(
        &self,
        provider: &mut P,
        path: &str,
        buf: &mut Vec<u8>,
        offset: i64,
        fi: &mut NativePtr<FileInfo>,
    ) -> (r: i32)
        ensures
            r == old(provider).read_result(
                self.resolved_spec(path@),
                old(buf)@.len(),
                offset,
                *old(fi),
            ),
            final(buf)@ == old(provider).read_data(
                self.resolved_spec(path@),
                old(buf)@,
                offset,
                *old(fi),
            ),
            final(buf)@.len() == old(buf)@.len(),
            (*old(fi)) is Addr <==> (*final(fi)) is Addr,
    {
        let resolved = self.canonicalize(path);
        provider.read(&resolved, buf, offset, fi)
    }

    /// Writes exactly the bytes of `buf` at `offset`: the data handed to
    /// the provider is the caller's slice, nothing more and nothing less.
    pub fn write<P: BackingProvider>(
        &self,
        provider: &mut P,
        path: &str,
        buf: &[u8],
        offset: i64,
        fi: &mut NativePtr<FileInfo>,
    ) -> (r: i32)
        ensures
            r == old(provider).write_result(self.resolved_spec(path@), buf@, offset, *old(fi)),
            (*old(fi)) is Addr <==> (*final(fi)) is Addr,
    {
        let resolved = self.canonicalize(path);
        provider.write(&resolved, buf, offset, fi)
    }

    /// Filesystem statistics. A present output slot ends up holding the
    /// provider's record; an absent slot stays absent.
    pub fn statfs<P: BackingProvider>(
        &self,
        provider: &mut P,
        path: &str,
        stbuf: &mut NativePtr<FsStat>,
    ) -> (r: i32)
        ensures
            r == old(provider).statfs_result(self.resolved_spec(path@), *old(stbuf)),
            (*old(stbuf)) is Null ==> *final(stbuf) == *old(stbuf),
            (*old(stbuf)) is Addr ==> *final(stbuf) == NativePtr::<FsStat>::Addr(
                old(provider).statfs_out(self.resolved_spec(path@), *old(stbuf)),
            ),
    {
        let resolved = self.canonicalize(path);
        provider.statfs(&resolved, stbuf)
    }

    pub fn flush<P: BackingProvider>(
        &self,
        provider: &mut P,
        path: &str,
        fi: &mut NativePtr<FileInfo>,
    ) -> (r: i32)
        ensures
            r == old(provider).flush_result(self.resolved_spec(path@), *old(fi)),
            (*old(fi)) is Addr <==> (*final(fi)) is Addr,
    {
        let resolved = self.canonicalize(path);
        provider.flush(&resolved, fi)
    }

    pub fn release<P: BackingProvider>(
        &self,
        provider: &mut P,
        path: &str,
        fi: &mut NativePtr<FileInfo>,
    ) -> (r: i32)
        ensures
            r == old(provider).release_result(self.resolved_spec(path@), *old(fi)),
            (*old(fi)) is Addr <==> (*final(fi)) is Addr,
    {
        let resolved = self.canonicalize(path);
        provider.release(&resolved, fi)
    }

    pub fn fsync<P: BackingProvider>(
        &self,
        provider: &mut P,
        path: &str,
        isdatasync: i32,
        fi: &mut NativePtr<FileInfo>,
    ) -> (r: i32)
        ensures
            r == old(provider).fsync_result(self.resolved_spec(path@), isdatasync, *old(fi)),
            (*old(fi)) is Addr <==> (*final(fi)) is Addr,
    {
        let resolved = self.canonicalize(path);
        provider.fsync(&resolved, isdatasync, fi)
    }

    pub fn opendir<P: BackingProvider>(
        &self,
        provider: &mut P,
        path: &str,
        fi: &mut NativePtr<FileInfo>,
    ) -> (r: i32)
        ensures
            r == old(provider).opendir_result(self.resolved_spec(path@), *old(fi)),
            (*old(fi)) is Addr <==> (*final(fi)) is Addr,
    {
        let resolved = self.canonicalize(path);
        provider.opendir(&resolved, fi)
    }

    /// Directory listing. `dir` is the runtime's required entry buffer and
    /// `filler` the per-entry capability the provider invokes; the offset
    /// cursor is forwarded so listings can resume where they stopped.
    pub fn readdir<P: BackingProvider>(
        &self,
        provider: &mut P,
        path: &str,
        dir: &mut DirBuffer,
        filler: DirFiller,
        offset: i64,
        fi: &mut NativePtr<FileInfo>,
        flags: u32,
    ) -> (r: i32)
        ensures
            r == old(provider).readdir_result(
                self.resolved_spec(path@),
                *old(dir),
                filler,
                offset,
                *old(fi),
                flags,
            ),
            (*old(fi)) is Addr <==> (*final(fi)) is Addr,
    {
        let resolved = self.canonicalize(path);
        provider.readdir(&resolved, dir, filler, offset, fi, flags)
    }

    pub fn releasedir<P: BackingProvider>(
        &self,
        provider: &mut P,
        path: &str,
        fi: &mut NativePtr<FileInfo>,
    ) -> (r: i32)
        ensures
            r == old(provider).releasedir_result(self.resolved_spec(path@), *old(fi)),
            (*old(fi)) is Addr <==> (*final(fi)) is Addr,
    {
        let resolved = self.canonicalize(path);
        provider.releasedir(&resolved, fi)
    }

    pub fn access<P: BackingProvider>(&self, provider: &mut P, path: &str, mask: i32) -> (r: i32)
        ensures
            r == old(provider).access_result(self.resolved_spec(path@), mask),
    {
        let resolved = self.canonicalize(path);
        provider.access(&resolved, mask)
    }

    /// Creates and opens a file; as with `open`, a supplied per-open-file
    /// context comes back populated by the provider in place.
    pub fn create<P: BackingProvider>(
        &self,
        provider: &mut P,
        path: &str,
        mode: u32,
        fi: &mut NativePtr<FileInfo>,
    ) -> (r: i32)
        ensures
            r == old(provider).create_result(self.resolved_spec(path@), mode, *old(fi)),
            (*old(fi)) is Null ==> *final(fi) == *old(fi),
            (*old(fi)) is Addr ==> *final(fi) == NativePtr::<FileInfo>::Addr(
                old(provider).create_fi(self.resolved_spec(path@), mode, *old(fi)),
            ),
    {
        let resolved = self.canonicalize(path);
        provider.create(&resolved, mode, fi)
    }

    /// Vectored write: the segment list is forwarded as it came, owner
    /// and contents untouched.
    pub fn write_buf<P: BackingProvider>(
        &self,
        provider: &mut P,
        path: &str,
        buf: &mut NativePtr<VectoredBuffer>,
        offset: i64,
        fi: &mut NativePtr<FileInfo>,
    ) -> (r: i32)
        ensures
            r == old(provider).write_buf_result(
                self.resolved_spec(path@),
                *old(buf),
                offset,
                *old(fi),
            ),
            (*old(buf)) is Addr <==> (*final(buf)) is Addr,
            (*old(fi)) is Addr <==> (*final(fi)) is Addr,
    {
        let resolved = self.canonicalize(path);
        provider.write_buf(&resolved, buf, offset, fi)
    }

    /// Vectored read: on success the provider's segment list — allocated
    /// and owned by the provider, released by the session runtime — is
    /// written into the first output slot, relayed without copy or
    /// inspection. On failure the slots are left as they were.
    pub fn read_buf<P: BackingProvider>(
        &self,
        provider: &mut P,
        path: &str,
        bufp: &mut Vec<VectoredBuffer>,
        offset: i64,
        fi: &mut NativePtr<FileInfo>,
    ) -> (r: i32)
        requires
            old(bufp)@.len() >= 1,
        ensures
            r == old(provider).read_buf_result(
                self.resolved_spec(path@),
                old(bufp)@.len(),
                offset,
                *old(fi),
            ),
            r >= 0 ==> final(bufp)@ == old(bufp)@.update(
                0,
                old(provider).read_buf_out(
                    self.resolved_spec(path@),
                    old(bufp)@.len(),
                    offset,
                    *old(fi),
                ),
            ),
            r < 0 ==> final(bufp)@ == old(bufp)@,
            final(bufp)@.len() == old(bufp)@.len(),
            (*old(fi)) is Addr <==> (*final(fi)) is Addr,
    {
        let resolved = self.canonicalize(path);
        let (res, out) = provider.read_buf(&resolved, bufp.len(), offset, fi);
        if res >= 0 {
            match out {
                NativePtr::Addr(segments) => {
                    bufp.set(0, segments);
                },
                NativePtr::Null => {
                    proof {
                        assert(false);
                    }
                },
            }
        }
        res
    }

    pub fn flock<P: BackingProvider>(
        &self,
        provider: &mut P,
        path: &str,
        fi: &mut NativePtr<FileInfo>,
        op: i32,
    ) -> (r: i32)
        ensures
            r == old(provider).flock_result(self.resolved_spec(path@), *old(fi), op),
            (*old(fi)) is Addr <==> (*final(fi)) is Addr,
    {
        let resolved = self.canonicalize(path);
        provider.flock(&resolved, fi, op)
    }

    /// POSIX record locking, intentionally unimplemented in this minimal
    /// profile: the call succeeds, touches no argument, and reaches no
    /// provider, so it has no observable effect on the backing store.
    pub fn lock(
        &self,
        _path: &str,
        fi: &mut NativePtr<FileInfo>,
        _cmd: i32,
        lk: &mut NativePtr<LockRecord>,
    ) -> (r: i32)
        ensures
            r == 0,
            *final(fi) == *old(fi),
            *final(lk) == *old(lk),
    {
        0
    }
}

} // verus!
