//! The backing operation provider: the seam real storage work is delegated
//! through.
//!
//! One method per filesystem operation, each operating on an already
//! resolved backing-store path. A method's integer result is the
//! operation's native status — zero or positive for success (possibly a
//! byte count), negative for a POSIX-style error — and is owed to the
//! session runtime unchanged; the `*_result` spec functions name that
//! status as a function of the provider's state and the call's arguments,
//! which is what lets the bridge promise exact pass-through. What flows
//! back through output parameters — the attribute record, a populated
//! per-open-file context, the bytes left in a read buffer, a statistics
//! record, the vectored segment list — is named the same way, so the
//! bridge's contracts also pin that the caller receives the provider's
//! writes, not a copy or a scratch value.
//!
//! An implementation may write through any non-null output argument it is
//! handed, but a null argument stays null: nothing can be written through
//! an absent slot. Buffer lengths are fixed by the caller: a provider
//! fills a read buffer in place and never grows or shrinks it.
//!
//! The spec members default to an arbitrary value, so an implementation
//! outside the verified world need not spell them out; it then simply has
//! statuses about which nothing is known in advance, which is all the
//! bridge assumes anyway.

use vstd::prelude::*;

use crate::marshal::NativePtr;
use crate::native::{DirBuffer, DirFiller, FileInfo, FileStat, FsStat, VectoredBuffer};
use crate::path::ResolvedPath;

verus! {

pub trait BackingProvider {
    open spec fn getattr_result(&self, path: Seq<u8>, fi: NativePtr<FileInfo>) -> i32 {
        vstd::pervasive::arbitrary()
    }

    /// The attribute record `getattr` leaves in its required output slot,
    /// given the slot's prior contents: the attributes come back through
    /// that record, written by the provider alone.
    open spec fn getattr_attrs(
        &self,
        path: Seq<u8>,
        attrs: FileStat,
        fi: NativePtr<FileInfo>,
    ) -> FileStat {
        vstd::pervasive::arbitrary()
    }

    open spec fn readlink_result(&self, path: Seq<u8>, len: nat) -> i32 {
        vstd::pervasive::arbitrary()
    }

    /// The bytes `readlink` leaves in the caller's buffer, given the
    /// buffer's prior contents (whose length bounds what may be written).
    open spec fn readlink_data(&self, path: Seq<u8>, data: Seq<u8>) -> Seq<u8> {
        vstd::pervasive::arbitrary()
    }

    open spec fn mknod_result(&self, path: Seq<u8>, mode: u32, rdev: u64) -> i32 {
        vstd::pervasive::arbitrary()
    }

    open spec fn mkdir_result(&self, path: Seq<u8>, mode: u32) -> i32 {
        vstd::pervasive::arbitrary()
    }

    open spec fn unlink_result(&self, path: Seq<u8>) -> i32 {
        vstd::pervasive::arbitrary()
    }

    open spec fn rmdir_result(&self, path: Seq<u8>) -> i32 {
        vstd::pervasive::arbitrary()
    }

    open spec fn symlink_result(&self, from: Seq<u8>, to: Seq<u8>) -> i32 {
        vstd::pervasive::arbitrary()
    }

    open spec fn rename_result(&self, from: Seq<u8>, to: Seq<u8>, flags: u32) -> i32 {
        vstd::pervasive::arbitrary()
    }

    open spec fn link_result(&self, from: Seq<u8>, to: Seq<u8>) -> i32 {
        vstd::pervasive::arbitrary()
    }

    open spec fn chmod_result(&self, path: Seq<u8>, mode: u32, fi: NativePtr<FileInfo>) -> i32 {
        vstd::pervasive::arbitrary()
    }

    open spec fn chown_result(&self, path: Seq<u8>, uid: u32, gid: u32, fi: NativePtr<FileInfo>) -> i32 {
        vstd::pervasive::arbitrary()
    }

    open spec fn truncate_result(&self, path: Seq<u8>, size: i64, fi: NativePtr<FileInfo>) -> i32 {
        vstd::pervasive::arbitrary()
    }

    open spec fn open_result(&self, path: Seq<u8>, fi: NativePtr<FileInfo>) -> i32 {
        vstd::pervasive::arbitrary()
    }

    /// The per-open-file context `open` leaves in a supplied slot: the
    /// provider populates the caller's context in place, and the bridge
    /// forwards that very context, never a copy.
    open spec fn open_fi(&self, path: Seq<u8>, fi: NativePtr<FileInfo>) -> FileInfo {
        vstd::pervasive::arbitrary()
    }

    open spec fn read_result(&self, path: Seq<u8>, len: nat, offset: i64, fi: NativePtr<FileInfo>) -> i32 {
        vstd::pervasive::arbitrary()
    }

    /// The bytes `read` leaves in the caller's buffer, given the buffer's
    /// prior contents (whose length bounds what may be written).
    open spec fn read_data(
        &self,
        path: Seq<u8>,
        data: Seq<u8>,
        offset: i64,
        fi: NativePtr<FileInfo>,
    ) -> Seq<u8> {
        vstd::pervasive::arbitrary()
    }

    open spec fn write_result(
        &self,
        path: Seq<u8>,
        data: Seq<u8>,
        offset: i64,
        fi: NativePtr<FileInfo>,
    ) -> i32 {
        vstd::pervasive::arbitrary()
    }

    open spec fn statfs_result(&self, path: Seq<u8>, stbuf: NativePtr<FsStat>) -> i32 {
        vstd::pervasive::arbitrary()
    }

    /// The statistics record `statfs` writes through a present output slot.
    open spec fn statfs_out(&self, path: Seq<u8>, stbuf: NativePtr<FsStat>) -> FsStat {
        vstd::pervasive::arbitrary()
    }

    open spec fn flush_result(&self, path: Seq<u8>, fi: NativePtr<FileInfo>) -> i32 {
        vstd::pervasive::arbitrary()
    }

    open spec fn release_result(&self, path: Seq<u8>, fi: NativePtr<FileInfo>) -> i32 {
        vstd::pervasive::arbitrary()
    }

    open spec fn fsync_result(&self, path: Seq<u8>, isdatasync: i32, fi: NativePtr<FileInfo>) -> i32 {
        vstd::pervasive::arbitrary()
    }

    open spec fn opendir_result(&self, path: Seq<u8>, fi: NativePtr<FileInfo>) -> i32 {
        vstd::pervasive::arbitrary()
    }

    open spec fn readdir_result(
        &self,
        path: Seq<u8>,
        dir: DirBuffer,
        filler: DirFiller,
        offset: i64,
        fi: NativePtr<FileInfo>,
        flags: u32,
    ) -> i32 {
        vstd::pervasive::arbitrary()
    }

    open spec fn releasedir_result(&self, path: Seq<u8>, fi: NativePtr<FileInfo>) -> i32 {
        vstd::pervasive::arbitrary()
    }

    open spec fn access_result(&self, path: Seq<u8>, mask: i32) -> i32 {
        vstd::pervasive::arbitrary()
    }

    open spec fn create_result(&self, path: Seq<u8>, mode: u32, fi: NativePtr<FileInfo>) -> i32 {
        vstd::pervasive::arbitrary()
    }

    /// The per-open-file context `create` leaves in a supplied slot, as
    /// `open` does for its own.
    open spec fn create_fi(&self, path: Seq<u8>, mode: u32, fi: NativePtr<FileInfo>) -> FileInfo {
        vstd::pervasive::arbitrary()
    }

    open spec fn write_buf_result(
        &self,
        path: Seq<u8>,
        buf: NativePtr<VectoredBuffer>,
        offset: i64,
        fi: NativePtr<FileInfo>,
    ) -> i32 {
        vstd::pervasive::arbitrary()
    }

    open spec fn read_buf_result(
        &self,
        path: Seq<u8>,
        size: nat,
        offset: i64,
        fi: NativePtr<FileInfo>,
    ) -> i32 {
        vstd::pervasive::arbitrary()
    }

    /// The segment list a successful vectored read hands back, ownership
    /// and all, to the session runtime.
    open spec fn read_buf_out(
        &self,
        path: Seq<u8>,
        size: nat,
        offset: i64,
        fi: NativePtr<FileInfo>,
    ) -> VectoredBuffer {
        vstd::pervasive::arbitrary()
    }

    open spec fn flock_result(&self, path: Seq<u8>, fi: NativePtr<FileInfo>, op: i32) -> i32 {
        vstd::pervasive::arbitrary()
    }

    fn getattr(
        &mut self,
        path: &ResolvedPath,
        stbuf: &mut FileStat,
        fi: &mut NativePtr<FileInfo>,
    ) -> (r: i32)
        ensures
            r == old(self).getattr_result(path@, *old(fi)),
            *final(stbuf) == old(self).getattr_attrs(path@, *old(stbuf), *old(fi)),
            (*old(fi)) is Addr <==> (*final(fi)) is Addr,
    ;

    fn readlink(&mut self, path: &ResolvedPath, buf: &mut Vec<u8>) -> (r: i32)
        ensures
            r == old(self).readlink_result(path@, old(buf)@.len()),
            final(buf)@ == old(self).readlink_data(path@, old(buf)@),
            final(buf)@.len() == old(buf)@.len(),
    ;

    fn mknod(&mut self, path: &ResolvedPath, mode: u32, rdev: u64) -> (r: i32)
        ensures
            r == old(self).mknod_result(path@, mode, rdev),
    ;

    fn mkdir(&mut self, path: &ResolvedPath, mode: u32) -> (r: i32)
        ensures
            r == old(self).mkdir_result(path@, mode),
    ;

    fn unlink(&mut self, path: &ResolvedPath) -> (r: i32)
        ensures
            r == old(self).unlink_result(path@),
    ;

    fn rmdir(&mut self, path: &ResolvedPath) -> (r: i32)
        ensures
            r == old(self).rmdir_result(path@),
    ;

    fn symlink(&mut self, from: &ResolvedPath, to: &ResolvedPath) -> (r: i32)
        ensures
            r == old(self).symlink_result(from@, to@),
    ;

    fn rename(&mut self, from: &ResolvedPath, to: &ResolvedPath, flags: u32) -> (r: i32)
        ensures
            r == old(self).rename_result(from@, to@, flags),
    ;

    fn link(&mut self, from: &ResolvedPath, to: &ResolvedPath) -> (r: i32)
        ensures
            r == old(self).link_result(from@, to@),
    ;

    fn chmod(&mut self, path: &ResolvedPath, mode: u32, fi: &mut NativePtr<FileInfo>) -> (r: i32)
        ensures
            r == old(self).chmod_result(path@, mode, *old(fi)),
            (*old(fi)) is Addr <==> (*final(fi)) is Addr,
    ;

    fn chown(
        &mut self,
        path: &ResolvedPath,
        uid: u32,
        gid: u32,
        fi: &mut NativePtr<FileInfo>,
    ) -> (r: i32)
        ensures
            r == old(self).chown_result(path@, uid, gid, *old(fi)),
            (*old(fi)) is Addr <==> (*final(fi)) is Addr,
    ;

    fn truncate(&mut self, path: &ResolvedPath, size: i64, fi: &mut NativePtr<FileInfo>) -> (r: i32)
        ensures
            r == old(self).truncate_result(path@, size, *old(fi)),
            (*old(fi)) is Addr <==> (*final(fi)) is Addr,
    ;

    fn open(&mut self, path: &ResolvedPath, fi: &mut NativePtr<FileInfo>) -> (r: i32)
        ensures
            r == old(self).open_result(path@, *old(fi)),
            (*old(fi)) is Null ==> *final(fi) == *old(fi),
            (*old(fi)) is Addr ==> *final(fi) == NativePtr::<FileInfo>::Addr(
                old(self).open_fi(path@, *old(fi)),
            ),
    ;

    fn read(
        &mut self,
        path: &ResolvedPath,
        buf: &mut Vec<u8>,
        offset: i64,
        fi: &mut NativePtr<FileInfo>,
    ) -> (r: i32)
        ensures
            r == old(self).read_result(path@, old(buf)@.len(), offset, *old(fi)),
            final(buf)@ == old(self).read_data(path@, old(buf)@, offset, *old(fi)),
            final(buf)@.len() == old(buf)@.len(),
            (*old(fi)) is Addr <==> (*final(fi)) is Addr,
    ;

    fn write(
        &mut self,
        path: &ResolvedPath,
        buf: &[u8],
        offset: i64,
        fi: &mut NativePtr<FileInfo>,
    ) -> (r: i32)
        ensures
            r == old(self).write_result(path@, buf@, offset, *old(fi)),
            (*old(fi)) is Addr <==> (*final(fi)) is Addr,
    ;

    fn statfs(&mut self, path: &ResolvedPath, stbuf: &mut NativePtr<FsStat>) -> (r: i32)
        ensures
            r == old(self).statfs_result(path@, *old(stbuf)),
            (*old(stbuf)) is Null ==> *final(stbuf) == *old(stbuf),
            (*old(stbuf)) is Addr ==> *final(stbuf) == NativePtr::<FsStat>::Addr(
                old(self).statfs_out(path@, *old(stbuf)),
            ),
    ;

    fn flush(&mut self, path: &ResolvedPath, fi: &mut NativePtr<FileInfo>) -> (r: i32)
        ensures
            r == old(self).flush_result(path@, *old(fi)),
            (*old(fi)) is Addr <==> (*final(fi)) is Addr,
    ;

    fn release(&mut self, path: &ResolvedPath, fi: &mut NativePtr<FileInfo>) -> (r: i32)
        ensures
            r == old(self).release_result(path@, *old(fi)),
            (*old(fi)) is Addr <==> (*final(fi)) is Addr,
    ;

    fn fsync(
        &mut self,
        path: &ResolvedPath,
        isdatasync: i32,
        fi: &mut NativePtr<FileInfo>,
    ) -> (r: i32)
        ensures
            r == old(self).fsync_result(path@, isdatasync, *old(fi)),
            (*old(fi)) is Addr <==> (*final(fi)) is Addr,
    ;

    fn opendir(&mut self, path: &ResolvedPath, fi: &mut NativePtr<FileInfo>) -> (r: i32)
        ensures
            r == old(self).opendir_result(path@, *old(fi)),
            (*old(fi)) is Addr <==> (*final(fi)) is Addr,
    ;

    fn readdir(
        &mut self,
        path: &ResolvedPath,
        dir: &mut DirBuffer,
        filler: DirFiller,
        offset: i64,
        fi: &mut NativePtr<FileInfo>,
        flags: u32,
    ) -> (r: i32)
        ensures
            r == old(self).readdir_result(path@, *old(dir), filler, offset, *old(fi), flags),
            (*old(fi)) is Addr <==> (*final(fi)) is Addr,
    ;

    fn releasedir(&mut self, path: &ResolvedPath, fi: &mut NativePtr<FileInfo>) -> (r: i32)
        ensures
            r == old(self).releasedir_result(path@, *old(fi)),
            (*old(fi)) is Addr <==> (*final(fi)) is Addr,
    ;

    fn access(&mut self, path: &ResolvedPath, mask: i32) -> (r: i32)
        ensures
            r == old(self).access_result(path@, mask),
    ;

    fn create(&mut self, path: &ResolvedPath, mode: u32, fi: &mut NativePtr<FileInfo>) -> (r: i32)
        ensures
            r == old(self).create_result(path@, mode, *old(fi)),
            (*old(fi)) is Null ==> *final(fi) == *old(fi),
            (*old(fi)) is Addr ==> *final(fi) == NativePtr::<FileInfo>::Addr(
                old(self).create_fi(path@, mode, *old(fi)),
            ),
    ;

    fn write_buf(
        &mut self,
        path: &ResolvedPath,
        buf: &mut NativePtr<VectoredBuffer>,
        offset: i64,
        fi: &mut NativePtr<FileInfo>,
    ) -> (r: i32)
        ensures
            r == old(self).write_buf_result(path@, *old(buf), offset, *old(fi)),
            (*old(buf)) is Addr <==> (*final(buf)) is Addr,
            (*old(fi)) is Addr <==> (*final(fi)) is Addr,
    ;

    /// The vectored read: on success the provider hands back, beside the
    /// status, the segment list it allocated; the caller owns relaying it.
    fn read_buf(
        &mut self,
        path: &ResolvedPath,
        size: usize,
        offset: i64,
        fi: &mut NativePtr<FileInfo>,
    ) -> (ret: (i32, NativePtr<VectoredBuffer>))
        ensures
            ret.0 == old(self).read_buf_result(path@, size as nat, offset, *old(fi)),
            ret.0 >= 0 ==> ret.1 == NativePtr::<VectoredBuffer>::Addr(
                old(self).read_buf_out(path@, size as nat, offset, *old(fi)),
            ),
            (*old(fi)) is Addr <==> (*final(fi)) is Addr,
    ;

    fn flock(&mut self, path: &ResolvedPath, fi: &mut NativePtr<FileInfo>, op: i32) -> (r: i32)
        ensures
            r == old(self).flock_result(path@, *old(fi), op),
            (*old(fi)) is Addr <==> (*final(fi)) is Addr,
    ;
}

} // verus!
