//! Path translation: mapping a virtual path to a backing-store path.
//!
//! A virtual path is an opaque slash-separated string supplied by the caller
//! of every operation. Translation is purely textual: the backing root is
//! prepended, and nothing else (no `..` collapsing, no symlink resolution)
//! happens here; path semantics belong to the backing store. The result is
//! kept as a null-terminated byte string, the form native system calls take.

use vstd::prelude::*;
use vstd::string::StrSliceExecFns;
use vstd::utf8::encode_utf8;

verus! {

/// The UTF-8 bytes of a piece of path text.
pub open spec fn text_bytes(s: Seq<char>) -> Seq<u8> {
    encode_utf8(s)
}

/// Literal concatenation of the backing root and a virtual path: the whole
/// of path translation.
pub open spec fn translate(root: Seq<u8>, vpath: Seq<u8>) -> Seq<u8> {
    root + vpath
}

/// A byte string in the form native system calls take: the text followed by
/// a single terminating zero byte.
pub open spec fn terminated(text: Seq<u8>) -> Seq<u8> {
    text + seq![0u8]
}

/// A backing-store path produced by translation: the backing root
/// concatenated with a virtual path, as a null-terminated byte string.
/// It is created per request and owned by the call frame that created it.
pub struct ResolvedPath {
    pub bytes: Vec<u8>,
}

impl View for ResolvedPath {
    type V = Seq<u8>;

    open spec fn view(&self) -> Seq<u8> {
        self.bytes@
    }
}

/// Spec-level translation of a virtual path against a backing root, both
/// given as text: the bytes a `ResolvedPath` built from them holds.
pub open spec fn resolved_view(root: Seq<char>, vpath: Seq<char>) -> Seq<u8> {
    terminated(translate(text_bytes(root), text_bytes(vpath)))
}

/// Builds the backing-store path for a virtual path. Total: any string is
/// valid input, since virtual paths are opaque to this layer.
pub fn resolve(root: &str, vpath: &str) -> (r: ResolvedPath)
    ensures
        r@ == resolved_view(root@, vpath@),
{
    let mut bytes = root.as_bytes_vec();
    let mut tail = vpath.as_bytes_vec();
    bytes.append(&mut tail);
    bytes.push(0u8);
    ResolvedPath { bytes }
}

} // verus!
