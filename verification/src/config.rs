//! The mount session's configuration: backing root, execution-mode flags,
//! and what is derived from them before the session starts.
//!
//! A configuration is built once, through `PassthroughBuilder`, and is
//! immutable afterward: the session's execution mode (debug, foreground,
//! single- or multi-threaded dispatch) is fixed for its whole lifetime.
//! Independent flag setters commute, so the same builder calls yield the
//! same configuration in any order; the lemmas at the end state that.

use vstd::prelude::*;

use crate::path::{resolved_view, ResolvedPath};

verus! {

/// A configured passthrough filesystem: the backing root every virtual
/// path is resolved against, plus the session's execution-mode flags.
pub struct Passthrough {
    pub debug: bool,
    pub foreground: bool,
    pub multithreaded: bool,
    /// The backing root, an absolute directory path; every operation's
    /// virtual path is appended to it textually.
    pub passthrough: String,
}

/// Builds a `Passthrough` configuration; flags may only be chosen before
/// the backing root is fixed by `build`.
pub struct PassthroughBuilder {
    pub debug: bool,
    pub foreground: bool,
    pub multithreaded: bool,
}

impl PassthroughBuilder {
    /// The builder's starting point: debug and foreground on,
    /// single-threaded dispatch.
    pub fn new() -> (r: Self)
        ensures
            r == (PassthroughBuilder { debug: true, foreground: true, multithreaded: false }),
    {
        Self { debug: true, foreground: true, multithreaded: false }
    }

    /// The builder with its debug flag set to `debug`, all else unchanged.
    pub open spec fn with_debug(self, debug: bool) -> PassthroughBuilder {
        PassthroughBuilder { debug, ..self }
    }

    /// The builder with its foreground flag set, all else unchanged.
    pub open spec fn with_foreground(self, foreground: bool) -> PassthroughBuilder {
        PassthroughBuilder { foreground, ..self }
    }

    /// The builder with its threading flag set, all else unchanged.
    pub open spec fn with_multithreaded(self, multithreaded: bool) -> PassthroughBuilder {
        PassthroughBuilder { multithreaded, ..self }
    }

    pub fn debug(self, debug: bool) -> (r: Self)
        ensures
            r == self.with_debug(debug),
    {
        Self { debug, ..self }
    }

    pub fn foreground(self, foreground: bool) -> (r: Self)
        ensures
            r == self.with_foreground(foreground),
    {
        Self { foreground, ..self }
    }

    pub fn multithreaded(self, multithreaded: bool) -> (r: Self)
        ensures
            r == self.with_multithreaded(multithreaded),
    {
        Self { multithreaded, ..self }
    }

    /// Fixes the backing root and yields the finished configuration. The
    /// root must already be in canonical absolute form; establishing that
    /// (and that the directory exists) is the caller's duty, since it
    /// takes the filesystem to decide.
    pub fn build(self, passthrough: String) -> (r: Passthrough)
        ensures
            r.debug == self.debug,
            r.foreground == self.foreground,
            r.multithreaded == self.multithreaded,
            r.passthrough == passthrough,
    {
        Passthrough {
            debug: self.debug,
            foreground: self.foreground,
            multithreaded: self.multithreaded,
            passthrough,
        }
    }
}

impl Passthrough {
    /// A configuration over `passthrough` with the builder's starting
    /// flags: debug, foreground, single-threaded.
    pub fn new(passthrough: String) -> (r: Self)
        ensures
            r.debug == true,
            r.foreground == true,
            r.multithreaded == false,
            r.passthrough == passthrough,
    {
        Self::options().debug(true).foreground(true).multithreaded(false).build(passthrough)
    }

    /// A fresh builder.
    pub fn options() -> (r: PassthroughBuilder)
        ensures
            r == (PassthroughBuilder { debug: true, foreground: true, multithreaded: false }),
    {
        PassthroughBuilder::new()
    }

    /// The backing-store bytes this configuration resolves a virtual path
    /// to: the backing root, the path, a terminating zero byte.
    pub open spec fn resolved_spec(self, vpath: Seq<char>) -> Seq<u8> {
        resolved_view(self.passthrough@, vpath)
    }

    /// Resolves a virtual path against the backing root. Purely textual
    /// and total: no normalization, no symlink resolution — path semantics
    /// belong to the backing store, not to this layer.
    pub fn canonicalize(&self, path: &str) -> (r: ResolvedPath)
        ensures
            r@ == self.resolved_spec(path@),
    {
        crate::path::resolve(self.passthrough.as_str(), path)
    }

    /// The startup argument list handed to the native session runtime:
    /// the program identity, the mount point, then `-d` under debug, `-f`
    /// in the foreground, and `-s` whenever dispatch is single-threaded.
    pub open spec fn session_args_spec(self, exec: Seq<char>, mount: Seq<char>) -> Seq<Seq<char>> {
        let base = seq![exec, mount];
        let with_d = if self.debug {
            base.push("-d"@)
        } else {
            base
        };
        let with_f = if self.foreground {
            with_d.push("-f"@)
        } else {
            with_d
        };
        if !self.multithreaded {
            with_f.push("-s"@)
        } else {
            with_f
        }
    }

    /// Assembles the native session's startup arguments from the program
    /// identity, the canonical mount point, and the configured flags. The
    /// handoff that actually mounts and blocks until the session ends is
    /// the native session runtime's and happens outside this library.
    pub fn mount_args(&self, exec: &str, mount: &str) -> (r: Vec<String>)
        ensures
            r.deep_view() == self.session_args_spec(exec@, mount@),
    {
        let mut args: Vec<String> = Vec::new();
        args.push(exec.to_owned());
        args.push(mount.to_owned());
        if self.debug {
            args.push("-d".to_owned());
        }
        if self.foreground {
            args.push("-f".to_owned());
        }
        if !self.multithreaded {
            args.push("-s".to_owned());
        }
        proof {
            assert(args.deep_view() =~= self.session_args_spec(exec@, mount@));
        }
        args
    }
}

/// Independent flag setters commute: choosing debug and foreground in
/// either order leaves the builder the same.
pub proof fn lemma_debug_foreground_commute(b: PassthroughBuilder, d: bool, f: bool)
    ensures
        b.with_debug(d).with_foreground(f) == b.with_foreground(f).with_debug(d),
{
}

/// Independent flag setters commute: choosing debug and threading mode in
/// either order leaves the builder the same.
pub proof fn lemma_debug_multithreaded_commute(b: PassthroughBuilder, d: bool, m: bool)
    ensures
        b.with_debug(d).with_multithreaded(m) == b.with_multithreaded(m).with_debug(d),
{
}

/// Independent flag setters commute: choosing foreground and threading
/// mode in either order leaves the builder the same.
pub proof fn lemma_foreground_multithreaded_commute(b: PassthroughBuilder, f: bool, m: bool)
    ensures
        b.with_foreground(f).with_multithreaded(m) == b.with_multithreaded(m).with_foreground(f),
{
}

} // verus!
