//! Argument marshaling: conversion between the safe optional shapes the
//! operation interface uses and the nullable convention of the native call
//! protocol.
//!
//! `NativePtr` models a nullable native argument: `Null` stands for a null
//! pointer, `Addr` for a non-null pointer, carrying the pointed-to value.
//! The mapping is exact in both directions: an absent optional argument
//! becomes `Null` and nothing else, a present one becomes `Addr` of the very
//! value, and converting back recovers the original. Nothing may be written
//! through a null argument, so an operation handed `Null` hands `Null` on.

use vstd::prelude::*;

verus! {

/// The marshaled form of a nullable native argument.
pub enum NativePtr<T> {
    /// A null pointer: the argument is absent.
    Null,
    /// A non-null pointer; the value it addresses.
    Addr(T),
}

impl<T> NativePtr<T> {
    /// True exactly of the null (absent) form.
    pub fn is_null(&self) -> (r: bool)
        ensures
            r == (self is Null),
    {
        match self {
            NativePtr::Null => true,
            NativePtr::Addr(_) => false,
        }
    }
}

/// What marshaling an optional argument yields: absent maps to `Null`,
/// present maps to `Addr` of the same value.
pub open spec fn marshaled<T>(v: Option<T>) -> NativePtr<T> {
    match v {
        Option::None => NativePtr::Null,
        Option::Some(x) => NativePtr::Addr(x),
    }
}

/// What unmarshaling a native argument yields: `Null` maps back to absent,
/// `Addr` to present with the addressed value.
pub open spec fn unmarshaled<T>(p: NativePtr<T>) -> Option<T> {
    match p {
        NativePtr::Null => Option::None,
        NativePtr::Addr(x) => Option::Some(x),
    }
}

/// Marshals an optional argument into the native nullable convention.
pub fn to_native<T>(v: Option<T>) -> (r: NativePtr<T>)
    ensures
        r == marshaled(v),
{
    match v {
        Option::None => NativePtr::Null,
        Option::Some(x) => NativePtr::Addr(x),
    }
}

/// Recovers the optional argument a native nullable value stands for.
pub fn from_native<T>(p: NativePtr<T>) -> (r: Option<T>)
    ensures
        r == unmarshaled(p),
{
    match p {
        NativePtr::Null => Option::None,
        NativePtr::Addr(x) => Option::Some(x),
    }
}

/// Marshaling loses nothing: converting an optional argument to the native
/// convention and back yields the argument again.
pub proof fn lemma_marshal_round_trip<T>(v: Option<T>)
    ensures
        unmarshaled(marshaled(v)) == v,
{
}

/// Unmarshaling loses nothing either: a native nullable value converted to
/// the safe shape and back is itself again.
pub proof fn lemma_unmarshal_round_trip<T>(p: NativePtr<T>)
    ensures
        marshaled(unmarshaled(p)) == p,
{
}

} // verus!
