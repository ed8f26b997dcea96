//! Opaque handles of the native library.

use vstd::prelude::*;

verus! {

/// A token that the native library hands out for a connector, a reader, a
/// writer or a string of its own. It is passed back verbatim and compared by
/// value, nothing else; the value `0` is the native "no such object".
#[derive(Debug, Clone, Copy, PartialEq, Eq, Structural)]
pub struct NativeHandle {
    raw: isize,
}

impl View for NativeHandle {
    type V = int;

    closed spec fn view(&self) -> int {
        self.raw as int
    }
}

impl NativeHandle {
    /// Wraps a value that a native entry point returned.
    pub fn from_raw(raw: isize) -> (handle: NativeHandle)
        ensures
            handle@ == raw,
    {
        NativeHandle { raw }
    }

    /// The value to hand back to a native entry point.
    pub fn raw(&self) -> (raw: isize)
        ensures
            raw == self@,
    {
        self.raw
    }

    /// Whether this is the null handle.
    pub fn is_null(&self) -> (null: bool)
        ensures
            null == (self@ == 0),
    {
        self.raw == 0
    }

    /// Handles are the same exactly when their values are.
    pub proof fn lemma_eq_by_value(a: NativeHandle, b: NativeHandle)
        ensures
            (a == b) == (a@ == b@),
    {
    }
}

} // verus!
