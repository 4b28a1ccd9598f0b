//! Wrapper for the host's window handles.

use vstd::prelude::*;

verus! {

/// A non-null window handle of the host's user interface.
#[derive(Debug, Clone, Copy, PartialEq, Eq, Structural)]
pub struct Window {
    window_handle: u64,
}

impl Window {
    /// The raw handle behind this wrapper; never null.
    pub closed spec fn spec_handle(&self) -> u64 {
        self.window_handle
    }

    /// Wraps a raw window handle; the null handle yields no window.
    pub fn new(handle: u64) -> (r: Option<Window>)
        ensures
            handle == 0 <==> r is None,
            r matches Some(w) ==> w.spec_handle() == handle,
    {
        if handle == 0 {
            None
        } else {
            Some(Window { window_handle: handle })
        }
    }

    /// The raw handle this window was wrapped from.
    pub fn get_handle(&self) -> (r: u64)
        ensures
            r == self.spec_handle(),
    {
        self.window_handle
    }
}

} // verus!
