use vstd::prelude::*;

verus! {

/// An OS-level process identifier: an opaque, integer-backed handle to a
/// process, owned by the caller until it is reaped elsewhere.
#[derive(Clone, Copy, Debug, PartialEq, Eq, Structural)]
pub struct Pid {
    pub raw: i32,
}

impl Pid {
    pub fn from_raw(raw: i32) -> (r: Pid)
        ensures
            r.raw == raw,
    {
        Pid { raw }
    }

    pub fn as_raw(self) -> (r: i32)
        ensures
            r == self.raw,
    {
        self.raw
    }
}

} // verus!
