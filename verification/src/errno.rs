use vstd::prelude::*;

verus! {

/// The error code for an invalid argument (`EINVAL`).
pub const EINVAL: i32 = 22;

/// An OS error code (an `errno` value), carried through unchanged.
#[derive(Clone, Copy, Debug, PartialEq, Eq, Structural)]
pub struct Errno {
    pub code: i32,
}

impl Errno {
    pub fn from_raw(code: i32) -> (r: Errno)
        ensures
            r.code == code,
    {
        Errno { code }
    }

    pub fn as_raw(self) -> (r: i32)
        ensures
            r == self.code,
    {
        self.code
    }
}

/// Translates the raw return value of a syscall that yields no payload:
/// `-1` means failure with the errno read after the call; any other value
/// means success. The OS's verdict is passed through verbatim.
pub fn result_unit(res: i32, err: i32) -> (r: Result<(), crate::Error>)
    ensures
        res == -1 ==> r == Result::<(), crate::Error>::Err(crate::Error::Sys((Errno { code: err }))),
        res != -1 ==> r == Result::<(), crate::Error>::Ok(()),
{
    if res == -1 {
        Err(crate::Error::Sys(Errno { code: err }))
    } else {
        Ok(())
    }
}

} // verus!
