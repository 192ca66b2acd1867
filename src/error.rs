use std::rc::Rc;
use vstd::prelude::*;

verus! {

/// A status code as the native library reports it: zero is success.
pub type MpvError = i32;

/// The library's result type.
pub type Result<T> = std::result::Result<T, Error>;

/// Every way an operation of this crate can fail.
#[derive(Clone, Debug, PartialEq, Eq, Hash)]
pub enum Error {
    /// Loading a batch of files stopped at entry `index`, for the reason `error`.
    Loadfiles { index: usize, error: Rc<Error> },
    /// The native library that was loaded speaks another API version than the
    /// one this crate was written against.
    VersionMismatch { linked: u64, loaded: u64 },
    /// The native side handed back text that is not valid UTF-8.
    InvalidUtf8,
    /// A native resource was absent, or a host string held an interior NUL byte.
    Null,
    /// A non-zero status of the native library.
    Raw(MpvError),
}

/// Turns a native status into a result: `Ok(ret)` for zero, else the status as
/// a `Raw` error.
pub fn mpv_err<T>(ret: T, err: MpvError) -> (r: Result<T>)
    ensures
        err == 0 ==> r == Ok::<T, Error>(ret),
        err != 0 ==> r == Err::<T, Error>(Error::Raw(err)),
{
    if err == 0 {
        Ok(ret)
    } else {
        Err(Error::Raw(err))
    }
}

impl From<MpvError> for Error {
    fn from(other: MpvError) -> (r: Error)
        ensures
            r == Error::Raw(other),
    {
        Error::Raw(other)
    }
}

impl vstd::std_specs::convert::FromSpecImpl<MpvError> for Error {
    open spec fn obeys_from_spec() -> bool {
        true
    }

    open spec fn from_spec(v: MpvError) -> Error {
        Error::Raw(v)
    }
}

} // verus!
