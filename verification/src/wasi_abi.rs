//! The few items the logic takes from the `wasi` crate: error-code
//! constants of the POSIX-like namespace and the signal type.
//!
//! Each trusted item here names the `wasi` item it relies on; the stated
//! values are the ones that crate defines.

use vstd::prelude::*;

verus! {

/// Code of `EBADF`: a query on this descriptor number reports it unused.
pub const CODE_BADF: u16 = 8;

/// Code of `EINVAL`: an argument could not be accepted.
pub const CODE_INVAL: u16 = 28;

/// Code of `ENAMETOOLONG`: a path result outgrew every allowed buffer.
pub const CODE_NAMETOOLONG: u16 = 37;

/// Code of `ENOBUFS`: the buffer handed to a query call was too small.
pub const CODE_NOBUFS: u16 = 42;

/// Relies on `wasi::ERRNO_BADF` (code 8) and `wasi::Errno::raw`.
#[verifier::external_body]
pub fn errno_badf() -> (r: u16)
    ensures
        r == CODE_BADF,
{
    wasi::ERRNO_BADF.raw()
}

/// Relies on `wasi::ERRNO_INVAL` (code 28) and `wasi::Errno::raw`.
#[verifier::external_body]
pub fn errno_inval() -> (r: u16)
    ensures
        r == CODE_INVAL,
{
    wasi::ERRNO_INVAL.raw()
}

/// Relies on `wasi::ERRNO_NAMETOOLONG` (code 37) and `wasi::Errno::raw`.
#[verifier::external_body]
pub fn errno_nametoolong() -> (r: u16)
    ensures
        r == CODE_NAMETOOLONG,
{
    wasi::ERRNO_NAMETOOLONG.raw()
}

/// Relies on `wasi::ERRNO_NOBUFS` (code 42) and `wasi::Errno::raw`.
#[verifier::external_body]
pub fn errno_nobufs() -> (r: u16)
    ensures
        r == CODE_NOBUFS,
{
    wasi::ERRNO_NOBUFS.raw()
}

#[verifier::external_type_specification]
#[verifier::external_body]
pub struct ExSignal(wasi::Signal);

/// The signal's numeric code: what `wasi::Signal::raw` returns, a
/// function of the signal value alone.
pub uninterp spec fn signal_code(s: wasi::Signal) -> u8;

/// Relies on `wasi::Signal::raw`, which returns the signal's numeric code.
pub assume_specification[ wasi::Signal::raw ](s: &wasi::Signal) -> (r: u8)
    ensures
        r == signal_code(*s),
;

/// The (process id, signal code) pair a signal-delivery boundary call
/// takes: the signal crosses the boundary as its numeric code, unchanged.
pub fn kill_request(pid: crate::Pid, signal: wasi::Signal) -> (r: (crate::Pid, i32))
    ensures
        r.0 == pid,
        r.1 == signal_code(signal) as i32,
        0 <= r.1 < 256,
{
    (pid, signal.raw() as i32)
}

} // verus!
