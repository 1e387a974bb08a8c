//! Interpretation of raw boundary results, and the small pure encodings
//! the pass-through calls use.
//!
//! Two conventions cover every boundary call. Calls that report only
//! success or failure return `0` for success and an error code otherwise.
//! Calls that return a value report it as a non-negative result, and a
//! negative result `r` carries the error code `-r`.

use vstd::prelude::*;

verus! {

use crate::ExitCode;

/// Interpret a status-only raw result: `Ok` iff the raw result is `0`,
/// else the raw result verbatim as the error. Used for mount, unmount,
/// device-node creation, signal delivery, environment mutation, directory
/// change and the terminal attribute calls.
pub fn status_result(raw: i32) -> (r: Result<(), ExitCode>)
    ensures
        raw == 0 <==> r is Ok,
        raw != 0 ==> (r matches Err(e) && e == raw),
{
    if raw == 0 {
        Ok(())
    } else {
        Err(raw)
    }
}

/// Interpret a value-carrying raw result: a negative raw result `r` is the
/// error `-r`, a non-negative one is the value itself. Used for identity
/// queries, control-operation dispatch and descriptor-command calls.
pub fn value_result(raw: i32) -> (r: Result<i32, ExitCode>)
    requires
        raw > i32::MIN,
    ensures
        raw >= 0 <==> r is Ok,
        raw >= 0 ==> (r matches Ok(v) && v == raw),
        raw < 0 ==> (r matches Err(e) && e == -raw),
{
    if raw < 0 {
        Err(-raw)
    } else {
        Ok(raw)
    }
}

/// Interpret a terminal-query raw result as the answer to a yes/no
/// question: a negative raw result `r` is the error `-r`; otherwise the
/// answer is yes exactly on `1`.
pub fn bool_result(raw: i32) -> (r: Result<bool, ExitCode>)
    requires
        raw > i32::MIN,
    ensures
        raw >= 0 ==> (r matches Ok(b) && (b <==> raw == 1)),
        raw < 0 ==> (r matches Err(e) && e == -raw),
{
    if raw < 0 {
        Err(-raw)
    } else {
        Ok(raw == 1)
    }
}

/// Interpret a status-only raw result together with a value the call wrote
/// into a caller-supplied slot: the value is handed out only on success.
pub fn slot_result<T>(raw: i32, slot: T) -> (r: Result<T, ExitCode>)
    ensures
        raw == 0 <==> r is Ok,
        raw == 0 ==> (r matches Ok(v) && v == slot),
        raw != 0 ==> (r matches Err(e) && e == raw),
{
    if raw == 0 {
        Ok(slot)
    } else {
        Err(raw)
    }
}

/// Pack a device's major and minor numbers into the boundary's device-id
/// encoding: the major number in the bits above the 20-bit minor field.
/// For in-range numbers the encoding is exact and reversible.
pub fn mkdev(maj: i32, min: i32) -> (dev: i32)
    ensures
        dev == (maj << 20) | min,
        0 <= maj < 0x800 && 0 <= min < 0x100000 ==> dev == maj * 0x100000 + min && dev >> 20 == maj
            && dev & 0xfffff == min,
{
    proof {
        assert(0 <= maj < 0x800 && 0 <= min < 0x100000 ==> ((maj << 20) | min) == maj * 0x100000
            + min && ((maj << 20) | min) >> 20 == maj && ((maj << 20) | min) & 0xfffff == min)
            by (bit_vector);
    }
    (maj << 20) | min
}

/// When a terminal attribute change takes effect.
#[derive(Clone, Copy, PartialEq, Eq, Structural, Debug)]
pub enum TcsetattrAction {
    /// Immediately.
    TCSANOW,
    /// After pending output has drained.
    TCSADRAIN,
    /// After pending output has drained, discarding pending input.
    TCSAFLUSH,
}

} // verus!
