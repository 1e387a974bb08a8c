//! The growable-buffer retry protocol for unbounded string results, as the
//! current-working-directory query uses it.
//!
//! The caller starts with a buffer of [`CWD_START_SIZE`] bytes, performs
//! the query boundary call, and hands the buffer and the raw result to
//! [`getcwd_step`]. The step either yields the result string's bytes,
//! names the doubled size to retry with, or fails. Doubling stops once the
//! buffer would outgrow [`CWD_MAX_SIZE`]; a result that still does not fit
//! fails with the name-too-long code. [`cwd_calls`] and [`cwd_succeeds`]
//! state the protocol's course for a true result length, and the lemmas
//! below pin down how many calls it makes and when it can succeed.

use vstd::prelude::*;

verus! {

use vstd::arithmetic::power2::{lemma2_to64, pow2};

use crate::marshal::nul_free;
use crate::wasi_abi::{errno_inval, errno_nametoolong, errno_nobufs, CODE_INVAL, CODE_NAMETOOLONG,
    CODE_NOBUFS};
use crate::ExitCode;

/// Size of the first buffer handed to the query call.
pub const CWD_START_SIZE: usize = 256;

/// Largest buffer the protocol will offer the query call.
pub const CWD_MAX_SIZE: usize = 65536;

/// What the caller must do after one query boundary call.
#[derive(Debug)]
pub enum CwdStep {
    /// The query succeeded; these are the result string's bytes, the
    /// terminator excluded.
    Done(Vec<u8>),
    /// The buffer was too small; retry with one of this size.
    Grow(usize),
    /// Give up and surface this error code.
    Fail(ExitCode),
}

/// Decide the caller's next move from the buffer a query call filled and
/// the call's raw result. On success the result is the buffer's prefix
/// before its first terminator byte; a success reply without a terminator
/// is rejected as invalid. The too-small code doubles the buffer while the
/// doubled size stays within [`CWD_MAX_SIZE`], and fails with the
/// name-too-long code once it would not. Any other nonzero result is
/// surfaced verbatim. The buffer is never empty: the protocol starts at
/// [`CWD_START_SIZE`] bytes and only ever grows.
pub fn getcwd_step(buf: &Vec<u8>, raw: i32) -> (s: CwdStep)
    requires
        buf@.len() > 0,
    ensures
        raw == 0 && !nul_free(buf@) ==> (s matches CwdStep::Done(p) && nul_free(p@) && p@.len()
            < buf@.len() && buf@[p@.len() as int] == 0 && p@ == buf@.subrange(
            0,
            p@.len() as int,
        )),
        raw == 0 && nul_free(buf@) ==> (s matches CwdStep::Fail(e) && e == CODE_INVAL as i32),
        raw == CODE_NOBUFS as i32 && 2 * buf@.len() <= CWD_MAX_SIZE ==> (s matches CwdStep::Grow(n)
            && n == 2 * buf@.len()),
        raw == CODE_NOBUFS as i32 && 2 * buf@.len() > CWD_MAX_SIZE ==> (s matches CwdStep::Fail(e)
            && e == CODE_NAMETOOLONG as i32),
        raw != 0 && raw != CODE_NOBUFS as i32 ==> (s matches CwdStep::Fail(e) && e == raw),
{
    if raw == 0 {
        match crate::marshal::find_nul(buf.as_slice()) {
            Some(i) => {
                let mut p: Vec<u8> = Vec::new();
                let mut j: usize = 0;
                while j < i
                    invariant
                        j <= i,
                        i < buf@.len(),
                        p@ == buf@.subrange(0, j as int),
                    decreases i - j,
                {
                    p.push(buf[j]);
                    assert(buf@.subrange(0, j + 1 as int) =~= buf@.subrange(0, j as int).push(
                        buf@[j as int],
                    ));
                    j = j + 1;
                }
                CwdStep::Done(p)
            },
            None => CwdStep::Fail(errno_inval() as i32),
        }
    } else if raw == errno_nobufs() as i32 {
        if buf.len() <= CWD_MAX_SIZE / 2 {
            CwdStep::Grow(2 * buf.len())
        } else {
            CwdStep::Fail(errno_nametoolong() as i32)
        }
    } else {
        CwdStep::Fail(raw)
    }
}

/// The query call's reply for a true result of `l` bytes offered a buffer
/// of `size` bytes: success needs room for the result and its terminator.
pub open spec fn cwd_reply_ok(l: nat, size: nat) -> bool {
    l + 1 <= size
}

/// How many query boundary calls the protocol makes, starting from a
/// buffer of `size` bytes, when the true result is `l` bytes long.
pub open spec fn cwd_calls(l: nat, size: nat) -> nat
    decreases CWD_MAX_SIZE - size,
    when 1 <= size <= CWD_MAX_SIZE
{
    if cwd_reply_ok(l, size) {
        1
    } else if 2 * size <= CWD_MAX_SIZE {
        1 + cwd_calls(l, 2 * size)
    } else {
        1
    }
}

/// Whether the protocol, starting from a buffer of `size` bytes, ends with
/// the result string rather than the name-too-long failure.
pub open spec fn cwd_succeeds(l: nat, size: nat) -> bool
    decreases CWD_MAX_SIZE - size,
    when 1 <= size <= CWD_MAX_SIZE
{
    if cwd_reply_ok(l, size) {
        true
    } else if 2 * size <= CWD_MAX_SIZE {
        cwd_succeeds(l, 2 * size)
    } else {
        false
    }
}

/// The protocol, started from its initial buffer size, succeeds exactly
/// for true result lengths below [`CWD_MAX_SIZE`]; any longer result ends
/// in the name-too-long failure.
pub proof fn lemma_cwd_succeeds_iff(l: nat)
    ensures
        cwd_succeeds(l, CWD_START_SIZE as nat) <==> l < CWD_MAX_SIZE,
{
    reveal_with_fuel(cwd_succeeds, 10);
}

/// Whatever the true result's length, the protocol makes at most nine
/// query calls — eight doublings — from its initial buffer size.
pub proof fn lemma_cwd_bounded(l: nat)
    ensures
        cwd_calls(l, CWD_START_SIZE as nat) <= 9,
{
    reveal_with_fuel(cwd_calls, 10);
}

/// The protocol performs exactly `k` buffer doublings — `k + 1` query
/// calls — where `2^k` is the first power of two that takes the initial
/// buffer to the true result's size: `k` is smallest with
/// `CWD_START_SIZE * 2^k >= l + 1`.
pub proof fn lemma_cwd_doublings(l: nat, k: nat)
    requires
        l < CWD_MAX_SIZE,
        (CWD_START_SIZE as nat) * pow2(k) >= l + 1,
        forall|j: nat| j < k ==> (CWD_START_SIZE as nat) * pow2(j) < l + 1,
    ensures
        cwd_calls(l, CWD_START_SIZE as nat) == k + 1,
{
    lemma2_to64();
    reveal_with_fuel(cwd_calls, 10);
    if k == 0 {
    } else if k == 1 {
        assert((CWD_START_SIZE as nat) * pow2(0) < l + 1);
    } else if k == 2 {
        assert((CWD_START_SIZE as nat) * pow2(1) < l + 1);
    } else if k == 3 {
        assert((CWD_START_SIZE as nat) * pow2(2) < l + 1);
    } else if k == 4 {
        assert((CWD_START_SIZE as nat) * pow2(3) < l + 1);
    } else if k == 5 {
        assert((CWD_START_SIZE as nat) * pow2(4) < l + 1);
    } else if k == 6 {
        assert((CWD_START_SIZE as nat) * pow2(5) < l + 1);
    } else if k == 7 {
        assert((CWD_START_SIZE as nat) * pow2(6) < l + 1);
    } else if k == 8 {
        assert((CWD_START_SIZE as nat) * pow2(7) < l + 1);
    } else {
        assert((CWD_START_SIZE as nat) * pow2(8) < l + 1);
        assert(false);
    }
}

} // verus!
