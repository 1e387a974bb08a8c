//! Descriptor commands and the descriptor-reallocation algorithm:
//! find the lowest free descriptor number at or above a minimum and move
//! an existing descriptor there.
//!
//! The boundary-assisted strategy delegates the search and move to a
//! single descriptor-command call, atomic with respect to the process's
//! descriptor table. The client-side fallback probes descriptor numbers
//! upward from the minimum until one reports "bad descriptor" (free),
//! duplicates the source onto it, and closes the original number.
//! [`find_lowest_free`] is the fallback's search over an observed
//! occupied set, and [`lemma_move_to_lowest_free`] states what the
//! duplicate-then-close pair does to the table. The fallback's probes are
//! not atomic: if another execution context mutates the table between
//! probe and move, the observed set is stale; the caller owns that risk.

use vstd::prelude::*;

verus! {

use vstd::set_lib::{lemma_int_range, lemma_len_subset, set_int_range};

use crate::wasi_abi::{errno_badf, CODE_BADF};
use crate::Fd;

/// A descriptor command, for the command-dispatch boundary call.
#[allow(non_camel_case_types)]
pub enum FcntlCommand {
    /// Move the descriptor to the lowest free number at or above
    /// `min_fd_num`, atomically with respect to the descriptor table; the
    /// call answers with the chosen number.
    F_MVFD { min_fd_num: Fd },
    /// Query the descriptor's flags.
    F_GETFD,
    /// Replace the descriptor's flags.
    F_SETFD { flags: wasi::Fdflags },
}

/// Decode one probe of the client-side fallback: a negative raw result
/// carrying the bad-descriptor code reports the probed number free.
pub fn probe_reports_free(raw: i32) -> (b: bool)
    ensures
        b <==> raw == -(CODE_BADF as i32),
{
    raw == -(errno_badf() as i32)
}

/// Whether `x` occurs in the observed occupied set.
fn fd_occupied(occupied: &[Fd], x: Fd) -> (b: bool)
    ensures
        b <==> occupied@.contains(x),
{
    let n = occupied.len();
    let mut i: usize = 0;
    while i < n
        invariant
            i <= n,
            n == occupied@.len(),
            forall|j: int| 0 <= j < i ==> occupied@[j] != x,
        decreases n - i,
    {
        if occupied[i] == x {
            return true;
        }
        i = i + 1;
    }
    false
}

/// If every number in `[lo, hi)` occurs in `s`, the interval is no longer
/// than `s`: an occupied set of `n` descriptors cannot fill `n + 1`
/// consecutive numbers.
proof fn lemma_interval_in_seq(s: Seq<Fd>, lo: int, hi: int)
    requires
        0 <= lo <= hi,
        hi <= u32::MAX as int + 1,
        forall|x: int| lo <= x < hi ==> s.contains(#[trigger] (x as Fd)),
    ensures
        hi - lo <= s.len(),
{
    broadcast use vstd::seq_lib::seq_to_set_is_finite;
    broadcast use vstd::set::group_set_axioms;

    let si = s.map_values(|f: Fd| f as int);
    assert forall|x: int| lo <= x < hi implies si.contains(x) by {
        assert(s.contains(x as Fd));
        let j = choose|j: int| 0 <= j < s.len() && s[j] == x as Fd;
        assert(si[j] == x);
    }
    assert(set_int_range(lo, hi).subset_of(si.to_set()));
    lemma_int_range(lo, hi);
    si.lemma_cardinality_of_set();
    lemma_len_subset(set_int_range(lo, hi), si.to_set());
}

/// The search of the client-side fallback: the smallest descriptor number
/// `d >= min` outside the observed occupied set.
pub fn find_lowest_free(occupied: &[Fd], min: Fd) -> (d: Fd)
    requires
        min + occupied@.len() <= u32::MAX,
    ensures
        d >= min,
        !occupied@.contains(d),
        forall|x: Fd| min <= x < d ==> occupied@.contains(x),
{
    let mut d: Fd = min;
    while fd_occupied(occupied, d)
        invariant
            min <= d,
            d - min <= occupied@.len(),
            min + occupied@.len() <= u32::MAX,
            forall|x: Fd| min <= x < d ==> occupied@.contains(x),
        decreases min + occupied@.len() - d,
    {
        proof {
            assert forall|x: int| min <= x < d + 1 implies occupied@.contains(
                #[trigger] (x as Fd),
            ) by {
                if x < d {
                    assert(occupied@.contains(x as Fd));
                }
            }
            lemma_interval_in_seq(occupied@, min as int, d as int + 1);
        }
        d = d + 1;
    }
    d
}

/// The descriptor table after a duplicate of an open descriptor onto
/// number `dst`: `dst` is now open too.
pub open spec fn table_after_duplicate(t: Set<Fd>, dst: Fd) -> Set<Fd> {
    t.insert(dst)
}

/// The descriptor table after closing number `fd`.
pub open spec fn table_after_close(t: Set<Fd>, fd: Fd) -> Set<Fd> {
    t.remove(fd)
}

/// What the fallback's move does to the descriptor table: with `d` the
/// lowest free number at or above the minimum, duplicating the source onto
/// `d` and closing the source leaves `d` open — now carrying the source's
/// state — the source's number closed, and every other number as it was.
/// The chosen number is never the source itself, since the source is open
/// and `d` is free.
pub proof fn lemma_move_to_lowest_free(t: Set<Fd>, src: Fd, min: Fd, d: Fd)
    requires
        t.contains(src),
        !t.contains(d),
        min <= d,
        forall|x: Fd| min <= x < d ==> t.contains(x),
    ensures
        d != src,
        ({
            let after = table_after_close(table_after_duplicate(t, d), src);
            &&& after.contains(d)
            &&& !after.contains(src)
            &&& forall|x: Fd|
                x != src && x != d ==> after.contains(x) == t.contains(x)
        }),
{
    broadcast use vstd::set::group_set_axioms;

}

} // verus!
