//! Process-spawn orchestration: marshalling of the path, arguments,
//! environment and redirects into the buffers a spawn boundary call reads,
//! and interpretation of the call's raw result.
//!
//! The boundary only reads through the pointers it is handed, so every
//! backing buffer must stay alive and unmoved for the whole call. A
//! [`SpawnRequest`] owns all of them: callers build it here, keep it in
//! scope across the single boundary call, and drop it after the call
//! returns, on every exit path.

use vstd::prelude::*;

verus! {

use crate::marshal::{bytes_of, cstr_bytes, nul_free};
use crate::redirect::{encode_redirects, redirects_ok, wire_of, Redirect, WireRedirect};
use crate::{ConstructionError, ExitCode, Pid};

/// Everything a spawn boundary call reads, with every backing buffer owned
/// by the request itself. Each string is encoded C-style: its bytes
/// followed by one terminator byte.
#[derive(Debug)]
pub struct SpawnRequest {
    /// Encoded path of the program to run.
    pub path_z: Vec<u8>,
    /// Encoded argument strings, in order.
    pub args_z: Vec<Vec<u8>>,
    /// Encoded environment entries, in order: one (key, value) pair each.
    pub env_z: Vec<(Vec<u8>, Vec<u8>)>,
    /// Whether the child runs in the background.
    pub background: bool,
    /// Encoded redirects, in the order the receiver applies them.
    pub redirects: Vec<WireRedirect>,
}

/// The spawn inputs can be marshalled: no string among the path, the
/// arguments and the environment keys and values holds an embedded
/// terminator byte, and every redirect can be encoded.
pub open spec fn spawn_inputs_ok(
    path: Seq<char>,
    args: Seq<&str>,
    env: Seq<(String, String)>,
    redirects: Seq<Redirect>,
) -> bool {
    &&& nul_free(bytes_of(path))
    &&& forall|i: int| #![trigger args[i]] 0 <= i < args.len() ==> nul_free(bytes_of(args[i]@))
    &&& forall|i: int|
        #![trigger env[i]]
        0 <= i < env.len() ==> nul_free(bytes_of(env[i].0@)) && nul_free(bytes_of(env[i].1@))
    &&& redirects_ok(redirects)
}

/// Build the request for one spawn boundary call. Succeeds iff the inputs
/// can be marshalled; any embedded terminator byte is a construction-time
/// failure, detected before anything is handed to the boundary.
pub fn prepare_spawn(
    path: &str,
    args: &[&str],
    env: &[(String, String)],
    background: bool,
    redirects: &[Redirect],
) -> (r: Result<SpawnRequest, ConstructionError>)
    ensures
        spawn_inputs_ok(path@, args@, env@, redirects@) <==> r is Ok,
        r matches Ok(q) ==> {
            &&& q.path_z@ == bytes_of(path@).push(0u8)
            &&& q.args_z@.len() == args@.len()
            &&& forall|i: int|
                #![trigger args@[i]]
                0 <= i < args@.len() ==> q.args_z@[i]@ == bytes_of(args@[i]@).push(0u8)
            &&& q.env_z@.len() == env@.len()
            &&& forall|i: int|
                #![trigger env@[i]]
                0 <= i < env@.len() ==> q.env_z@[i].0@ == bytes_of(env@[i].0@).push(0u8)
                    && q.env_z@[i].1@ == bytes_of(env@[i].1@).push(0u8)
            &&& q.background == background
            &&& q.redirects@.len() == redirects@.len()
            &&& forall|i: int|
                0 <= i < redirects@.len() ==> q.redirects@[i] == wire_of(redirects@[i])
        },
{
    let path_z = match cstr_bytes(path) {
        Ok(z) => z,
        Err(e) => {
            return Err(e);
        },
    };
    let mut args_z: Vec<Vec<u8>> = Vec::new();
    let n_args = args.len();
    let mut i: usize = 0;
    while i < n_args
        invariant
            i <= n_args,
            n_args == args@.len(),
            args_z@.len() == i,
            forall|j: int|
                #![trigger args@[j]]
                0 <= j < i ==> nul_free(bytes_of(args@[j]@)) && args_z@[j]@ == bytes_of(
                    args@[j]@,
                ).push(0u8),
        decreases n_args - i,
    {
        match cstr_bytes(args[i]) {
            Ok(z) => args_z.push(z),
            Err(e) => {
                return Err(e);
            },
        }
        i = i + 1;
    }
    let mut env_z: Vec<(Vec<u8>, Vec<u8>)> = Vec::new();
    let n_env = env.len();
    let mut k: usize = 0;
    while k < n_env
        invariant
            k <= n_env,
            n_env == env@.len(),
            env_z@.len() == k,
            forall|j: int|
                #![trigger env@[j]]
                0 <= j < k ==> nul_free(bytes_of(env@[j].0@)) && nul_free(bytes_of(env@[j].1@))
                    && env_z@[j].0@ == bytes_of(env@[j].0@).push(0u8) && env_z@[j].1@ == bytes_of(
                    env@[j].1@,
                ).push(0u8),
        decreases n_env - k,
    {
        let key_z = match cstr_bytes(env[k].0.as_str()) {
            Ok(z) => z,
            Err(e) => {
                return Err(e);
            },
        };
        let val_z = match cstr_bytes(env[k].1.as_str()) {
            Ok(z) => z,
            Err(e) => {
                return Err(e);
            },
        };
        env_z.push((key_z, val_z));
        k = k + 1;
    }
    let wires = match encode_redirects(redirects) {
        Ok(ws) => ws,
        Err(e) => {
            return Err(e);
        },
    };
    Ok(SpawnRequest { path_z, args_z, env_z, background, redirects: wires })
}

/// Interpret the (raw result, child id) pair of a spawn boundary call: a
/// negative raw result `r` is the error `-r`; a non-negative one is the
/// success value — foreground exit status or background handle — paired
/// with the filled child id.
pub fn interpret_spawn_result(raw: i32, pid: Pid) -> (r: Result<(ExitCode, Pid), ExitCode>)
    requires
        raw > i32::MIN,
    ensures
        raw < 0 ==> (r matches Err(c) && c == -raw),
        raw >= 0 ==> (r matches Ok(p) && p == (raw, pid)),
{
    if raw < 0 {
        Err(-raw)
    } else {
        Ok((raw, pid))
    }
}

} // verus!
