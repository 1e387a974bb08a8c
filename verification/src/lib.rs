//! User-space binding layer for a sandboxed-runtime syscall extension:
//! process spawning with redirection, descriptor renumbering, mount/unmount,
//! device nodes and terminal control on top of a minimal system interface.
//!
//! The library holds the design content of that layer: the redirect encoder
//! that turns high-level intents into tagged wire structures, the spawn
//! marshalling and result interpretation, the growable-buffer retry protocol
//! for unbounded string results, and the descriptor reallocation algorithm.
//! The raw boundary calls themselves are a fixed external surface; callers
//! perform them with the structures prepared here and hand the raw results
//! back for interpretation.

use vstd::prelude::*;

pub use wasi::SIGNAL_KILL;

pub mod cwd;
pub mod fdesc;
pub mod marshal;
pub mod redirect;
pub mod spawn;
pub mod status;
pub mod wasi_abi;

verus! {

/// A descriptor number, as the boundary's descriptor table numbers them.
pub type Fd = wasi::Fd;

/// Mask of an event source's subscription bits, for the event-source
/// boundary call.
pub type WasiEvents = u32;

/// Terminal window-size change event bit.
pub const WASI_EVENT_WINCH: WasiEvents = 1;

/// Terminal interrupt event bit.
pub const WASI_EVENT_SIGINT: WasiEvents = 2;

/// Number of distinct event bits.
pub const WASI_EVENTS_NUM: usize = 2;

/// Bytes of an event mask buffer.
pub const WASI_EVENTS_MASK_SIZE: usize = 4;

/// Descriptor-flag bit marking a control descriptor.
pub const WASI_EXT_FDFLAG_CTRL_BIT: wasi::Fdflags = 0x0020;

/// Mask of the extension's descriptor-flag bits.
pub const WASI_EXT_FDFLAG_MASK: wasi::Fdflags = 0xffc0;

/// Descriptor-flag bit: close the descriptor when a child is spawned.
pub const WASI_EXT_FDFLAG_CLOEXEC: wasi::Fdflags = 0x0040;

/// Terminal control-operation code of the extension ABI.
pub const WGETGS: u64 = 2147746304;

/// Terminal control-operation code of the extension ABI.
pub const WGETRH: u64 = 513;

/// Terminal control-operation code of the extension ABI.
pub const WGETRB: u64 = 514;

/// Pipe-device control-operation code of the extension ABI.
pub const FIFOSKERNW: u64 = 1074003968;

/// Pipe-device control-operation code of the extension ABI.
pub const FIFOSKERNR: u64 = 1074003969;

/// Pipe-device control-operation code of the extension ABI.
pub const FIFOSCLOSERM: u64 = 1074003970;

/// Raw result of a boundary call: negative values carry an error code.
pub type ExitCode = i32;

/// Identifier of a child process; meaningful only after a successful spawn.
pub type Pid = i32;

/// A user-supplied string could not be encoded for the boundary because it
/// holds an embedded terminator byte. Detected locally, before any boundary
/// call is made.
#[derive(Clone, Copy, PartialEq, Eq, Structural, Debug)]
pub struct ConstructionError;

} // verus!
