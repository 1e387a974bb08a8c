//! The redirect encoder: high-level redirect intents become the boundary's
//! tagged wire structures.
//!
//! A wire entry pairs a discriminant tag with a payload selected by that
//! tag, plus an always-present destination-descriptor field. The real
//! boundary structure stores a raw address and length for a path payload;
//! here the payload owns the path, so the encoded sequence is also the
//! structure that keeps every backing buffer alive until the boundary call
//! returns. Encoding fails, before anything reaches the boundary, on any
//! path that holds an embedded terminator byte; no partial sequence is
//! emitted.

use vstd::prelude::*;

verus! {

use crate::marshal::{bytes_of, find_nul, nul_free};
use crate::{ConstructionError, Fd};

/// The process's standard-input descriptor, the implicit destination of a
/// `PipeIn` redirect.
pub const STDIN_FD: Fd = 0;

/// The process's standard-output descriptor, the implicit destination of a
/// `PipeOut` redirect.
pub const STDOUT_FD: Fd = 1;

/// A request to rebind, duplicate or close a descriptor as part of
/// launching a new process. Constructed per spawn invocation and discarded
/// after the call returns; never persisted.
#[derive(Debug)]
pub enum Redirect {
    /// Open the path for reading on the given descriptor.
    Read(Fd, String),
    /// Open the path for writing on the given descriptor.
    Write(Fd, String),
    /// Open the path for appending on the given descriptor.
    Append(Fd, String),
    /// Open the path for reading and writing on the given descriptor.
    ReadWrite(Fd, String),
    /// Bind the source descriptor to the process's standard input.
    PipeIn(Fd),
    /// Bind the source descriptor to the process's standard output.
    PipeOut(Fd),
    /// Duplicate the source descriptor onto the destination number.
    Duplicate { fd_src: Fd, fd_dst: Fd },
    /// Close the destination number.
    Close(Fd),
}

/// Discriminant tag of a wire entry.
#[derive(Clone, Copy, PartialEq, Eq, Structural, Debug)]
pub enum RedirectTag {
    Read,
    Write,
    Append,
    ReadWrite,
    PipeIn,
    PipeOut,
    Duplicate,
    Close,
}

/// Payload of a wire entry, selected by the tag.
#[derive(Debug)]
pub enum WirePayload {
    /// The bytes the entry's path pointer and length address.
    Path(String),
    /// A source descriptor number.
    Src(Fd),
    /// The receiver ignores the payload for this tag.
    Ignored,
}

/// One encoded redirect, as the boundary receives it.
#[derive(Debug)]
pub struct WireRedirect {
    pub tag: RedirectTag,
    pub payload: WirePayload,
    pub fd_dst: Fd,
}

/// The path carried by a redirect, if its variant carries one.
pub open spec fn redirect_path(r: Redirect) -> Option<String> {
    match r {
        Redirect::Read(_, p) => Some(p),
        Redirect::Write(_, p) => Some(p),
        Redirect::Append(_, p) => Some(p),
        Redirect::ReadWrite(_, p) => Some(p),
        _ => None,
    }
}

/// A redirect can be encoded iff any path it carries is free of embedded
/// terminator bytes.
pub open spec fn redirect_ok(r: Redirect) -> bool {
    match redirect_path(r) {
        Some(p) => nul_free(bytes_of(p@)),
        None => true,
    }
}

/// The wire entry a redirect encodes to: tag, payload and destination
/// descriptor exactly as the encoding table assigns them.
pub open spec fn wire_of(r: Redirect) -> WireRedirect {
    match r {
        Redirect::Read(fd, p) => WireRedirect {
            tag: RedirectTag::Read,
            payload: WirePayload::Path(p),
            fd_dst: fd,
        },
        Redirect::Write(fd, p) => WireRedirect {
            tag: RedirectTag::Write,
            payload: WirePayload::Path(p),
            fd_dst: fd,
        },
        Redirect::Append(fd, p) => WireRedirect {
            tag: RedirectTag::Append,
            payload: WirePayload::Path(p),
            fd_dst: fd,
        },
        Redirect::ReadWrite(fd, p) => WireRedirect {
            tag: RedirectTag::ReadWrite,
            payload: WirePayload::Path(p),
            fd_dst: fd,
        },
        Redirect::PipeIn(fd_src) => WireRedirect {
            tag: RedirectTag::PipeIn,
            payload: WirePayload::Src(fd_src),
            fd_dst: STDIN_FD,
        },
        Redirect::PipeOut(fd_src) => WireRedirect {
            tag: RedirectTag::PipeOut,
            payload: WirePayload::Src(fd_src),
            fd_dst: STDOUT_FD,
        },
        Redirect::Duplicate { fd_src, fd_dst } => WireRedirect {
            tag: RedirectTag::Duplicate,
            payload: WirePayload::Src(fd_src),
            fd_dst: fd_dst,
        },
        Redirect::Close(fd_dst) => WireRedirect {
            tag: RedirectTag::Close,
            payload: WirePayload::Ignored,
            fd_dst: fd_dst,
        },
    }
}

/// Encode one redirect. Succeeds with exactly the table's wire entry iff
/// any path the redirect carries is free of terminator bytes.
pub fn encode_redirect(r: &Redirect) -> (w: Result<WireRedirect, ConstructionError>)
    ensures
        redirect_ok(*r) ==> (w matches Ok(e) && e == wire_of(*r)),
        !redirect_ok(*r) ==> w is Err,
{
    match r {
        Redirect::Read(fd, p) => {
            if find_nul(p.as_str().as_bytes()).is_some() {
                Err(ConstructionError)
            } else {
                Ok(
                    WireRedirect {
                        tag: RedirectTag::Read,
                        payload: WirePayload::Path(p.clone()),
                        fd_dst: *fd,
                    },
                )
            }
        },
        Redirect::Write(fd, p) => {
            if find_nul(p.as_str().as_bytes()).is_some() {
                Err(ConstructionError)
            } else {
                Ok(
                    WireRedirect {
                        tag: RedirectTag::Write,
                        payload: WirePayload::Path(p.clone()),
                        fd_dst: *fd,
                    },
                )
            }
        },
        Redirect::Append(fd, p) => {
            if find_nul(p.as_str().as_bytes()).is_some() {
                Err(ConstructionError)
            } else {
                Ok(
                    WireRedirect {
                        tag: RedirectTag::Append,
                        payload: WirePayload::Path(p.clone()),
                        fd_dst: *fd,
                    },
                )
            }
        },
        Redirect::ReadWrite(fd, p) => {
            if find_nul(p.as_str().as_bytes()).is_some() {
                Err(ConstructionError)
            } else {
                Ok(
                    WireRedirect {
                        tag: RedirectTag::ReadWrite,
                        payload: WirePayload::Path(p.clone()),
                        fd_dst: *fd,
                    },
                )
            }
        },
        Redirect::PipeIn(fd_src) => Ok(
            WireRedirect {
                tag: RedirectTag::PipeIn,
                payload: WirePayload::Src(*fd_src),
                fd_dst: STDIN_FD,
            },
        ),
        Redirect::PipeOut(fd_src) => Ok(
            WireRedirect {
                tag: RedirectTag::PipeOut,
                payload: WirePayload::Src(*fd_src),
                fd_dst: STDOUT_FD,
            },
        ),
        Redirect::Duplicate { fd_src, fd_dst } => Ok(
            WireRedirect {
                tag: RedirectTag::Duplicate,
                payload: WirePayload::Src(*fd_src),
                fd_dst: *fd_dst,
            },
        ),
        Redirect::Close(fd_dst) => Ok(
            WireRedirect { tag: RedirectTag::Close, payload: WirePayload::Ignored, fd_dst: *fd_dst },
        ),
    }
}

/// Every redirect of the sequence can be encoded.
pub open spec fn redirects_ok(rs: Seq<Redirect>) -> bool {
    forall|i: int| 0 <= i < rs.len() ==> redirect_ok(rs[i])
}

/// Encode an ordered sequence of redirects into the parallel sequence of
/// wire entries. If any path holds a terminator byte, the whole encoding
/// fails and no partial sequence is emitted.
pub fn encode_redirects(rs: &[Redirect]) -> (w: Result<Vec<WireRedirect>, ConstructionError>)
    ensures
        redirects_ok(rs@) ==> (w matches Ok(ws) && ws@.len() == rs@.len() && (forall|i: int|
            0 <= i < rs@.len() ==> ws@[i] == wire_of(rs@[i]))),
        !redirects_ok(rs@) ==> w is Err,
{
    let n = rs.len();
    let mut ws: Vec<WireRedirect> = Vec::new();
    let mut i: usize = 0;
    while i < n
        invariant
            i <= n,
            n == rs@.len(),
            ws@.len() == i,
            forall|j: int| 0 <= j < i ==> redirect_ok(rs@[j]) && ws@[j] == wire_of(rs@[j]),
        decreases n - i,
    {
        match encode_redirect(&rs[i]) {
            Ok(e) => ws.push(e),
            Err(e) => {
                return Err(e);
            },
        }
        i = i + 1;
    }
    assert forall|j: int| 0 <= j < rs@.len() implies redirect_ok(rs@[j]) by {
        assert(ws@[j] == wire_of(rs@[j]));
    }
    Ok(ws)
}

} // verus!
