//! Classification of native unwinds at a host boundary.
//!
//! The host signals its own exceptions by a non-local jump, not by a return
//! value, and its stack frames know nothing of native unwinding.  A host
//! exception that must traverse native frames therefore rides inside one
//! native panic, wrapped in a [`PanicPayload::Carrier`]; at every point
//! where the host calls directly into native code, the boundary catches the
//! unwind and calls [`try_rethrow`] on the payload before control could
//! fall back into the host.  A carrier is turned back into the host's own
//! jump — the resume primitive, which never returns — and any other payload
//! is handed back unchanged so the genuine native panic keeps unwinding.

use vstd::prelude::*;

use crate::context::Context;
use crate::host::HostState;

verus! {

/// A native panic payload as a boundary sees it: either the carrier of a
/// pending host exception, or an ordinary native payload.
#[derive(Clone, PartialEq, Eq, Debug)]
pub enum PanicPayload {
    /// A pending host exception, tagged with the numeric code the host's
    /// exception machinery understands.  It exists only to traverse native
    /// frames and is consumed, never observed again, the instant a boundary
    /// intercepts it.
    Carrier {
        /// The host's exception code.
        code: i32,
    },
    /// An ordinary native panic message, no business of the host's.
    Message {
        /// The panic message.
        text: String,
    },
}

/// The mathematical value of a panic payload.
pub enum PayloadModel {
    /// A carrier of the host exception with this code.
    Carrier {
        /// The host's exception code.
        code: i32,
    },
    /// An ordinary native panic message, as its characters.
    Message {
        /// The characters of the message.
        text: Seq<char>,
    },
}

impl View for PanicPayload {
    type V = PayloadModel;

    open spec fn view(&self) -> PayloadModel {
        match self {
            PanicPayload::Carrier { code } => PayloadModel::Carrier { code: *code },
            PanicPayload::Message { text } => PayloadModel::Message { text: text@ },
        }
    }
}

/// The payload a native panic must carry so that the boundary recognizes it
/// as the host exception with code `code` and resumes it there, instead of
/// letting it unwind into the host as an ordinary panic.
pub fn carrier(code: i32) -> (p: PanicPayload)
    ensures
        p@ == (PayloadModel::Carrier { code }),
{
    PanicPayload::Carrier { code }
}

/// Routes one caught panic payload at a host boundary.
///
/// If `err` is a [`PanicPayload::Carrier`], the carrier is discarded and
/// the host's resume-exception primitive is invoked with the embedded code;
/// the primitive performs a non-local jump into the host's exception
/// machinery and never returns, so the call frame runs no further native
/// code — here, `None` comes back and [`HostState::resumed`] records the
/// code, which is why a boundary may be entered only while no resumption is
/// recorded yet.
///
/// Any other payload comes back unchanged, as `Some`, so the caller can
/// re-panic with it and the original native panic keeps its identity.
pub fn try_rethrow<C: Context>(perl: C, host: &mut HostState, err: PanicPayload) -> (r: Option<
    PanicPayload,
>)
    requires
        old(host).resumed is None,
    ensures
        match err@ {
            PayloadModel::Carrier { code } => {
                &&& r is None
                &&& final(host).resumed == Some(code)
            },
            PayloadModel::Message { .. } => {
                &&& (r matches Some(p) && p@ == err@)
                &&& final(host).resumed == old(host).resumed
            },
        },
        final(host).symbols_model() == old(host).symbols_model(),
        final(host).returns_model() == old(host).returns_model(),
{
    match err {
        PanicPayload::Carrier { code } => {
            host.resumed = Some(code);
            None
        },
        other => Some(other),
    }
}

} // verus!
