//! The optional per-instance context handle.
//!
//! Some builds of the host runtime keep one interpreter instance per thread
//! and pass an instance pointer as a hidden first argument on every call;
//! other builds keep a single global instance and pass nothing.  Which of
//! the two holds is decided when the host is configured, never at run time,
//! so the handle is modelled as one of two types — one that carries the
//! pointer value and one that is empty — and code that must work under
//! either build is generic over [`Context`].  Call sites are then uniform
//! in both variants, and no function branches on whether the handle is
//! present.

use vstd::prelude::*;

verus! {

/// A build variant's representation of the host's hidden context argument.
///
/// The handle is borrowed from the host for the duration of one call and
/// never outlives it; this layer neither creates nor destroys instances.
pub trait Context: Sized + Copy {
    /// What a handle built from the raw pointer value `raw` carries:
    /// `Some(raw)` in the variant that threads the pointer through,
    /// `None` in the variant that erases it.
    spec fn spec_carried(raw: usize) -> Option<usize>;

    /// The pointer value this handle carries, if the build variant keeps one.
    spec fn carried(self) -> Option<usize>;

    /// Wraps the instance pointer the host passed for the current call.
    fn make_context(raw: usize) -> (c: Self)
        ensures
            c.carried() == Self::spec_carried(raw),
    ;

    /// The pointer value to hand back to the host on an outgoing call:
    /// the carried value where the build threads one through, nothing
    /// where it is erased.
    fn raw_value(&self) -> (r: Option<usize>)
        ensures
            r == self.carried(),
    ;
}

/// The handle of builds where the host threads an instance pointer through
/// every call.  It passes the pointer value along unchanged.
#[derive(Clone, Copy, PartialEq, Eq, Structural, Debug)]
pub struct ThreadedContext {
    raw: usize,
}

/// The handle of builds where the host keeps a single global instance.
/// It is empty and costs nothing to pass.
#[derive(Clone, Copy, PartialEq, Eq, Structural, Debug)]
pub struct ErasedContext;

impl Context for ThreadedContext {
    open spec fn spec_carried(raw: usize) -> Option<usize> {
        Some(raw)
    }

    closed spec fn carried(self) -> Option<usize> {
        Some(self.raw)
    }

    fn make_context(raw: usize) -> (c: Self) {
        ThreadedContext { raw }
    }

    fn raw_value(&self) -> (r: Option<usize>) {
        Some(self.raw)
    }
}

impl Context for ErasedContext {
    open spec fn spec_carried(raw: usize) -> Option<usize> {
        None
    }

    closed spec fn carried(self) -> Option<usize> {
        None
    }

    fn make_context(raw: usize) -> (c: Self) {
        ErasedContext
    }

    fn raw_value(&self) -> (r: Option<usize>) {
        None
    }
}

} // verus!
