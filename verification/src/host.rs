//! What the host runtime observes of one native call.
//!
//! The host itself is a foreign program reached over a C calling
//! convention; nothing of it can be inspected from here.  What this layer
//! decides, though, is visible to the host through exactly three channels:
//! the symbol table it registers functions into, the return list a call
//! commits onto the host's stack, and the resume primitive a boundary
//! invokes to hand a pending host exception back.  [`HostState`] records
//! those three channels as plain data, so every contract in this crate can
//! say precisely what the host will observe; the foreign-call glue outside
//! the library performs the same effects against the real host.

use vstd::prelude::*;

use crate::registry::{entries_model, Entry, EntryModel};
use crate::stack::{values_model, StackValue, ValueModel};

verus! {

/// The host-visible effects of one native call, as plain data.
pub struct HostState {
    /// The host's symbol table: every registration, in the order it was
    /// made.  The host's own redefinition policy decides what a repeated
    /// name means; this layer records both registrations and arbitrates
    /// nothing.
    pub symbols: Vec<Entry>,
    /// The return list committed onto the host's stack, `None` until a
    /// commit has happened.
    pub returns: Option<Vec<StackValue>>,
    /// The code handed to the host's resume-exception primitive, `None`
    /// while no resumption has been triggered.  The real primitive never
    /// returns; once this is set, no further native code of the call frame
    /// runs.
    pub resumed: Option<i32>,
}

impl HostState {
    /// The models of the registered entries, in registration order.
    pub open spec fn symbols_model(self) -> Seq<EntryModel> {
        entries_model(self.symbols@)
    }

    /// The model of the committed return list, if one was committed.
    pub open spec fn returns_model(self) -> Option<Seq<ValueModel>> {
        match self.returns {
            Some(vs) => Some(values_model(vs@)),
            None => None,
        }
    }

    /// A host that has observed nothing yet.
    pub fn new() -> (h: HostState)
        ensures
            h.symbols_model() == Seq::<EntryModel>::empty(),
            h.returns_model() is None,
            h.resumed is None,
    {
        HostState { symbols: Vec::new(), returns: None, resumed: None }
    }
}

} // verus!
