//! The per-call argument/return stack protocol.
//!
//! When the host invokes a native function it hands over a call-control
//! block describing the host's value stack: where the stack memory is,
//! where the current mark sits, at which index this call's arguments begin
//! and how many items are on the frame.  The native function answers by
//! pushing return values and committing them once; the committed values, in
//! push order, are the call's return list the moment control goes back to
//! the host.
//!
//! [`StackAdapter`] is the write cursor over one such frame.  It moves
//! through the states `Initialized`, `Prepushed` and `Committed` in that
//! order; pushing before [`StackAdapter::prepush`] or touching the adapter
//! after [`StackAdapter::putback`] is a contract violation that the
//! preconditions rule out, mirroring the host's own one-shot stack
//! discipline.

use vstd::prelude::*;

use crate::context::Context;
use crate::host::HostState;

verus! {

/// One value on the host's call stack, as native code sees it.
///
/// A string value carries its exact bytes: the host delimits strings by
/// length, never by a terminator, so embedded zero bytes are ordinary data.
#[derive(Clone, PartialEq, Eq, Debug)]
pub enum StackValue {
    /// The host's native integer value.
    Integer(i64),
    /// A length-delimited byte string.
    Bytes(Vec<u8>),
}

/// The mathematical value of one stack item.
pub enum ValueModel {
    /// An integer item.
    Int(i64),
    /// A byte-string item, as the sequence of its bytes.
    Bytes(Seq<u8>),
}

impl View for StackValue {
    type V = ValueModel;

    open spec fn view(&self) -> ValueModel {
        match self {
            StackValue::Integer(v) => ValueModel::Int(*v),
            StackValue::Bytes(b) => ValueModel::Bytes(b@),
        }
    }
}

/// The models of a run of stack items, in stack order.
pub open spec fn values_model(items: Seq<StackValue>) -> Seq<ValueModel> {
    items.map_values(|item: StackValue| item@)
}

/// The host's per-call stack bookkeeping record.
///
/// The four fields mirror the host's native call-frame record: the address
/// of the stack memory, the address of the mark position, the index at
/// which the current call's arguments begin, and the number of items on the
/// frame.  Both addresses are carried as plain values; this layer never
/// dereferences them.  Every field is pointer-sized, so the record's
/// required alignment is a native pointer's alignment under either build
/// variant.
#[derive(Clone, Copy, PartialEq, Eq, Structural, Debug)]
pub struct StackDescriptor {
    /// Address of the host's stack memory.
    pub stack: usize,
    /// Address of the host's mark position.
    pub mark: usize,
    /// Index of the first argument of the current call.
    pub arg_base: usize,
    /// Number of items on the current frame.
    pub count: usize,
}

/// Where the write cursor of a [`StackAdapter`] stands.
#[derive(Clone, Copy, PartialEq, Eq, Structural, Debug)]
pub enum AdapterState {
    /// The bookkeeping of the host's active call frame has been read.
    Initialized,
    /// The cursor's origin is marked; return values may be pushed.
    Prepushed,
    /// The pushed values have been written back; the adapter is spent.
    Committed,
}

/// The mathematical value of a [`StackAdapter`].
pub struct AdapterModel<C> {
    /// The context handle the adapter was initialized with.
    pub ctx: C,
    /// The frame bookkeeping the adapter carries.
    pub desc: StackDescriptor,
    /// Where the write cursor stands.
    pub state: AdapterState,
    /// The values pushed so far, in push order.
    pub pending: Seq<ValueModel>,
}

/// The write cursor over one call frame of the host's value stack.
///
/// An adapter is built at most once per invocation from the frame
/// bookkeeping the host passed in, and committed at most once; the
/// preconditions of its methods enforce the order `init`, `prepush`,
/// pushes, `putback`.
pub struct StackAdapter<C: Context> {
    ctx: C,
    desc: StackDescriptor,
    state: AdapterState,
    pending: Vec<StackValue>,
}

impl<C: Context> View for StackAdapter<C> {
    type V = AdapterModel<C>;

    closed spec fn view(&self) -> AdapterModel<C> {
        AdapterModel {
            ctx: self.ctx,
            desc: self.desc,
            state: self.state,
            pending: values_model(self.pending@),
        }
    }
}

impl<C: Context> StackAdapter<C> {
    /// Reads the bookkeeping of the host's active call frame.  To be called
    /// at most once per invocation, with the descriptor the host's
    /// call-control block holds for that invocation.
    pub fn init(ctx: C, desc: StackDescriptor) -> (a: Self)
        ensures
            a@ == (AdapterModel {
                ctx,
                desc,
                state: AdapterState::Initialized,
                pending: Seq::<ValueModel>::empty(),
            }),
    {
        let a = StackAdapter { ctx, desc, state: AdapterState::Initialized, pending: Vec::new() };
        proof {
            assert(a@.pending =~= Seq::<ValueModel>::empty());
        }
        a
    }

    /// Marks the current top of the frame as the write cursor's origin.
    /// Must precede any push.
    pub fn prepush(&mut self)
        requires
            old(self)@.state == AdapterState::Initialized,
        ensures
            final(self)@ == (AdapterModel { state: AdapterState::Prepushed, ..old(self)@ }),
    {
        self.state = AdapterState::Prepushed;
    }

    /// Appends one integer return value at the cursor.
    pub fn push_integer(&mut self, v: i64)
        requires
            old(self)@.state == AdapterState::Prepushed,
        ensures
            final(self)@ == (AdapterModel {
                pending: old(self)@.pending.push(ValueModel::Int(v)),
                ..old(self)@
            }),
    {
        self.pending.push(StackValue::Integer(v));
        proof {
            assert(self@.pending =~= old(self)@.pending.push(ValueModel::Int(v)));
        }
    }

    /// Appends one byte-string return value at the cursor.  The value is
    /// exactly `bytes`, length included: the host delimits strings by
    /// length, so embedded zero bytes are kept as data.
    pub fn push_string(&mut self, bytes: Vec<u8>)
        requires
            old(self)@.state == AdapterState::Prepushed,
        ensures
            final(self)@ == (AdapterModel {
                pending: old(self)@.pending.push(ValueModel::Bytes(bytes@)),
                ..old(self)@
            }),
    {
        let ghost b = bytes@;
        self.pending.push(StackValue::Bytes(bytes));
        proof {
            assert(self@.pending =~= old(self)@.pending.push(ValueModel::Bytes(b)));
        }
    }

    /// Commits the pushed values: writes the cursor position and item count
    /// back into the bookkeeping the host reads, making every pushed value,
    /// in push order, the call's return list.  The adapter is spent
    /// afterwards; no precondition of this type accepts it again, and the
    /// committed values now belong to the host.
    pub fn putback(&mut self, host: &mut HostState)
        requires
            old(self)@.state == AdapterState::Prepushed,
        ensures
            final(self)@.state == AdapterState::Committed,
            final(self)@.ctx == old(self)@.ctx,
            final(self)@.pending == Seq::<ValueModel>::empty(),
            final(self)@.desc.stack == old(self)@.desc.stack,
            final(self)@.desc.mark == old(self)@.desc.mark,
            final(self)@.desc.arg_base == old(self)@.desc.arg_base,
            final(self)@.desc.count as nat == old(self)@.pending.len(),
            final(host).returns_model() == Some(old(self)@.pending),
            final(host).symbols_model() == old(host).symbols_model(),
            final(host).resumed == old(host).resumed,
    {
        self.state = AdapterState::Committed;
        self.desc.count = self.pending.len();
        let mut committed: Vec<StackValue> = Vec::new();
        core::mem::swap(&mut committed, &mut self.pending);
        host.returns = Some(committed);
        proof {
            assert(self@.pending =~= Seq::<ValueModel>::empty());
        }
    }

    /// The spent adapter's view of the frame bookkeeping, for handing the
    /// updated fields back to the host's call-control block.
    pub fn descriptor(&self) -> (d: StackDescriptor)
        ensures
            d == self@.desc,
    {
        self.desc
    }

    /// Answers one invocation with `vals`: runs the whole protocol —
    /// initialize, mark the cursor, push every value of `vals` in order,
    /// commit once — so the host-visible return list is exactly `vals`.
    ///
    /// Returns the written-back frame bookkeeping; its item count says how
    /// many values stand on the frame.
    pub fn commit_values(
        ctx: C,
        desc: StackDescriptor,
        vals: Vec<StackValue>,
        host: &mut HostState,
    ) -> (d: StackDescriptor)
        ensures
            final(host).returns_model() == Some(values_model(vals@)),
            final(host).symbols_model() == old(host).symbols_model(),
            final(host).resumed == old(host).resumed,
            d.stack == desc.stack,
            d.mark == desc.mark,
            d.arg_base == desc.arg_base,
            d.count as nat == vals@.len(),
    {
        let ghost orig = vals@;
        let mut rest = vals;
        let mut adapter = StackAdapter::init(ctx, desc);
        adapter.prepush();
        proof {
            assert(adapter@.pending + values_model(rest@) =~= values_model(orig));
        }
        while rest.len() > 0
            invariant
                adapter@.state == AdapterState::Prepushed,
                adapter@.ctx == ctx,
                adapter@.desc == desc,
                adapter@.pending + values_model(rest@) == values_model(orig),
            decreases rest@.len(),
        {
            let ghost pre_pending = adapter@.pending;
            let ghost pre_rest = rest@;
            let v = rest.remove(0);
            let ghost vm = v@;
            match v {
                StackValue::Integer(n) => adapter.push_integer(n),
                StackValue::Bytes(b) => adapter.push_string(b),
            }
            proof {
                assert(rest@ =~= pre_rest.drop_first());
                assert(values_model(pre_rest) =~= seq![vm] + values_model(rest@));
                assert(adapter@.pending + values_model(rest@) =~= pre_pending + values_model(
                    pre_rest,
                ));
            }
        }
        proof {
            assert(values_model(rest@) =~= Seq::<ValueModel>::empty());
            assert(adapter@.pending =~= values_model(orig));
        }
        adapter.putback(host);
        adapter.descriptor()
    }
}

/// Whether [`StackDescriptor`]'s required alignment equals a native
/// pointer's, as the host's call-frame record demands.  The record is the
/// same type under the context-present and the context-absent build
/// variant, so one answer covers both.  Verus assigns the alignment of a
/// struct no value, so the fact is checked at run time rather than proved;
/// the result states exactly the comparison made.
pub fn descriptor_alignment_matches_pointer() -> (r: bool)
    ensures
        r == (vstd::layout::align_of::<StackDescriptor>() == vstd::layout::align_of::<
            &'static usize,
        >()),
{
    core::mem::align_of::<StackDescriptor>() == core::mem::align_of::<&'static usize>()
}

} // verus!
