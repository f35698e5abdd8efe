//! Binding named native functions into the host's namespace.
//!
//! Each callable is registered under a namespace-qualified name such as
//! `Pkg::name`, together with the address of its native entry point and a
//! tag naming the source it came from.  A module's load-time bootstrap
//! registers every entry of its table in order and then commits the single
//! integer `1` as its return value, which is the host's convention for a
//! successful load.

use vstd::prelude::*;

use crate::context::Context;
use crate::host::HostState;
use crate::stack::{StackAdapter, StackDescriptor, ValueModel};
use vstd::string::StringExecFns;

verus! {

/// One entry of a module's extension table: a qualified name, the address
/// of the native function registered under it, and a source tag.  Once
/// registered, the entry is owned by the host's symbol table; this layer
/// keeps no further responsibility for it.
#[derive(Clone, PartialEq, Eq, Debug)]
pub struct Entry {
    /// The namespace-qualified name, `"<Namespace>::<name>"`.
    pub name: String,
    /// The address of the native entry point, carried as a plain value.
    pub func: usize,
    /// A tag naming the source the function came from.
    pub tag: String,
}

/// The mathematical value of one symbol-table entry.
pub struct EntryModel {
    /// The characters of the qualified name.
    pub name: Seq<char>,
    /// The native entry point's address.
    pub func: usize,
    /// The characters of the source tag.
    pub tag: Seq<char>,
}

impl View for Entry {
    type V = EntryModel;

    open spec fn view(&self) -> EntryModel {
        EntryModel { name: self.name@, func: self.func, tag: self.tag@ }
    }
}

/// The models of a run of entries, in table order.
pub open spec fn entries_model(entries: Seq<Entry>) -> Seq<EntryModel> {
    entries.map_values(|e: Entry| e@)
}

/// The namespace-qualified name `"<package>::<name>"` under which a
/// function of `package` is registered.
pub fn qualify(package: &str, name: &str) -> (q: String)
    ensures
        q@ == package@ + "::"@ + name@,
{
    let mut q: String = package.to_owned();
    q.append("::");
    q.append(name);
    q
}

/// Binds one callable into the host's namespace under `name`.
///
/// The binding is appended to the host's symbol table as the host's own
/// registration primitive would record it.  Registering a name twice
/// appends twice: what a repeated name means is the host's redefinition
/// policy, not arbitrated here.
pub fn register<C: Context>(perl: C, host: &mut HostState, name: &str, func: usize, tag: &str)
    ensures
        final(host).symbols_model() == old(host).symbols_model().push(
            (EntryModel { name: name@, func, tag: tag@ }),
        ),
        final(host).returns_model() == old(host).returns_model(),
        final(host).resumed == old(host).resumed,
{
    let entry = Entry { name: name.to_owned(), func, tag: tag.to_owned() };
    host.symbols.push(entry);
    proof {
        assert(host.symbols_model() =~= old(host).symbols_model().push(
            EntryModel { name: name@, func, tag: tag@ },
        ));
    }
}

/// Registers every entry of a module's extension table, in table order,
/// then commits the single integer `1` — the host's marker for a
/// successful module load — as the bootstrap routine's return value.
///
/// Returns the written-back frame bookkeeping, whose item count now says
/// one value stands on the frame.
pub fn bootstrap<C: Context>(
    perl: C,
    host: &mut HostState,
    entries: &Vec<Entry>,
    desc: StackDescriptor,
) -> (d: StackDescriptor)
    ensures
        final(host).symbols_model() == old(host).symbols_model() + entries_model(entries@),
        final(host).returns_model() == Some(seq![ValueModel::Int(1)]),
        final(host).resumed == old(host).resumed,
        d.stack == desc.stack,
        d.mark == desc.mark,
        d.arg_base == desc.arg_base,
        d.count == 1,
{
    let n: usize = entries.len();
    proof {
        assert(entries_model(entries@.subrange(0, 0)) =~= Seq::<EntryModel>::empty());
        assert(host.symbols_model() + entries_model(entries@.subrange(0, 0))
            =~= host.symbols_model());
    }
    for i in 0..n
        invariant
            n == entries@.len(),
            host.symbols_model() == old(host).symbols_model() + entries_model(
                entries@.subrange(0, i as int),
            ),
            host.returns_model() == old(host).returns_model(),
            host.resumed == old(host).resumed,
    {
        let e = &entries[i];
        register(perl, host, e.name.as_str(), e.func, e.tag.as_str());
        proof {
            assert(entries@.subrange(0, i + 1) =~= entries@.subrange(0, i as int).push(
                entries@[i as int],
            ));
            assert(host.symbols_model() =~= old(host).symbols_model() + entries_model(
                entries@.subrange(0, i + 1),
            ));
        }
    }
    proof {
        assert(entries@.subrange(0, n as int) =~= entries@);
    }
    let mut adapter = StackAdapter::init(perl, desc);
    adapter.prepush();
    adapter.push_integer(1);
    adapter.putback(host);
    proof {
        assert(Seq::<ValueModel>::empty().push(ValueModel::Int(1)) =~= seq![ValueModel::Int(1)]);
    }
    adapter.descriptor()
}

/// What a name lookup in the host's symbol table finds: the entry point
/// registered most recently under `name`, reflecting a host whose
/// redefinition policy lets a later registration shadow an earlier one.
pub open spec fn lookup_model(symbols: Seq<EntryModel>, name: Seq<char>) -> Option<usize>
    decreases symbols.len(),
{
    if symbols.len() == 0 {
        None
    } else if symbols.last().name == name {
        Some(symbols.last().func)
    } else {
        lookup_model(symbols.drop_last(), name)
    }
}

/// Finds the native entry point most recently registered under `name`, if
/// any registration used that name.
pub fn lookup(host: &HostState, name: &String) -> (r: Option<usize>)
    ensures
        r == lookup_model(host.symbols_model(), name@),
{
    let n: usize = host.symbols.len();
    proof {
        assert(host.symbols_model().subrange(0, n as int) =~= host.symbols_model());
    }
    let mut i: usize = n;
    while i > 0
        invariant
            i <= n,
            n == host.symbols@.len(),
            lookup_model(host.symbols_model(), name@) == lookup_model(
                host.symbols_model().subrange(0, i as int),
                name@,
            ),
        decreases i,
    {
        i = i - 1;
        if host.symbols[i].name == *name {
            proof {
                let prefix = host.symbols_model().subrange(0, i + 1);
                assert(prefix.last() == host.symbols_model()[i as int]);
            }
            return Some(host.symbols[i].func);
        }
        proof {
            let prefix = host.symbols_model().subrange(0, i + 1);
            assert(prefix.drop_last() =~= host.symbols_model().subrange(0, i as int));
        }
    }
    proof {
        assert(host.symbols_model().subrange(0, 0) =~= Seq::<EntryModel>::empty());
    }
    None
}

} // verus!
