use perl_sys::context::{Context, ErasedContext, ThreadedContext};
use perl_sys::host::HostState;
use perl_sys::registry::{bootstrap, lookup, qualify, register, Entry};
use perl_sys::stack::{StackDescriptor, StackValue};

#[test]
fn qualify_joins_namespace_and_name() {
    assert_eq!(qualify("Foo", "add"), "Foo::add");
    assert_eq!(qualify("My::Deep::Pkg", "f"), "My::Deep::Pkg::f");
    assert_eq!(qualify("", ""), "::");
}

#[test]
fn register_appends_to_the_symbol_table() {
    let ctx = ThreadedContext::make_context(0x8);
    let mut host = HostState::new();
    register(ctx, &mut host, "Foo::add", 0x1000, "native");
    register(ctx, &mut host, "Foo::sub", 0x2000, "native");
    assert_eq!(host.symbols.len(), 2);
    assert_eq!(host.symbols[0].name, "Foo::add");
    assert_eq!(host.symbols[0].func, 0x1000);
    assert_eq!(host.symbols[1].name, "Foo::sub");
    assert_eq!(host.symbols[1].tag, "native");
}

#[test]
fn lookup_finds_the_latest_registration() {
    let ctx = ErasedContext::make_context(0);
    let mut host = HostState::new();
    register(ctx, &mut host, "Foo::add", 0x1000, "native");
    register(ctx, &mut host, "Foo::add", 0x3000, "native");
    assert_eq!(lookup(&host, &String::from("Foo::add")), Some(0x3000));
    assert_eq!(lookup(&host, &String::from("Foo::gone")), None);
}

#[test]
fn bootstrap_registers_all_and_commits_one() {
    let ctx = ErasedContext::make_context(0);
    let mut host = HostState::new();
    let entries = vec![
        Entry {
            name: qualify("Foo", "add"),
            func: 0x1000,
            tag: String::from("native"),
        },
        Entry {
            name: qualify("Foo", "sub"),
            func: 0x2000,
            tag: String::from("native"),
        },
    ];
    let desc = StackDescriptor {
        stack: 32,
        mark: 40,
        arg_base: 0,
        count: 2,
    };
    let written = bootstrap(ctx, &mut host, &entries, desc);
    assert_eq!(lookup(&host, &String::from("Foo::add")), Some(0x1000));
    assert_eq!(lookup(&host, &String::from("Foo::sub")), Some(0x2000));
    assert_eq!(host.returns, Some(vec![StackValue::Integer(1)]));
    assert_eq!(written.count, 1);
    assert_eq!(host.symbols[0].name, "Foo::add");
    assert_eq!(host.symbols[1].name, "Foo::sub");
}

#[test]
fn bootstrap_of_an_empty_table_still_commits_one() {
    let ctx = ThreadedContext::make_context(0x77);
    let mut host = HostState::new();
    let desc = StackDescriptor {
        stack: 0,
        mark: 0,
        arg_base: 0,
        count: 0,
    };
    let written = bootstrap(ctx, &mut host, &Vec::new(), desc);
    assert_eq!(host.symbols.len(), 0);
    assert_eq!(host.returns, Some(vec![StackValue::Integer(1)]));
    assert_eq!(written.count, 1);
}

#[test]
fn contexts_carry_what_their_build_passes() {
    let threaded = ThreadedContext::make_context(0x5150);
    assert_eq!(threaded.raw_value(), Some(0x5150));
    let erased = ErasedContext::make_context(0x5150);
    assert_eq!(erased.raw_value(), None);
}
