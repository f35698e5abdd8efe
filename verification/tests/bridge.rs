use perl_sys::bridge::{carrier, PanicPayload};
use perl_sys::context::{Context, ErasedContext, ThreadedContext};
use perl_sys::host::HostState;
use perl_sys::try_rethrow;

#[test]
fn carrier_payload_triggers_resumption_with_its_code() {
    let ctx = ThreadedContext::make_context(0xbeef);
    let mut host = HostState::new();
    let r = try_rethrow(ctx, &mut host, PanicPayload::Carrier { code: 7 });
    assert_eq!(r, None);
    assert_eq!(host.resumed, Some(7));
}

#[test]
fn plain_payload_passes_through_unchanged() {
    let ctx = ErasedContext::make_context(0);
    let mut host = HostState::new();
    let payload = PanicPayload::Message {
        text: String::from("attempt to divide by zero"),
    };
    let r = try_rethrow(ctx, &mut host, payload.clone());
    assert_eq!(r, Some(payload));
    assert_eq!(host.resumed, None);
    assert_eq!(host.returns, None);
}

#[test]
fn carrier_builds_the_tagged_payload() {
    assert_eq!(carrier(-9), PanicPayload::Carrier { code: -9 });
}

#[test]
fn resumption_does_not_touch_the_symbol_table() {
    let ctx = ErasedContext::make_context(0);
    let mut host = HostState::new();
    perl_sys::registry::register(ctx, &mut host, "Foo::id", 0x40, "native");
    let r = try_rethrow(ctx, &mut host, carrier(3));
    assert_eq!(r, None);
    assert_eq!(host.resumed, Some(3));
    assert_eq!(host.symbols.len(), 1);
    assert_eq!(host.symbols[0].name, "Foo::id");
}
