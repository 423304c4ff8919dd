//! Trimming, decimal rendering and the name registry.

use chat_core::numfmt::u64_to_dec;
use chat_core::registry::NameRegistry;
use chat_core::room_name;
use chat_core::text::trim_text;

#[test]
fn trim_removes_leading_and_trailing_blanks() {
    assert_eq!(trim_text("  Alice \t\n"), "Alice");
    assert_eq!(trim_text("Bob"), "Bob");
    assert_eq!(trim_text(" two words  "), "two words");
    assert_eq!(trim_text("inner\tblank stays"), "inner\tblank stays");
}

#[test]
fn trim_of_blank_text_is_empty() {
    assert_eq!(trim_text(""), "");
    assert_eq!(trim_text("   "), "");
    assert_eq!(trim_text(" \t\r\n"), "");
}

#[test]
fn decimal_rendering_is_exact() {
    assert_eq!(u64_to_dec(0), "0");
    assert_eq!(u64_to_dec(7), "7");
    assert_eq!(u64_to_dec(10), "10");
    assert_eq!(u64_to_dec(305), "305");
    assert_eq!(u64_to_dec(u64::MAX), "18446744073709551615");
}

#[test]
fn registry_registers_looks_up_and_unregisters() {
    let mut reg = NameRegistry::new();
    assert!(reg.lookup(1).is_none());
    assert!(!reg.contains(1));
    reg.register(1, "Ann".to_string());
    assert!(reg.contains(1));
    assert_eq!(reg.lookup(1).as_deref(), Some("Ann"));
    assert!(reg.lookup(2).is_none());
    reg.unregister(1);
    assert!(!reg.contains(1));
    assert!(reg.lookup(1).is_none());
}

#[test]
fn the_fixed_room_is_main() {
    assert_eq!(room_name(), "main");
}
