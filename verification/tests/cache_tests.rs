use appkit_bridge::cache::ClassMap;
use appkit_bridge::shared::SharedClassMap;

#[test]
fn empty_cache_misses() {
    let m = ClassMap::new();
    assert_eq!(m.load("NSView", None), None);
    assert_eq!(m.load("NSView", Some("NSResponder")), None);
}

#[test]
fn store_then_load() {
    let mut m = ClassMap::new();
    m.store("MyController", Some("NSViewController"), 0x1000);
    assert_eq!(m.load("MyController", Some("NSViewController")), Some(0x1000));
}

#[test]
fn store_overwrites_same_key() {
    let mut m = ClassMap::new();
    m.store("MyController", Some("NSViewController"), 0x1000);
    m.store("MyController", Some("NSViewController"), 0x2000);
    assert_eq!(m.load("MyController", Some("NSViewController")), Some(0x2000));
}

#[test]
fn subclass_and_plain_keys_are_independent() {
    // Registering ("B", Some("A")) and caching a plain lookup of ("B", None)
    // are two independent entries; each lookup sees only its own.
    let mut m = ClassMap::new();
    m.store("B", Some("A"), 0x1111);
    m.store("B", None, 0x2222);
    assert_eq!(m.load("B", Some("A")), Some(0x1111));
    assert_eq!(m.load("B", None), Some(0x2222));
    m.store("B", None, 0x3333);
    assert_eq!(m.load("B", Some("A")), Some(0x1111));
}

#[test]
fn same_name_different_superclasses_are_distinct() {
    let mut m = ClassMap::new();
    m.store("B", Some("A"), 1);
    m.store("B", Some("C"), 2);
    assert_eq!(m.load("B", Some("A")), Some(1));
    assert_eq!(m.load("B", Some("C")), Some(2));
}

#[test]
fn load_unregistered_absent() {
    // A plain lookup of a class that neither the cache nor the runtime knows
    // returns absent: the runtime's reply to the fallback query is nothing.
    let mut m = ClassMap::new();
    assert_eq!(m.load("Unregistered", None), None);
    assert_eq!(m.adopt_runtime_class("Unregistered", None, None), None);
    assert_eq!(m.load("Unregistered", None), None);
}

#[test]
fn adopt_runtime_class_records_confirmed_class() {
    let mut m = ClassMap::new();
    assert_eq!(m.load("NSViewController", None), None);
    let adopted = m.adopt_runtime_class("NSViewController", None, Some(0xAB));
    assert_eq!(adopted, Some(0xAB));
    assert_eq!(m.load("NSViewController", None), Some(0xAB));
}

#[test]
fn shared_cache_load_and_store() {
    let m = SharedClassMap::new();
    assert_eq!(m.load("NSView", None), None);
    m.store("NSView", None, 0x40);
    assert_eq!(m.load("NSView", None), Some(0x40));
    assert_eq!(m.adopt_runtime_class("NSButton", None, Some(0x50)), Some(0x50));
    assert_eq!(m.load("NSButton", None), Some(0x50));
    assert_eq!(m.adopt_runtime_class("Missing", None, None), None);
    assert_eq!(m.load("Missing", None), None);
}
