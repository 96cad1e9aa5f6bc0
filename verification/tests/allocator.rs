use evalexpr_rhai::cstring_image;
use evalexpr_rhai::init_memory_allocation;
use evalexpr_rhai::Allocator;
use evalexpr_rhai::AllocatorPair;

#[test]
fn first_registration_wins() {
    let mut registry = Allocator::new();
    init_memory_allocation(&mut registry, 1, 2);
    init_memory_allocation(&mut registry, 3, 4);
    assert_eq!(registry.pair, Some(AllocatorPair { malloc: 1, free: 2 }));
    init_memory_allocation(&mut registry, 5, 6);
    assert_eq!(registry.pair, Some(AllocatorPair { malloc: 1, free: 2 }));
}

#[test]
fn registry_starts_unregistered() {
    let registry = Allocator::new();
    assert_eq!(registry.pair, None);
}

#[test]
fn cstring_image_appends_terminator() {
    assert_eq!(cstring_image("abc"), Some(vec![97, 98, 99, 0]));
    assert_eq!(cstring_image(""), Some(vec![0]));
}

#[test]
fn cstring_image_rejects_interior_zero() {
    assert_eq!(cstring_image("a\0b"), None);
}

#[test]
fn cstring_image_keeps_utf8_bytes() {
    assert_eq!(cstring_image("é"), Some(vec![0xc3, 0xa9, 0]));
}
