use std::collections::hash_map::DefaultHasher;
use std::collections::HashSet;
use std::hash::{Hash, Hasher};

use wlroots::event::Event;
use wlroots::handle::Handle;
use wlroots::handler::Handler;
use wlroots::liveliness::Liveliness;
use wlroots::native::NativeSurface;
use wlroots::registry::Registry;

struct Mute;

impl Handler for Mute {
    type SurfaceHandler = ();
}

fn hash_of(handle: &Handle) -> u64 {
    let mut hasher = DefaultHasher::new();
    handle.hash(&mut hasher);
    hasher.finish()
}

/// Three handles: two of different lineages at the address 0x10, and one at
/// the address 0x20.
fn three_handles() -> (Handle, Handle, Handle) {
    let mut registry: Registry<Mute, ()> = Registry::new();
    let a = registry.wrap(0x10, NativeSurface::default()).unwrap().weak_reference();
    let c = registry.wrap(0x20, NativeSurface::default()).unwrap().weak_reference();
    registry.dispatch(0x10, Event::Destroy);
    let b = registry.wrap(0x10, NativeSurface::default()).unwrap().weak_reference();
    assert_ne!(a.token(), b.token());
    (a, b, c)
}

#[test]
fn a_new_token_is_alive() {
    let mut table = Liveliness::new();
    let strong = table.new_token();
    let weak = strong.downgrade();
    assert_eq!(weak.position(), 0);
    assert!(table.is_alive(weak));
}

#[test]
fn tokens_are_numbered_in_order_and_never_reused() {
    let mut table = Liveliness::new();
    let first = table.new_token();
    let second = table.new_token();
    assert_eq!(first.downgrade().position(), 0);
    assert_eq!(second.downgrade().position(), 1);
    table.kill(&first);
    let third = table.new_token();
    assert_eq!(third.downgrade().position(), 2);
    assert!(!table.is_alive(first.downgrade()));
    assert!(table.is_alive(second.downgrade()));
    assert!(table.is_alive(third.downgrade()));
}

#[test]
fn a_killed_token_stays_dead() {
    let mut table = Liveliness::new();
    let strong = table.new_token();
    let weak = strong.downgrade();
    let copies = vec![weak, strong.downgrade(), weak];
    table.kill(&strong);
    for copy in &copies {
        assert!(!table.is_alive(*copy));
    }
    table.kill(&strong);
    let other = table.new_token();
    table.kill(&other);
    for copy in &copies {
        assert!(!table.is_alive(*copy));
    }
}

#[test]
fn a_token_outside_the_table_is_not_alive() {
    let mut large = Liveliness::new();
    let zero = large.new_token().downgrade();
    let one = large.new_token().downgrade();
    let mut table = Liveliness::new();
    assert!(!table.is_alive(zero));
    let _kept = table.new_token();
    assert!(table.is_alive(zero));
    assert!(!table.is_alive(one));
}

#[test]
fn a_token_of_another_table_kills_nothing_beyond_its_position() {
    let mut small = Liveliness::new();
    let mut large = Liveliness::new();
    let _a = large.new_token();
    let _b = large.new_token();
    let third = large.new_token();
    let kept = small.new_token();
    small.kill(&third);
    assert!(small.is_alive(kept.downgrade()));
    assert!(large.is_alive(third.downgrade()));
}

#[test]
fn handles_are_equal_by_address_alone() {
    let (a, b, c) = three_handles();
    assert_eq!(a, b);
    assert_ne!(a, c);
    assert_eq!(a.as_ptr(), 0x10);
    assert_eq!(b.as_ptr(), 0x10);
    assert_eq!(c.as_ptr(), 0x20);
}

#[test]
fn equal_handles_hash_alike() {
    let (a, b, c) = three_handles();
    assert_eq!(hash_of(&a), hash_of(&b));
    assert_ne!(hash_of(&a), hash_of(&c));
    let mut plain = DefaultHasher::new();
    0x10usize.hash(&mut plain);
    assert_eq!(hash_of(&a), plain.finish());
}

#[test]
fn handles_can_be_kept_in_a_set() {
    let (a, b, c) = three_handles();
    let mut set = HashSet::new();
    assert!(set.insert(a));
    assert!(!set.insert(b));
    assert!(set.insert(c));
    assert_eq!(set.len(), 2);
    assert!(set.contains(&b));
}
