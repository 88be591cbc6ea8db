use elfutils::attr::Attribute;
use elfutils::die::Die;
use std::mem::{align_of, size_of};

// The native cursor records: `Dwarf_Die` holds three pointers and a `long`,
// `Dwarf_Attribute` two `unsigned int`s and two pointers; a pointer has the
// size and alignment of `uintptr_t`.
fn native_die_size() -> usize {
    3 * size_of::<libc::uintptr_t>() + size_of::<libc::c_long>()
}

fn native_attr_size() -> usize {
    2 * size_of::<libc::c_uint>() + 2 * size_of::<libc::uintptr_t>()
}

#[test]
fn die_size() {
    assert_eq!(size_of::<Die<'static>>(), native_die_size());
}

#[test]
fn die_align() {
    assert_eq!(align_of::<Die<'static>>(), align_of::<libc::uintptr_t>());
    assert_eq!(align_of::<Die<'static>>(), align_of::<libc::c_long>());
}

#[test]
fn attr_size() {
    assert_eq!(size_of::<Attribute<'static>>(), native_attr_size());
}

#[test]
fn attr_align() {
    assert_eq!(align_of::<Attribute<'static>>(), align_of::<libc::uintptr_t>());
}
