use elfutils::dwarf::{Dwarf, DwarfKind};
use elfutils::dwelf::{debugaltlink_result, debuglink_result};
use elfutils::dwfl::Dwfl;
use elfutils::elf::{Elf, ElfKind};
use elfutils::error::{Error, ErrorKind, Library};

#[test]
fn owned_session_is_released_once() {
    let mut dw = Dwarf::new(0x2000, DwarfKind::File);
    assert_eq!(dw.as_ptr(), 0x2000);
    assert!(dw.release());
    assert!(!dw.release());
    assert_eq!(dw.as_ptr(), 0x2000);
    let mut fd = Dwarf::new(0x2000, DwarfKind::Fd);
    assert!(fd.release());
    let mut from_elf = Dwarf::new(0x2000, DwarfKind::Elf);
    assert!(from_elf.release());
}

#[test]
fn raw_session_is_never_released() {
    let mut dw = Dwarf::from_raw(0x2000);
    assert_eq!(dw.kind(), DwarfKind::Raw);
    assert!(!dw.release());
}

#[test]
fn elf_handles_release_by_kind() {
    let mut e = Elf::new(0x3000, ElfKind::Bytes);
    assert_eq!(e.kind(), ElfKind::Bytes);
    assert!(e.release());
    assert!(!e.release());
    let mut r = Elf::from_raw(0x3000);
    assert_eq!(r.as_ptr(), 0x3000);
    assert!(!r.release());
}

#[test]
fn dwfl_dwarfs_walk() {
    let dwfl = Dwfl::new(0x4000);
    assert_eq!(dwfl.as_ptr(), 0x4000);
    let mut it = dwfl.dwarfs();
    let d = it
        .next(|off| {
            assert_eq!(off, 0);
            (Ok(1), Some(0x5000))
        })
        .unwrap()
        .unwrap();
    assert_eq!(d.as_ptr(), 0x5000);
    assert_eq!(d.kind(), DwarfKind::Raw);
    assert_eq!(it.offset, 1);
    let e = it.next(|_| (Err(Error::native(Library::Dwfl, 3)), None));
    assert_eq!(e.unwrap().unwrap_err().code(), Some(3));
    assert_eq!(it.offset, 1);
    assert!(it
        .next(|off| {
            assert_eq!(off, 1);
            (Ok(0), None)
        })
        .is_none());
    assert_eq!(it.offset, 0);
}

#[test]
fn debuglink_outcomes() {
    assert_eq!(debuglink_result(Some(("a.debug", 7u32)), || 0).unwrap(), Some(("a.debug", 7)));
    assert_eq!(debuglink_result::<u32, _>(None, || 0).unwrap(), None);
    let e = debuglink_result::<u32, _>(None, || 12).unwrap_err();
    assert!(matches!(e.kind, ErrorKind::Native(Library::Elf, 12)));
}

#[test]
fn debugaltlink_outcomes() {
    let last = || Error::native(Library::Dw, 21);
    assert_eq!(debugaltlink_result(20, |n| n * 2, last).unwrap(), Some(40));
    assert_eq!(debugaltlink_result(0, |n| n * 2, last).unwrap(), None);
    assert_eq!(debugaltlink_result(-1, |n| n * 2, last).unwrap_err().code(), Some(21));
}
