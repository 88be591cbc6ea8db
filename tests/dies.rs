use elfutils::die::{ChildStep, Die, DW_TAG_INVALID};
use elfutils::error::{Error, Library, Result};

fn last() -> Error {
    Error::native(Library::Dw, 6)
}

fn die(addr: usize) -> Die<'static> {
    Die::from_raw_parts(addr, 0x10, 0, 0)
}

// A parent at 100 whose children lie at 200, 300 and 400.
fn tree_step(kind: ChildStep, at: Die<'static>) -> (Result<i32>, Die<'static>) {
    match (kind, at.addr) {
        (ChildStep::First, 100) => (Ok(0), die(200)),
        (ChildStep::Sibling, 200) => (Ok(0), die(300)),
        (ChildStep::Sibling, 300) => (Ok(0), die(400)),
        (ChildStep::Sibling, 400) => (Ok(1), at),
        _ => panic!("unexpected native step"),
    }
}

// Looks an abbreviation up: every die's abbreviation lies at 0x9000 + addr.
fn lookup(at: Die<'static>) -> (Result<i32>, Die<'static>) {
    (Ok(1), Die::from_raw_parts(at.addr, at.cu, 0x9000 + at.addr, at.padding))
}

fn walk_addrs(parent: &Die<'static>) -> Vec<usize> {
    let mut it = parent.iter_children();
    let mut out = Vec::new();
    while let Some(item) = it.next(tree_step, lookup) {
        out.push(item.unwrap().addr);
    }
    out
}

#[test]
fn tag_sentinel_is_an_error() {
    let r = Die::tag_from(0, last);
    assert_eq!(r.unwrap_err().code(), Some(6));
}

#[test]
fn tag_values_pass_through() {
    assert_eq!(Die::tag_from(0x11, last).unwrap(), 0x11);
    assert_eq!(Die::tag_from(0x4109, last).unwrap(), 0x4109);
    // A tag beyond the signed range is still a tag, not a failure.
    assert_eq!(Die::tag_from(-2, last).unwrap(), 0xffff_fffe);
    assert_ne!(Die::tag_from(1, last).unwrap(), DW_TAG_INVALID);
}

#[test]
fn default_die_is_empty() {
    let d = Die::default();
    assert_eq!((d.addr, d.cu, d.abbrev, d.padding), (0, 0, 0, 0));
    assert!(d.abbrev_pending());
    assert!(!Die::from_raw_parts(1, 2, 3, 0).abbrev_pending());
}

#[test]
fn die_equality_is_by_three_fields() {
    assert!(Die::from_raw_parts(1, 2, 3, 0) == Die::from_raw_parts(1, 2, 3, 9));
    assert!(Die::from_raw_parts(1, 2, 3, 0) != Die::from_raw_parts(1, 2, 4, 0));
    assert!(Die::from_raw_parts(1, 2, 3, 0) != Die::from_raw_parts(5, 2, 3, 0));
}

#[test]
fn reached_maps_codes() {
    assert_eq!(Die::reached(Ok(0), die(7)).unwrap().unwrap().addr, 7);
    assert!(Die::reached(Ok(1), die(7)).unwrap().is_none());
    assert_eq!(Die::reached(Err(last()), die(7)).unwrap_err().code(), Some(6));
}

#[test]
fn children_walk_yields_siblings_in_order() {
    assert_eq!(walk_addrs(&die(100)), vec![200, 300, 400]);
}

#[test]
fn children_walk_restarts_from_parent() {
    let parent = die(100);
    let first = walk_addrs(&parent);
    let second = walk_addrs(&parent);
    assert_eq!(first, second);
}

#[test]
fn finished_children_walk_stays_finished() {
    let parent = die(100);
    let mut it = parent.iter_children();
    while it.next(tree_step, lookup).is_some() {}
    let mut called = false;
    assert!(it
        .next(
            |k, d| {
                called = true;
                tree_step(k, d)
            },
            lookup,
        )
        .is_none());
    assert!(!called);
}

#[test]
fn children_walk_of_leaf_is_empty() {
    let leaf = die(900);
    let mut it = leaf.iter_children();
    assert!(it
        .next(
            |k, d| {
                assert_eq!(k, ChildStep::First);
                (Ok(1), d)
            },
            lookup,
        )
        .is_none());
    assert!(it.finished);
}

#[test]
fn children_walk_error_is_terminal() {
    let parent = die(100);
    let mut it = parent.iter_children();
    assert_eq!(it.next(tree_step, lookup).unwrap().unwrap().addr, 200);
    let item = it.next(
        |k, d| {
            assert_eq!(k, ChildStep::Sibling);
            (Err(last()), d)
        },
        lookup,
    );
    assert_eq!(item.unwrap().unwrap_err().code(), Some(6));
    assert!(it.next(tree_step, lookup).is_none());
}

#[test]
fn ranges_walk_yields_intervals() {
    let d = die(100);
    let mut it = d.ranges();
    let r = it.next(|_, off, base| {
        assert_eq!((off, base), (0, 0));
        (Ok(8), 0x400000, 0x401000, 0x401050)
    });
    assert_eq!(r.unwrap().unwrap(), 0x401000..0x401050);
    assert_eq!((it.offset, it.base), (8, 0x400000));
    let r = it.next(|_, off, base| {
        assert_eq!((off, base), (8, 0x400000));
        (Ok(16), 0x400000, 0x402000, 0x402010)
    });
    assert_eq!(r.unwrap().unwrap(), 0x402000..0x402010);
    assert!(it.next(|_, _, base| (Ok(0), base, 0, 0)).is_none());
    assert_eq!(it.offset, 0);
}

#[test]
fn ranges_walk_error_is_terminal() {
    let d = die(100);
    let mut it = d.ranges();
    let r = it.next(|_, _, _| (Err(last()), 0, 0, 0));
    assert_eq!(r.unwrap().unwrap_err().code(), Some(6));
    assert!(it.finished);
    let mut called = false;
    let r = it.next(|_, _, base| {
        called = true;
        (Ok(8), base, 1, 2)
    });
    assert!(r.is_none());
    assert!(!called);
}

#[test]
fn ranges_walk_stays_ended() {
    let d = die(100);
    let mut it = d.ranges();
    assert!(it.next(|_, _, _| (Ok(8), 0x400000, 0x401000, 0x401050)).is_some());
    assert!(it.next(|_, _, base| (Ok(0), base, 0, 0)).is_none());
    let mut called = false;
    let r = it.next(|_, _, base| {
        called = true;
        (Ok(8), base, 0x401000, 0x401050)
    });
    assert!(r.is_none());
    assert!(!called);
}

#[test]
fn children_walk_looks_abbrev_up_before_moving_on() {
    let parent = die(100);
    let mut it = parent.iter_children();
    let first = it.next(tree_step, lookup).unwrap().unwrap();
    assert_eq!(first.abbrev, 0x9000 + 200);
    assert_eq!(it.die.abbrev, 0x9000 + 200);
    let second = it.next(tree_step, lookup).unwrap().unwrap();
    assert_eq!(second.addr, 300);
    assert_eq!(second.abbrev, 0x9000 + 300);
    // The die yielded first is a copy: moving on did not change it.
    assert_eq!((first.addr, first.abbrev), (200, 0x9000 + 200));
}

#[test]
fn children_walk_keeps_a_held_abbrev() {
    let parent = die(100);
    let mut it = parent.iter_children();
    let mut looked = false;
    let child = it
        .next(
            |_, _| (Ok(0), Die::from_raw_parts(200, 0x10, 0x55, 0)),
            |d| {
                looked = true;
                lookup(d)
            },
        )
        .unwrap()
        .unwrap();
    assert_eq!(child.abbrev, 0x55);
    assert!(!looked);
}

#[test]
fn children_walk_failed_lookup_leaves_die_as_reached() {
    let parent = die(100);
    let mut it = parent.iter_children();
    let child = it.next(tree_step, |d| (Err(last()), d)).unwrap().unwrap();
    assert_eq!((child.addr, child.abbrev), (200, 0));
}

#[test]
fn cached_abbrev_needs_no_lookup() {
    let d = Die::from_raw_parts(100, 0x10, 0x777, 0);
    let mut looked = false;
    let r = d.get_abbrev(
        |x| {
            looked = true;
            (Ok(1), x)
        },
        last,
    );
    assert_eq!(r.unwrap(), 0x777);
    assert!(!looked);
}

#[test]
fn pending_abbrev_is_looked_up() {
    let d = die(100);
    let r = d.get_abbrev(|x| (Ok(1), Die::from_raw_parts(x.addr, x.cu, 0x888, x.padding)), last);
    assert_eq!(r.unwrap(), 0x888);
    let r = d.get_abbrev(|x| (Err(last()), x), last);
    assert_eq!(r.unwrap_err().code(), Some(6));
    // A lookup that reports success but leaves the abbreviation null fails.
    let r = d.get_abbrev(|x| (Ok(0), x), || Error::native(Library::Dw, 31));
    assert_eq!(r.unwrap_err().code(), Some(31));
}
