//! Debug information entries: the fixed-layout cursor value that mirrors the
//! native `Dwarf_Die`, and the pull-style walks over a die's children and
//! address ranges.
use core::marker::PhantomData;
use core::ops::Range;
use vstd::prelude::*;

use crate::dwarf::Dwarf;
use crate::error::{Error, Result};

verus! {

/// The tag that the native library reports for a die without one.
pub const DW_TAG_INVALID: u32 = 0;

/// A cursor on one debug information entry.
///
/// The four fields are those of the native cursor record, in its order: the
/// entry's address, its unit and its abbreviation (zero until the native
/// library has looked it up), then a word the native library reserves. The
/// marker carries the lifetime of the session the cursor was read from, so a
/// cursor that the native library wrote cannot outlive its session. A cursor
/// built with `from_raw_parts` carries whatever lifetime its maker chooses and
/// holds whatever addresses it was given: nothing here reads through them,
/// and code that hands a cursor to the native library must hand it only
/// cursors that the library wrote. The cursor owns nothing and is never
/// released.
#[derive(Debug, Clone, Copy)]
pub struct Die<'dw> {
    pub addr: usize,
    pub cu: usize,
    pub abbrev: usize,
    pub padding: isize,
    pub phantom: PhantomData<&'dw Dwarf<'dw>>,
}

impl<'dw> Die<'dw> {
    /// A cursor holding the given native field values.
    pub fn from_raw_parts(addr: usize, cu: usize, abbrev: usize, padding: isize) -> (r: Die<'dw>)
        ensures
            r.addr == addr,
            r.cu == cu,
            r.abbrev == abbrev,
            r.padding == padding,
    {
        Die { addr, cu, abbrev, padding, phantom: PhantomData }
    }

    /// Two cursors denote the same entry when address, unit and abbreviation agree.
    pub open spec fn same_entry(self, other: Die<'dw>) -> bool {
        &&& self.addr == other.addr
        &&& self.cu == other.cu
        &&& self.abbrev == other.abbrev
    }

    /// Whether the abbreviation has not been looked up yet.
    pub fn abbrev_pending(&self) -> (r: bool)
        ensures
            r == (self.abbrev == 0),
    {
        self.abbrev == 0
    }

    /// The address of the die's abbreviation. When the cursor does not hold
    /// it yet, `lookup` runs a native query that looks it up (the query for
    /// whether the die has children does) and returns the native code with
    /// the cursor as the query left it; the abbreviation is then read from
    /// that cursor. A lookup that fails, or that leaves the abbreviation null,
    /// is reported as the error that `last` reads from the native library, so
    /// an address that is returned is never null.
    pub fn get_abbrev<S, F>(&self, lookup: S, last: F) -> (r: Result<usize>) where
        S: FnOnce(Die<'dw>) -> (Result<i32>, Die<'dw>),
        F: FnOnce() -> Error,

        requires
            self.abbrev == 0 ==> lookup.requires((*self,)),
            last.requires(()),
        ensures
            self.abbrev != 0 ==> r == Ok::<usize, Error>(self.abbrev),
            self.abbrev == 0 ==> exists|out: (Result<i32>, Die<'dw>)|
                #[trigger] lookup.ensures((*self,), out) && match out.0 {
                    Ok(_) => if out.1.abbrev != 0 {
                        r == Ok::<usize, Error>(out.1.abbrev)
                    } else {
                        r matches Err(e) && last.ensures((), e)
                    },
                    Err(e) => r == Err::<usize, Error>(e),
                },
            r matches Ok(p) ==> p != 0,
    {
        if self.abbrev != 0 {
            return Ok(self.abbrev);
        }
        let (rc, looked_up) = lookup(*self);
        match rc {
            Ok(_) => if looked_up.abbrev != 0 {
                Ok(looked_up.abbrev)
            } else {
                Err(last())
            },
            Err(e) => Err(e),
        }
    }

    /// The tag of this die, from what the native tag query returned: the
    /// invalid-tag constant is the failure sentinel, and any other value,
    /// however large, is a tag.
    pub fn tag_from<F: FnOnce() -> Error>(raw: i32, last: F) -> (r: Result<u32>)
        requires
            last.requires(()),
        ensures
            raw as u32 == DW_TAG_INVALID ==> (r matches Err(e) && last.ensures((), e)),
            raw as u32 != DW_TAG_INVALID ==> r == Ok::<u32, Error>(raw as u32),
            r matches Ok(t) ==> t != DW_TAG_INVALID,
    {
        let tag = raw as u32;
        if tag == DW_TAG_INVALID {
            Err(last())
        } else {
            Ok(tag)
        }
    }

    /// What a single native step to a first child or next sibling reports:
    /// the die reached on zero, nothing on a positive code, the error as is.
    pub fn reached(rc: Result<i32>, die: Die<'dw>) -> (r: Result<Option<Die<'dw>>>)
        ensures
            r == spec_reached(rc, die),
    {
        match rc {
            Ok(c) => if c == 0 {
                Ok(Some(die))
            } else {
                Ok(None)
            },
            Err(e) => Err(e),
        }
    }

    /// A walk over the children of this die, starting before the first one.
    pub fn iter_children(&self) -> (r: DieChildren<'dw>)
        ensures
            r == children_of(*self),
    {
        DieChildren { first: true, finished: false, die: *self }
    }

    /// A walk over the address ranges of this die, starting at the first one.
    pub fn ranges(&self) -> (r: DieRanges<'dw>)
        ensures
            r == ranges_of(*self),
    {
        DieRanges { offset: 0, base: 0, die: *self, finished: false }
    }
}

pub open spec fn spec_reached<'dw>(rc: Result<i32>, die: Die<'dw>) -> Result<Option<Die<'dw>>> {
    match rc {
        Ok(c) => if c == 0 {
            Ok(Some(die))
        } else {
            Ok(None)
        },
        Err(e) => Err(e),
    }
}

impl<'dw> Default for Die<'dw> {
    /// The empty cursor, a destination for a native call to fill.
    fn default() -> (r: Die<'dw>)
        ensures
            r.addr == 0,
            r.cu == 0,
            r.abbrev == 0,
            r.padding == 0,
    {
        Die { addr: 0, cu: 0, abbrev: 0, padding: 0, phantom: PhantomData }
    }
}

impl<'dw> PartialEq for Die<'dw> {
    fn eq(&self, other: &Die<'dw>) -> (r: bool) {
        self.addr == other.addr && self.cu == other.cu && self.abbrev == other.abbrev
    }
}

impl<'dw> vstd::std_specs::cmp::PartialEqSpecImpl for Die<'dw> {
    open spec fn obeys_eq_spec() -> bool {
        true
    }

    open spec fn eq_spec(&self, other: &Die<'dw>) -> bool {
        self.same_entry(*other)
    }
}

impl<'dw> Eq for Die<'dw> {

}

/// The native step that a children walk asks for next.
#[derive(Debug, Clone, Copy, PartialEq, Eq, Structural)]
pub enum ChildStep {
    /// Move the cursor from the parent to its first child.
    First,
    /// Move the cursor from the die it holds to that die's next sibling.
    Sibling,
}

/// A single-pass walk over the children of a die.
///
/// Each step asks the native library once to move the cursor, first to the
/// parent's first child and then from sibling to sibling, overwriting the
/// cursor in place; the caller receives a copy of each die reached. The walk
/// ends for good on the native "no more" answer, and after one error.
#[derive(Debug)]
pub struct DieChildren<'dw> {
    pub first: bool,
    pub finished: bool,
    pub die: Die<'dw>,
}

/// A fresh children walk from `parent`.
pub open spec fn children_of<'dw>(parent: Die<'dw>) -> DieChildren<'dw> {
    DieChildren { first: true, finished: false, die: parent }
}

impl<'dw> DieChildren<'dw> {
    /// The step the walk asks for while it is not finished.
    pub open spec fn step_kind(self) -> ChildStep {
        if self.first {
            ChildStep::First
        } else {
            ChildStep::Sibling
        }
    }

    /// The walk and the item after the native step answered `rc` and left
    /// the cursor at `moved`.
    pub open spec fn after(self, rc: Result<i32>, moved: Die<'dw>) -> (DieChildren<'dw>, Option<Result<Die<'dw>>>) {
        match rc {
            Ok(c) => if c == 0 {
                (DieChildren { first: false, finished: false, die: moved }, Some(Ok(moved)))
            } else {
                (DieChildren { first: false, finished: true, die: moved }, None)
            },
            Err(e) => (DieChildren { first: false, finished: true, die: moved }, Some(Err(e))),
        }
    }

    /// The next child, if any. `step` performs the native step that
    /// `step_kind` names on the cursor it is given and returns the native
    /// code with the cursor as the step left it; it is not called once the
    /// walk is finished. When the step reaches a die whose abbreviation is
    /// not held yet, `lookup` runs the native query that looks it up (as for
    /// `get_abbrev`) before the die is copied out, so the die yielded and the
    /// cursor kept both hold it; a failed lookup leaves the die as reached.
    pub fn next<S, L>(&mut self, step: S, lookup: L) -> (r: Option<Result<Die<'dw>>>) where
        S: FnOnce(ChildStep, Die<'dw>) -> (Result<i32>, Die<'dw>),
        L: FnOnce(Die<'dw>) -> (Result<i32>, Die<'dw>),

        requires
            !old(self).finished ==> step.requires((old(self).step_kind(), old(self).die)),
            forall|d: Die<'dw>| lookup.requires((d,)),
        ensures
            old(self).finished ==> r is None && *final(self) == *old(self),
            !old(self).finished ==> exists|out: (Result<i32>, Die<'dw>)|
                #[trigger] step.ensures((old(self).step_kind(), old(self).die), out) && exists|
                    looked: (Result<i32>, Die<'dw>),
                |
                    (needs_lookup(out) ==> lookup.ensures((out.1,), looked)) && (*final(self), r)
                        == old(self).after(out.0, #[trigger] primed(out, looked)),
    {
        if self.finished {
            return None;
        }
        let kind = if self.first {
            ChildStep::First
        } else {
            ChildStep::Sibling
        };
        self.first = false;
        let (rc, moved) = step(kind, self.die);
        let ghost out = (rc, moved);
        let mut reached = moved;
        let ghost mut looked_out = out;
        match rc {
            Ok(c) => if c == 0 {
                if moved.abbrev == 0 {
                    let (looked_rc, looked) = lookup(moved);
                    proof {
                        looked_out = (looked_rc, looked);
                    }
                    match looked_rc {
                        Ok(_) => if looked.abbrev != 0 {
                            reached.abbrev = looked.abbrev;
                        },
                        Err(_) => {},
                    }
                }
                assert(reached == primed(out, looked_out));
                self.die = reached;
                Some(Ok(reached))
            } else {
                assert(reached == primed(out, looked_out));
                self.die = reached;
                self.finished = true;
                None
            },
            Err(e) => {
                assert(reached == primed(out, looked_out));
                self.die = reached;
                self.finished = true;
                Some(Err(e))
            },
        }
    }
}

/// Whether a step's answer reached a die whose abbreviation is not held yet.
pub open spec fn needs_lookup<'dw>(out: (Result<i32>, Die<'dw>)) -> bool {
    out.0 == Ok::<i32, Error>(0) && out.1.abbrev == 0
}

/// The die that a children walk keeps and yields after the step answered
/// `out` and, where one was needed, the abbreviation lookup answered `looked`.
pub open spec fn primed<'dw>(out: (Result<i32>, Die<'dw>), looked: (Result<i32>, Die<'dw>)) -> Die<'dw> {
    if needs_lookup(out) && looked.0 is Ok && looked.1.abbrev != 0 {
        Die { abbrev: looked.1.abbrev, ..out.1 }
    } else {
        out.1
    }
}

/// A walk over the address ranges of a die.
///
/// The native range query is resumed from the offset and base address that
/// its previous answer left; each answer with a non-zero offset is one
/// half-open interval `[start, end)`. A zero offset ends the walk for good,
/// and so does an error, after which the walk yields nothing more.
#[derive(Debug)]
pub struct DieRanges<'dw> {
    pub offset: isize,
    pub base: u64,
    pub die: Die<'dw>,
    pub finished: bool,
}

/// A fresh range walk over `die`.
pub open spec fn ranges_of<'dw>(die: Die<'dw>) -> DieRanges<'dw> {
    DieRanges { offset: 0, base: 0, die, finished: false }
}

impl<'dw> DieRanges<'dw> {
    /// The walk after the native query answered `rc` and wrote `base`.
    pub open spec fn after(self, rc: Result<isize>, base: u64) -> DieRanges<'dw> {
        match rc {
            Ok(off) => DieRanges { offset: off, base, die: self.die, finished: off == 0 },
            Err(_) => DieRanges { offset: self.offset, base, die: self.die, finished: true },
        }
    }

    /// The next interval, if any. `step` performs the native range query on
    /// the die from the given offset and base, and returns the native code
    /// with the base, start and end that the query wrote; it is not called
    /// once the walk is finished.
    pub fn next<S>(&mut self, step: S) -> (r: Option<Result<Range<u64>>>) where
        S: FnOnce(Die<'dw>, isize, u64) -> (Result<isize>, u64, u64, u64),

        requires
            !old(self).finished ==> step.requires((old(self).die, old(self).offset, old(self).base)),
        ensures
            old(self).finished ==> r is None && *final(self) == *old(self),
            !old(self).finished ==> exists|out: (Result<isize>, u64, u64, u64)|
                #[trigger] step.ensures((old(self).die, old(self).offset, old(self).base), out) && {
                    &&& *final(self) == old(self).after(out.0, out.1)
                    &&& match out.0 {
                        Ok(off) => if off == 0 {
                            r is None
                        } else {
                            r == Some(Ok::<Range<u64>, Error>(Range { start: out.2, end: out.3 }))
                        },
                        Err(e) => r == Some(Err::<Range<u64>, Error>(e)),
                    }
                },
    {
        if self.finished {
            return None;
        }
        let (rc, base, start, end) = step(self.die, self.offset, self.base);
        self.base = base;
        match rc {
            Ok(off) => {
                self.offset = off;
                if off == 0 {
                    self.finished = true;
                    None
                } else {
                    Some(Ok(start..end))
                }
            },
            Err(e) => {
                self.finished = true;
                Some(Err(e))
            },
        }
    }
}

/// The answer of one native step of a children walk followed, where one is
/// needed, by the abbreviation lookup: the native code and the die as the
/// walk keeps it, when the native library steps as `native` and looks
/// abbreviations up as `lookup`.
pub open spec fn walk_step<'dw>(
    native: spec_fn(ChildStep, Die<'dw>) -> (Result<i32>, Die<'dw>),
    lookup: spec_fn(Die<'dw>) -> (Result<i32>, Die<'dw>),
    kind: ChildStep,
    from: Die<'dw>,
) -> (Result<i32>, Die<'dw>) {
    let out = native(kind, from);
    (out.0, primed(out, lookup(out.1)))
}

/// The items that a children walk yields over `n` calls of `next` when the
/// native library answers as `native` and `lookup` do.
pub open spec fn children_walk<'dw>(
    it: DieChildren<'dw>,
    native: spec_fn(ChildStep, Die<'dw>) -> (Result<i32>, Die<'dw>),
    lookup: spec_fn(Die<'dw>) -> (Result<i32>, Die<'dw>),
    n: nat,
) -> Seq<Option<Result<Die<'dw>>>>
    decreases n,
{
    if n == 0 {
        Seq::empty()
    } else if it.finished {
        seq![None].add(children_walk(it, native, lookup, (n - 1) as nat))
    } else {
        let out = walk_step(native, lookup, it.step_kind(), it.die);
        let (next, item) = it.after(out.0, out.1);
        seq![item].add(children_walk(next, native, lookup, (n - 1) as nat))
    }
}

/// The dies that the native library reaches from `from` in at most `n`
/// steps, with no walk state: the step `kind`, then next sibling after next
/// sibling, ending before the first "no more" answer and after the first
/// error; each die as its abbreviation lookup left it.
pub open spec fn sibling_chain<'dw>(
    kind: ChildStep,
    from: Die<'dw>,
    native: spec_fn(ChildStep, Die<'dw>) -> (Result<i32>, Die<'dw>),
    lookup: spec_fn(Die<'dw>) -> (Result<i32>, Die<'dw>),
    n: nat,
) -> Seq<Result<Die<'dw>>>
    decreases n,
{
    if n == 0 {
        Seq::empty()
    } else {
        let out = walk_step(native, lookup, kind, from);
        match out.0 {
            Ok(c) => if c == 0 {
                seq![Ok(out.1)].add(
                    sibling_chain(ChildStep::Sibling, out.1, native, lookup, (n - 1) as nat),
                )
            } else {
                Seq::empty()
            },
            Err(e) => seq![Err(e)],
        }
    }
}

/// The present items of a sequence of optional items, in order.
pub open spec fn present<T>(items: Seq<Option<T>>) -> Seq<T>
    decreases items.len(),
{
    if items.len() == 0 {
        Seq::empty()
    } else {
        let rest = present(items.drop_first());
        match items[0] {
            Some(x) => seq![x].add(rest),
            None => rest,
        }
    }
}

proof fn lemma_present_cons<T>(item: Option<T>, rest: Seq<Option<T>>)
    ensures
        present(seq![item].add(rest)) == match item {
            Some(x) => seq![x].add(present(rest)),
            None => present(rest),
        },
{
    let items = seq![item].add(rest);
    assert(items.drop_first() =~= rest);
}

/// A finished children walk yields nothing more, however often it is asked.
pub proof fn lemma_finished_walk_is_empty<'dw>(
    it: DieChildren<'dw>,
    native: spec_fn(ChildStep, Die<'dw>) -> (Result<i32>, Die<'dw>),
    lookup: spec_fn(Die<'dw>) -> (Result<i32>, Die<'dw>),
    n: nat,
)
    requires
        it.finished,
    ensures
        present(children_walk(it, native, lookup, n)) == Seq::<Result<Die<'dw>>>::empty(),
    decreases n,
{
    if n > 0 {
        lemma_finished_walk_is_empty(it, native, lookup, (n - 1) as nat);
        lemma_present_cons(None, children_walk(it, native, lookup, (n - 1) as nat));
    }
}

/// An unfinished children walk yields the sibling chain from the step it
/// asks for next and the cursor it holds.
pub proof fn lemma_walk_follows_chain<'dw>(
    it: DieChildren<'dw>,
    native: spec_fn(ChildStep, Die<'dw>) -> (Result<i32>, Die<'dw>),
    lookup: spec_fn(Die<'dw>) -> (Result<i32>, Die<'dw>),
    n: nat,
)
    requires
        !it.finished,
    ensures
        present(children_walk(it, native, lookup, n)) == sibling_chain(
            it.step_kind(),
            it.die,
            native,
            lookup,
            n,
        ),
    decreases n,
{
    if n > 0 {
        let out = walk_step(native, lookup, it.step_kind(), it.die);
        let (next, item) = it.after(out.0, out.1);
        lemma_present_cons(item, children_walk(next, native, lookup, (n - 1) as nat));
        if next.finished {
            lemma_finished_walk_is_empty(next, native, lookup, (n - 1) as nat);
        } else {
            lemma_walk_follows_chain(next, native, lookup, (n - 1) as nat);
        }
    }
}

/// Walking the children of a die is restartable by asking the die again:
/// the items that a fresh walk from a parent yields are the parent's first
/// child and then next sibling after next sibling, as the native library
/// reaches them, and depend on nothing else. So fresh walks from two equal
/// parent dies yield the same dies, while a walk that has ended yields
/// nothing more.
pub proof fn lemma_children_walk_restarts<'dw>(
    p1: Die<'dw>,
    p2: Die<'dw>,
    native: spec_fn(ChildStep, Die<'dw>) -> (Result<i32>, Die<'dw>),
    lookup: spec_fn(Die<'dw>) -> (Result<i32>, Die<'dw>),
    n: nat,
    spent: DieChildren<'dw>,
    m: nat,
)
    requires
        p1 == p2,
        spent.finished,
    ensures
        present(children_walk(children_of(p1), native, lookup, n)) == sibling_chain(
            ChildStep::First,
            p1,
            native,
            lookup,
            n,
        ),
        present(children_walk(children_of(p1), native, lookup, n)) == present(
            children_walk(children_of(p2), native, lookup, n),
        ),
        present(children_walk(spent, native, lookup, m)) == Seq::<Result<Die<'dw>>>::empty(),
{
    lemma_walk_follows_chain(children_of(p1), native, lookup, n);
    lemma_finished_walk_is_empty(spent, native, lookup, m);
}

} // verus!
