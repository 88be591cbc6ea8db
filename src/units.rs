//! Forward-only walks over the top-level units of a session. A unit is a
//! light descriptor: its root die is read only when asked for.
use vstd::prelude::*;

use crate::dwarf::Dwarf;
use crate::error::{Error, Result};

verus! {

/// A walk over the compile units of a session.
///
/// Each step asks the native library once for the unit header at `offset`;
/// the native library moves `offset` on to the next header. The walk ends for
/// good on the native "no more units" answer, and after one error.
#[derive(Debug)]
pub struct CompileUnits<'dw> {
    pub dwarf: &'dw Dwarf<'dw>,
    pub offset: u64,
    pub finished: bool,
}

/// A walk over the compile units of `dwarf`, from the first.
pub fn compile_units<'dw>(dwarf: &'dw Dwarf<'dw>) -> (r: CompileUnits<'dw>)
    ensures
        r.dwarf == dwarf,
        r.offset == 0,
        !r.finished,
{
    CompileUnits { dwarf, offset: 0, finished: false }
}

/// A compile unit: its session and the offset of its root die.
#[derive(Debug)]
pub struct CompileUnit<'dw> {
    pub dwarf: &'dw Dwarf<'dw>,
    pub die_offset: u64,
}

impl<'dw> CompileUnit<'dw> {
    pub fn new(dwarf: &'dw Dwarf<'dw>, die_offset: u64) -> (r: CompileUnit<'dw>)
        ensures
            r.dwarf == dwarf,
            r.die_offset == die_offset,
    {
        CompileUnit { dwarf, die_offset }
    }
}

/// Where a unit's root die lies: just past the header that starts at
/// `offset`, modulo the 64-bit offset space.
pub open spec fn spec_die_offset(offset: u64, header_size: u64) -> u64 {
    offset.wrapping_add(header_size)
}

impl<'dw> CompileUnits<'dw> {
    /// The walk and the item after the native query at `offset` answered
    /// `rc`, moved the offset to `next` and gave the header size.
    pub open spec fn after(self, rc: Result<i32>, next: u64, header_size: u64) -> (
        CompileUnits<'dw>,
        Option<Result<CompileUnit<'dw>>>,
    ) {
        let moved = CompileUnits { dwarf: self.dwarf, offset: next, finished: self.finished };
        match rc {
            Ok(c) => if c == 0 {
                (
                    moved,
                    Some(
                        Ok(
                            CompileUnit {
                                dwarf: self.dwarf,
                                die_offset: spec_die_offset(self.offset, header_size),
                            },
                        ),
                    ),
                )
            } else {
                (CompileUnits { finished: true, ..moved }, None)
            },
            Err(e) => (CompileUnits { finished: true, ..moved }, Some(Err(e))),
        }
    }

    /// The next compile unit, if any. `step` performs the native unit-header
    /// query at the given offset and returns the native code, the offset of
    /// the next header and the size of this one; it is not called once the
    /// walk is finished.
    pub fn next<S>(&mut self, step: S) -> (r: Option<Result<CompileUnit<'dw>>>) where
        S: FnOnce(u64) -> (Result<i32>, u64, u64),

        requires
            !old(self).finished ==> step.requires((old(self).offset,)),
        ensures
            final(self).dwarf == old(self).dwarf,
            old(self).finished ==> r is None && final(self).offset == old(self).offset
                && final(self).finished,
            !old(self).finished ==> exists|out: (Result<i32>, u64, u64)|
                #[trigger] step.ensures((old(self).offset,), out) && (*final(self), r)
                    == old(self).after(out.0, out.1, out.2),
    {
        if self.finished {
            return None;
        }
        let offset = self.offset;
        let (rc, next, header_size) = step(offset);
        self.offset = next;
        match rc {
            Ok(c) => if c == 0 {
                Some(Ok(CompileUnit::new(self.dwarf, offset.wrapping_add(header_size))))
            } else {
                self.finished = true;
                None
            },
            Err(e) => {
                self.finished = true;
                Some(Err(e))
            },
        }
    }
}

/// A walk over the type units of a session, stepping as `CompileUnits` does.
#[derive(Debug)]
pub struct TypeUnits<'dw> {
    pub dwarf: &'dw Dwarf<'dw>,
    pub offset: u64,
    pub finished: bool,
}

/// A walk over the type units of `dwarf`, from the first.
pub fn type_units<'dw>(dwarf: &'dw Dwarf<'dw>) -> (r: TypeUnits<'dw>)
    ensures
        r.dwarf == dwarf,
        r.offset == 0,
        !r.finished,
{
    TypeUnits { dwarf, offset: 0, finished: false }
}

/// A type unit: its session, the offsets of its root die and of the die of
/// the type it defines, and the type's 64-bit signature.
#[derive(Debug)]
pub struct TypeUnit<'dw> {
    pub dwarf: &'dw Dwarf<'dw>,
    pub die_offset: u64,
    pub type_offset: u64,
    pub signature: u64,
}

impl<'dw> TypeUnit<'dw> {
    pub fn new(dwarf: &'dw Dwarf<'dw>, die_offset: u64, type_offset: u64, signature: u64) -> (r:
        TypeUnit<'dw>)
        ensures
            r.dwarf == dwarf,
            r.die_offset == die_offset,
            r.type_offset == type_offset,
            r.signature == signature,
    {
        TypeUnit { dwarf, die_offset, type_offset, signature }
    }

    /// The signature of the type that this unit defines.
    pub fn signature(&self) -> (r: u64)
        ensures
            r == self.signature,
    {
        self.signature
    }
}

impl<'dw> TypeUnits<'dw> {
    /// The walk and the item after the native query at `offset` answered
    /// `rc`, moved the offset to `next` and gave the header size, the type
    /// signature and the type die's offset within the unit.
    pub open spec fn after(
        self,
        rc: Result<i32>,
        next: u64,
        header_size: u64,
        signature: u64,
        type_offset: u64,
    ) -> (TypeUnits<'dw>, Option<Result<TypeUnit<'dw>>>) {
        let moved = TypeUnits { dwarf: self.dwarf, offset: next, finished: self.finished };
        match rc {
            Ok(c) => if c == 0 {
                (
                    moved,
                    Some(
                        Ok(
                            TypeUnit {
                                dwarf: self.dwarf,
                                die_offset: spec_die_offset(self.offset, header_size),
                                type_offset: spec_die_offset(self.offset, type_offset),
                                signature,
                            },
                        ),
                    ),
                )
            } else {
                (TypeUnits { finished: true, ..moved }, None)
            },
            Err(e) => (TypeUnits { finished: true, ..moved }, Some(Err(e))),
        }
    }

    /// The next type unit, if any. `step` performs the native unit-header
    /// query at the given offset and returns the native code, the offset of
    /// the next header, the size of this one, the type signature and the
    /// type die's offset within the unit; it is not called once the walk is
    /// finished.
    pub fn next<S>(&mut self, step: S) -> (r: Option<Result<TypeUnit<'dw>>>) where
        S: FnOnce(u64) -> (Result<i32>, u64, u64, u64, u64),

        requires
            !old(self).finished ==> step.requires((old(self).offset,)),
        ensures
            final(self).dwarf == old(self).dwarf,
            old(self).finished ==> r is None && final(self).offset == old(self).offset
                && final(self).finished,
            !old(self).finished ==> exists|out: (Result<i32>, u64, u64, u64, u64)|
                #[trigger] step.ensures((old(self).offset,), out) && (*final(self), r)
                    == old(self).after(out.0, out.1, out.2, out.3, out.4),
    {
        if self.finished {
            return None;
        }
        let offset = self.offset;
        let (rc, next, header_size, signature, type_offset) = step(offset);
        self.offset = next;
        match rc {
            Ok(c) => if c == 0 {
                Some(
                    Ok(
                        TypeUnit::new(
                            self.dwarf,
                            offset.wrapping_add(header_size),
                            offset.wrapping_add(type_offset),
                            signature,
                        ),
                    ),
                )
            } else {
                self.finished = true;
                None
            },
            Err(e) => {
                self.finished = true;
                Some(Err(e))
            },
        }
    }
}

/// The first step of a fresh compile-unit walk that the native library
/// answers with a unit yields that unit, with its root die just past the
/// unit's header at the start of the section. (Whether that die can then be
/// read is for the native library to say.)
pub proof fn lemma_first_unit_yielded<'dw>(dwarf: &'dw Dwarf<'dw>, next: u64, header_size: u64)
    ensures
        ({
            let (it, item) = CompileUnits { dwarf, offset: 0, finished: false }.after(
                Ok(0),
                next,
                header_size,
            );
            &&& !it.finished
            &&& it.offset == next
            &&& item matches Some(Ok(u))
            &&& u.dwarf == dwarf
            &&& u.die_offset == header_size
        }),
{
    assert(0u64.wrapping_add(header_size) == header_size);
}

} // verus!
