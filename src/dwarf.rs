//! The debug-information session: the native session handle together with
//! how it was begun, which decides whether it must be torn down.
use core::marker::PhantomData;
use vstd::prelude::*;

use crate::units::{CompileUnits, TypeUnits, compile_units, type_units};

verus! {

/// How a session was begun.
#[derive(Debug, Clone, Copy, PartialEq, Eq, Structural)]
pub enum DwarfKind {
    /// Wrapped from a handle that its creator keeps and ends.
    Raw,
    /// Begun over a file that the session opened and keeps open.
    File,
    /// Begun over a descriptor that the caller keeps open.
    Fd,
    /// Begun over an ELF handle that the caller keeps.
    Elf,
}

/// A debug-information session.
///
/// `inner` is the address of the native session. Every cursor read from the
/// session borrows it for `'dw`, and so does the session from a resource
/// that it reads but does not own. A session that this library began is
/// ended exactly once; a wrapped one is never ended here. The address is
/// only held here, never read through: code that hands it to the native
/// library must build sessions only from addresses the library returned.
#[derive(Debug)]
pub struct Dwarf<'dw> {
    inner: usize,
    kind: DwarfKind,
    phantom: PhantomData<&'dw ()>,
}

impl<'dw> Dwarf<'dw> {
    pub closed spec fn handle(&self) -> usize {
        self.inner
    }

    pub closed spec fn spec_kind(&self) -> DwarfKind {
        self.kind
    }

    /// A session over the native handle that a begin call returned.
    pub fn new(inner: usize, kind: DwarfKind) -> (r: Dwarf<'dw>)
        ensures
            r.handle() == inner,
            r.spec_kind() == kind,
    {
        Dwarf { inner, kind, phantom: PhantomData }
    }

    /// A session over a handle that its creator keeps and ends.
    pub fn from_raw(inner: usize) -> (r: Dwarf<'dw>)
        ensures
            r.handle() == inner,
            r.spec_kind() == DwarfKind::Raw,
    {
        Dwarf::new(inner, DwarfKind::Raw)
    }

    /// The address of the native session.
    pub fn as_ptr(&self) -> (r: usize)
        ensures
            r == self.handle(),
    {
        self.inner
    }

    /// How the session was begun.
    pub fn kind(&self) -> (r: DwarfKind)
        ensures
            r == self.spec_kind(),
    {
        self.kind
    }

    /// Whether the native teardown is still owed for this session. It is
    /// owed once for a session that was begun here, and never for a wrapped one.
    pub fn release(&mut self) -> (r: bool)
        ensures
            r == (old(self).spec_kind() != DwarfKind::Raw),
            final(self).spec_kind() == DwarfKind::Raw,
            final(self).handle() == old(self).handle(),
    {
        let owed = match self.kind {
            DwarfKind::Raw => false,
            _ => true,
        };
        self.kind = DwarfKind::Raw;
        owed
    }

    /// The compile units of the session, from the first.
    pub fn compile_units(&'dw self) -> (r: CompileUnits<'dw>)
        ensures
            r.dwarf == self,
            r.offset == 0,
            !r.finished,
    {
        compile_units(self)
    }

    /// The type units of the session, from the first.
    pub fn type_units(&'dw self) -> (r: TypeUnits<'dw>)
        ensures
            r.dwarf == self,
            r.offset == 0,
            !r.finished,
    {
        type_units(self)
    }
}

} // verus!
