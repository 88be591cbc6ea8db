//! The ELF container handle that a debug-information session may be begun
//! over, together with how it was begun.
use core::marker::PhantomData;
use vstd::prelude::*;

verus! {

/// How an ELF handle was begun.
#[derive(Debug, Clone, Copy, PartialEq, Eq, Structural)]
pub enum ElfKind {
    /// Wrapped from a handle that its creator keeps and ends.
    Raw,
    /// Begun over a file that the handle opened and keeps open.
    File,
    /// Begun over a descriptor that the caller keeps open.
    Fd,
    /// Begun over bytes in memory that the caller keeps.
    Bytes,
}

/// An ELF handle. `inner` is the address of the native handle; a handle
/// begun over a resource it does not own borrows that resource for `'elf`.
/// A handle that this library began is ended exactly once; a wrapped one is
/// never ended here. The address is only held here, never read through.
#[derive(Debug)]
pub struct Elf<'elf> {
    inner: usize,
    kind: ElfKind,
    phantom: PhantomData<&'elf ()>,
}

impl<'elf> Elf<'elf> {
    pub closed spec fn handle(&self) -> usize {
        self.inner
    }

    pub closed spec fn spec_kind(&self) -> ElfKind {
        self.kind
    }

    /// A handle over the native handle that a begin call returned.
    pub fn new(inner: usize, kind: ElfKind) -> (r: Elf<'elf>)
        ensures
            r.handle() == inner,
            r.spec_kind() == kind,
    {
        Elf { inner, kind, phantom: PhantomData }
    }

    /// A handle wrapping one that its creator keeps and ends.
    pub fn from_raw(inner: usize) -> (r: Elf<'elf>)
        ensures
            r.handle() == inner,
            r.spec_kind() == ElfKind::Raw,
    {
        Elf::new(inner, ElfKind::Raw)
    }

    /// The address of the native handle.
    pub fn as_ptr(&self) -> (r: usize)
        ensures
            r == self.handle(),
    {
        self.inner
    }

    /// How the handle was begun.
    pub fn kind(&self) -> (r: ElfKind)
        ensures
            r == self.spec_kind(),
    {
        self.kind
    }

    /// Whether the native end call is still owed for this handle. It is owed
    /// once for a handle that was begun here, and never for a wrapped one.
    pub fn release(&mut self) -> (r: bool)
        ensures
            r == (old(self).spec_kind() != ElfKind::Raw),
            final(self).spec_kind() == ElfKind::Raw,
            final(self).handle() == old(self).handle(),
    {
        let owed = match self.kind {
            ElfKind::Raw => false,
            _ => true,
        };
        self.kind = ElfKind::Raw;
        owed
    }
}

} // verus!
