//! A libdwfl session over the modules of a program, and the walk over the
//! debug-information sessions of its modules.
use vstd::prelude::*;

use crate::dwarf::{Dwarf, DwarfKind};
use crate::error::{Error, Result};

verus! {

/// A libdwfl session. `inner` is the address of the native session, which
/// the holder ends when it is done with it.
#[derive(Debug)]
pub struct Dwfl {
    inner: usize,
}

impl Dwfl {
    pub closed spec fn handle(&self) -> usize {
        self.inner
    }

    /// A session over the native handle that a begin call returned.
    pub fn new(inner: usize) -> (r: Dwfl)
        ensures
            r.handle() == inner,
    {
        Dwfl { inner }
    }

    /// The address of the native session.
    pub fn as_ptr(&self) -> (r: usize)
        ensures
            r == self.handle(),
    {
        self.inner
    }

    /// A walk over the debug-information sessions of the modules, from the first.
    pub fn dwarfs(&self) -> (r: Dwarfs<'_>)
        ensures
            r.dwfl == self,
            r.offset == 0,
    {
        Dwarfs { dwfl: self, offset: 0 }
    }
}

/// A walk over the debug-information sessions of a libdwfl session's
/// modules. Each step asks the native module enumeration, resumed at
/// `offset`, for one module; the sessions it yields are owned by libdwfl.
#[derive(Debug)]
pub struct Dwarfs<'dwfl> {
    pub dwfl: &'dwfl Dwfl,
    pub offset: isize,
}

impl<'dwfl> Dwarfs<'dwfl> {
    /// The next module's session, if any. `step` runs the native module
    /// enumeration from the given offset, stopping at the first module, and
    /// returns the native code (the offset to resume from) and the address
    /// of that module's session if it met one.
    pub fn next<S>(&mut self, step: S) -> (r: Option<Result<Dwarf<'dwfl>>>) where
        S: FnOnce(isize) -> (Result<isize>, Option<usize>),

        requires
            step.requires((old(self).offset,)),
        ensures
            final(self).dwfl == old(self).dwfl,
            exists|out: (Result<isize>, Option<usize>)|
                #[trigger] step.ensures((old(self).offset,), out) && match out.0 {
                    Ok(off) => {
                        &&& final(self).offset == off
                        &&& match out.1 {
                            Some(h) => r matches Some(Ok(d)) && d.handle() == h && d.spec_kind()
                                == DwarfKind::Raw,
                            None => r is None,
                        }
                    },
                    Err(e) => final(self).offset == old(self).offset && r == Some(
                        Err::<Dwarf<'dwfl>, Error>(e),
                    ),
                },
    {
        let (rc, found) = step(self.offset);
        match rc {
            Ok(off) => {
                self.offset = off;
                match found {
                    Some(h) => Some(Ok(Dwarf::from_raw(h))),
                    None => None,
                }
            },
            Err(e) => Some(Err(e)),
        }
    }
}

} // verus!
