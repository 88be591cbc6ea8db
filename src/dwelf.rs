//! The outcomes of the queries for the links from an object to its separate
//! debug file (`.gnu_debuglink`) and to its alternate debug file
//! (`.gnu_debugaltlink`).
use vstd::prelude::*;

use crate::error::{Error, ErrorKind, Library, Result};

verus! {

/// The outcome of a debuglink query that found `found`. When nothing was
/// found, the ELF library's last-error code, read through `last_code`, tells
/// a missing section (zero) from a failure.
pub fn debuglink_result<T, C>(found: Option<T>, last_code: C) -> (r: Result<Option<T>>) where
    C: FnOnce() -> i32,

    requires
        found is None ==> last_code.requires(()),
    ensures
        found matches Some(t) ==> r == Ok::<Option<T>, Error>(Some(t)),
        found is None ==> exists|c: i32| #[trigger]
            last_code.ensures((), c) && if c == 0 {
                r == Ok::<Option<T>, Error>(None)
            } else {
                r matches Err(e) && e.kind == ErrorKind::Native(Library::Elf, c)
            },
{
    match found {
        Some(t) => Ok(Some(t)),
        None => match Error::check(Library::Elf, last_code()) {
            Some(e) => Err(e),
            None => Ok(None),
        },
    }
}

/// The outcome of a debugaltlink query that returned the build-id length
/// `len`: a failure when negative, nothing when zero, and otherwise the link
/// that `make` reads for that length.
pub fn debugaltlink_result<T, M, F>(len: isize, make: M, last: F) -> (r: Result<Option<T>>) where
    M: FnOnce(usize) -> T,
    F: FnOnce() -> Error,

    requires
        len > 0 ==> make.requires((len as usize,)),
        len < 0 ==> last.requires(()),
    ensures
        len < 0 ==> (r matches Err(e) && last.ensures((), e)),
        len == 0 ==> r == Ok::<Option<T>, Error>(None),
        len > 0 ==> (r matches Ok(Some(t)) && make.ensures((len as usize,), t)),
{
    if len < 0 {
        Err(last())
    } else if len > 0 {
        Ok(Some(make(len as usize)))
    } else {
        Ok(None)
    }
}

} // verus!
