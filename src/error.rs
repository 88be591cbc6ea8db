//! Errors reported by the native libraries, and the mapping from their
//! sentinel return values to typed results.
use vstd::prelude::*;

verus! {

/// Declares std's I/O error, which an error of this library may carry when
/// the backing file of a session could not be opened.
#[verifier::external_type_specification]
#[verifier::external_body]
pub struct ExIoError(std::io::Error);

/// The native library whose thread-local error state an error code was read from.
#[derive(Debug, Clone, Copy, PartialEq, Eq, Structural)]
pub enum Library {
    Dw,
    Elf,
    Dwfl,
}

/// What went wrong: a code from a native library's last-error accessor, or an
/// I/O failure while opening a backing file.
#[derive(Debug)]
pub enum ErrorKind {
    Native(Library, i32),
    Io(std::io::Error),
}

/// A typed failure of a wrapper operation.
#[derive(Debug)]
pub struct Error {
    pub kind: ErrorKind,
}

/// Result of a fallible wrapper operation.
pub type Result<T> = core::result::Result<T, Error>;

/// The code that a native message lookup is asked for: zero, which the
/// lookup treats ambiguously, stands for the "no error" probe value -1.
pub open spec fn spec_message_code(code: i32) -> i32 {
    if code == 0 {
        -1i32
    } else {
        code
    }
}

impl Error {
    /// An error carrying a code read from `lib`'s last-error accessor.
    pub fn native(lib: Library, code: i32) -> (r: Error)
        ensures
            r.kind == ErrorKind::Native(lib, code),
    {
        Error { kind: ErrorKind::Native(lib, code) }
    }

    /// The error that a last-error code stands for: none when the code is zero.
    pub fn check(lib: Library, code: i32) -> (r: Option<Error>)
        ensures
            code == 0 ==> r is None,
            code != 0 ==> (r matches Some(e) && e.kind == ErrorKind::Native(lib, code)),
    {
        if code == 0 {
            None
        } else {
            Some(Error::native(lib, code))
        }
    }

    /// Whether this error came from the file system rather than a native library.
    pub fn is_io(&self) -> (r: bool)
        ensures
            r == (self.kind is Io),
    {
        match &self.kind {
            ErrorKind::Io(_) => true,
            ErrorKind::Native(_, _) => false,
        }
    }

    /// The native code of this error, if a native library reported it.
    pub fn code(&self) -> (r: Option<i32>)
        ensures
            match self.kind {
                ErrorKind::Native(_, c) => r == Some(c),
                ErrorKind::Io(_) => r is None,
            },
    {
        match &self.kind {
            ErrorKind::Native(_, c) => Some(*c),
            ErrorKind::Io(_) => None,
        }
    }

    /// The library and code to look this error's message up with, zero
    /// normalized to the "no error" probe value; none for an I/O error.
    pub fn message_code(&self) -> (r: Option<(Library, i32)>)
        ensures
            match self.kind {
                ErrorKind::Native(lib, c) => r == Some((lib, spec_message_code(c))),
                ErrorKind::Io(_) => r is None,
            },
    {
        match &self.kind {
            ErrorKind::Native(lib, c) => {
                let code: i32 = if *c == 0 {
                    -1
                } else {
                    *c
                };
                Some((*lib, code))
            },
            ErrorKind::Io(_) => None,
        }
    }
}

impl From<std::io::Error> for Error {
    fn from(e: std::io::Error) -> (r: Error) {
        Error { kind: ErrorKind::Io(e) }
    }
}

impl vstd::std_specs::convert::FromSpecImpl<std::io::Error> for Error {
    open spec fn obeys_from_spec() -> bool {
        true
    }

    open spec fn from_spec(e: std::io::Error) -> Error {
        Error { kind: ErrorKind::Io(e) }
    }
}

/// Begins a native handle over a resource that was opened for it, keeping
/// the resource. A failure to open is reported as that I/O error; otherwise
/// `begin` begins the handle over the resource and returns its address, and
/// the null address is reported as the error that `last` reads from the
/// native library.
pub fn begin_over<R, B, F>(opened: core::result::Result<R, std::io::Error>, begin: B, last: F) -> (r:
    Result<(usize, R)>) where
    B: FnOnce(&R) -> usize,
    F: FnOnce() -> Error,

    requires
        opened matches Ok(res) ==> begin.requires((&res,)),
        last.requires(()),
    ensures
        opened matches Err(io) ==> (r matches Err(e) && e.kind == ErrorKind::Io(io)),
        opened matches Ok(res) ==> exists|h: usize| #[trigger]
            begin.ensures((&res,), h) && if h == 0 {
                r matches Err(e) && last.ensures((), e)
            } else {
                r == Ok::<(usize, R), Error>((h, res))
            },
{
    match opened {
        Err(io) => Err(Error::from(io)),
        Ok(res) => {
            let h = begin(&res);
            if h == 0 {
                Err(last())
            } else {
                Ok((h, res))
            }
        },
    }
}

/// A native return value that may be a failure sentinel. On a sentinel the
/// last-error accessor is asked, through `last`, for the error to report;
/// any other value is passed through untouched.
pub trait IntoResult: Sized {
    fn into_result<F: FnOnce() -> Error>(self, last: F) -> (r: Result<Self>)
        requires
            last.requires(()),
    ;
}

impl IntoResult for i32 {
    /// A negative integer is the sentinel.
    fn into_result<F: FnOnce() -> Error>(self, last: F) -> (r: Result<i32>)
        ensures
            self >= 0 ==> r == Ok::<i32, Error>(self),
            self < 0 ==> (r matches Err(e) && last.ensures((), e)),
    {
        if self < 0 {
            Err(last())
        } else {
            Ok(self)
        }
    }
}

impl IntoResult for isize {
    /// A negative integer is the sentinel.
    fn into_result<F: FnOnce() -> Error>(self, last: F) -> (r: Result<isize>)
        ensures
            self >= 0 ==> r == Ok::<isize, Error>(self),
            self < 0 ==> (r matches Err(e) && last.ensures((), e)),
    {
        if self < 0 {
            Err(last())
        } else {
            Ok(self)
        }
    }
}

impl IntoResult for usize {
    /// The address of a native object; zero, the null pointer, is the sentinel.
    fn into_result<F: FnOnce() -> Error>(self, last: F) -> (r: Result<usize>)
        ensures
            self != 0 ==> r == Ok::<usize, Error>(self),
            self == 0 ==> (r matches Err(e) && last.ensures((), e)),
    {
        if self == 0 {
            Err(last())
        } else {
            Ok(self)
        }
    }
}

} // verus!
