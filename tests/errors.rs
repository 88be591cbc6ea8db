use elfutils::error::{Error, ErrorKind, IntoResult, Library};

fn dw_error() -> Error {
    Error::native(Library::Dw, 17)
}

#[test]
fn negative_int_is_sentinel() {
    let r = (-1i32).into_result(dw_error);
    let e = r.unwrap_err();
    assert_eq!(e.code(), Some(17));
    assert!(!e.is_io());
}

#[test]
fn zero_and_positive_ints_pass_through() {
    assert_eq!((0i32).into_result(dw_error).unwrap(), 0);
    assert_eq!((5i32).into_result(dw_error).unwrap(), 5);
    assert_eq!((i32::MAX).into_result(dw_error).unwrap(), i32::MAX);
}

#[test]
fn last_error_is_asked_only_on_sentinel() {
    let mut asked = 0u32;
    let r = (3isize).into_result(|| {
        asked += 1;
        dw_error()
    });
    assert_eq!(r.unwrap(), 3);
    assert_eq!(asked, 0);
    let r = (-2isize).into_result(|| {
        asked += 1;
        dw_error()
    });
    assert!(r.is_err());
    assert_eq!(asked, 1);
}

#[test]
fn null_handle_is_sentinel() {
    assert_eq!((0usize).into_result(dw_error).unwrap_err().code(), Some(17));
    assert_eq!((0x1000usize).into_result(dw_error).unwrap(), 0x1000);
}

#[test]
fn check_zero_is_no_error() {
    assert!(Error::check(Library::Elf, 0).is_none());
    let e = Error::check(Library::Dwfl, 4).unwrap();
    assert!(matches!(e.kind, ErrorKind::Native(Library::Dwfl, 4)));
}

#[test]
fn message_code_normalizes_zero() {
    assert_eq!(Error::native(Library::Dw, 0).message_code(), Some((Library::Dw, -1)));
    assert_eq!(Error::native(Library::Elf, 9).message_code(), Some((Library::Elf, 9)));
    assert_eq!(Error::native(Library::Dwfl, -1).message_code(), Some((Library::Dwfl, -1)));
}

#[test]
fn io_error_is_distinct_from_native() {
    let io = std::io::Error::new(std::io::ErrorKind::NotFound, "no such file");
    let e = Error::from(io);
    assert!(e.is_io());
    assert_eq!(e.code(), None);
    assert_eq!(e.message_code(), None);
    let n = Error::native(Library::Dw, 3);
    assert!(!n.is_io());
    assert_eq!(n.code(), Some(3));
}

#[test]
fn missing_file_is_an_io_error() {
    let opened: std::io::Result<u8> =
        Err(std::io::Error::new(std::io::ErrorKind::NotFound, "no such file"));
    let mut began = false;
    let r = elfutils::error::begin_over(
        opened,
        |_| {
            began = true;
            0x10
        },
        dw_error,
    );
    let e = r.unwrap_err();
    assert!(e.is_io());
    assert!(matches!(&e.kind, ErrorKind::Io(io) if io.kind() == std::io::ErrorKind::NotFound));
    assert!(!began);
}

#[test]
fn unrecognized_content_is_a_native_error() {
    let r = elfutils::error::begin_over(Ok(7u8), |_| 0, dw_error);
    let e = r.unwrap_err();
    assert!(!e.is_io());
    assert_eq!(e.code(), Some(17));
}

#[test]
fn begun_handle_keeps_the_resource() {
    let r = elfutils::error::begin_over(Ok(7u8), |res| 0x1000 + *res as usize, dw_error);
    assert_eq!(r.unwrap(), (0x1007, 7));
}
