use gpg_error::codes::{
    GPG_ERR_DNS_TIMEOUT, GPG_ERR_E2BIG, GPG_ERR_EACCES, GPG_ERR_EADDRINUSE,
    GPG_ERR_EADDRNOTAVAIL, GPG_ERR_EAFNOSUPPORT, GPG_ERR_EAGAIN, GPG_ERR_ECONNABORTED,
    GPG_ERR_ECONNREFUSED, GPG_ERR_ECONNRESET, GPG_ERR_EDOM, GPG_ERR_EEXIST, GPG_ERR_EINTR,
    GPG_ERR_EINVAL, GPG_ERR_EIO, GPG_ERR_ENODEV, GPG_ERR_ENOENT, GPG_ERR_ENOMEM, GPG_ERR_ENOSYS,
    GPG_ERR_ENOTCONN, GPG_ERR_ENOTSUP, GPG_ERR_ENXIO, GPG_ERR_EOF, GPG_ERR_EOPNOTSUPP,
    GPG_ERR_EPERM, GPG_ERR_EPIPE, GPG_ERR_EPROTONOSUPPORT, GPG_ERR_ESRCH, GPG_ERR_ETIMEDOUT,
    GPG_ERR_EWOULDBLOCK, GPG_ERR_GENERAL, GPG_ERR_LDAP_ALREADY_EXISTS,
    GPG_ERR_LDAP_NOT_SUPPORTED, GPG_ERR_LDAP_NO_MEMORY, GPG_ERR_LDAP_NO_RESULTS,
    GPG_ERR_LDAP_TIMEOUT, GPG_ERR_NOT_SUPPORTED, GPG_ERR_NO_ERROR, GPG_ERR_SOURCE_GPGME,
    GPG_ERR_SQL_INTERRUPT, GPG_ERR_SQL_NOMEM, GPG_ERR_SQL_NOTFOUND, GPG_ERR_SQL_PERM,
    GPG_ERR_TIMEOUT,
};
use gpg_error::Error;
use std::io::ErrorKind;

fn kind(code: u32) -> ErrorKind {
    Error::from_code(code).io_kind()
}

#[test]
fn kinds_of_connection_errors() {
    assert_eq!(kind(GPG_ERR_EADDRINUSE), ErrorKind::AddrInUse);
    assert_eq!(kind(GPG_ERR_EADDRNOTAVAIL), ErrorKind::AddrNotAvailable);
    assert_eq!(kind(GPG_ERR_ECONNABORTED), ErrorKind::ConnectionAborted);
    assert_eq!(kind(GPG_ERR_ECONNREFUSED), ErrorKind::ConnectionRefused);
    assert_eq!(kind(GPG_ERR_ECONNRESET), ErrorKind::ConnectionReset);
    assert_eq!(kind(GPG_ERR_ENOTCONN), ErrorKind::NotConnected);
    assert_eq!(kind(GPG_ERR_EPIPE), ErrorKind::BrokenPipe);
}

#[test]
fn kinds_with_several_codes() {
    for code in [GPG_ERR_EEXIST, GPG_ERR_LDAP_ALREADY_EXISTS] {
        assert_eq!(kind(code), ErrorKind::AlreadyExists);
    }
    for code in [GPG_ERR_EINTR, GPG_ERR_SQL_INTERRUPT] {
        assert_eq!(kind(code), ErrorKind::Interrupted);
    }
    for code in [GPG_ERR_EINVAL, GPG_ERR_EDOM] {
        assert_eq!(kind(code), ErrorKind::InvalidInput);
    }
    for code in [
        GPG_ERR_ENOENT,
        GPG_ERR_ENODEV,
        GPG_ERR_ENXIO,
        GPG_ERR_ESRCH,
        GPG_ERR_LDAP_NO_RESULTS,
        GPG_ERR_SQL_NOTFOUND,
    ] {
        assert_eq!(kind(code), ErrorKind::NotFound);
    }
    for code in [GPG_ERR_ENOMEM, GPG_ERR_LDAP_NO_MEMORY, GPG_ERR_SQL_NOMEM] {
        assert_eq!(kind(code), ErrorKind::OutOfMemory);
    }
    for code in [
        GPG_ERR_ENOSYS,
        GPG_ERR_ENOTSUP,
        GPG_ERR_EOPNOTSUPP,
        GPG_ERR_EAFNOSUPPORT,
        GPG_ERR_EPROTONOSUPPORT,
        GPG_ERR_NOT_SUPPORTED,
        GPG_ERR_LDAP_NOT_SUPPORTED,
    ] {
        assert_eq!(kind(code), ErrorKind::Unsupported);
    }
    for code in [GPG_ERR_EACCES, GPG_ERR_EPERM, GPG_ERR_SQL_PERM] {
        assert_eq!(kind(code), ErrorKind::PermissionDenied);
    }
    for code in [GPG_ERR_ETIMEDOUT, GPG_ERR_TIMEOUT, GPG_ERR_DNS_TIMEOUT, GPG_ERR_LDAP_TIMEOUT] {
        assert_eq!(kind(code), ErrorKind::TimedOut);
    }
    for code in [GPG_ERR_EAGAIN, GPG_ERR_EWOULDBLOCK] {
        assert_eq!(kind(code), ErrorKind::WouldBlock);
    }
}

#[test]
fn codes_without_a_kind_are_other() {
    for code in [GPG_ERR_NO_ERROR, GPG_ERR_GENERAL, GPG_ERR_EOF, GPG_ERR_EIO, GPG_ERR_E2BIG] {
        assert_eq!(kind(code), ErrorKind::Other);
    }
}

#[test]
fn kind_does_not_depend_on_the_source() {
    for source in 0..128u32 {
        let e = Error::from_source(source, GPG_ERR_ENOENT);
        assert_eq!(e.io_kind(), ErrorKind::NotFound);
    }
    // nor on bits outside the two fields
    assert_eq!(Error::new(0xffff_0000 | GPG_ERR_EPIPE).io_kind(), ErrorKind::BrokenPipe);
}

#[test]
fn error_of_each_kind() {
    let table = [
        (ErrorKind::AddrInUse, GPG_ERR_EADDRINUSE),
        (ErrorKind::AddrNotAvailable, GPG_ERR_EADDRNOTAVAIL),
        (ErrorKind::AlreadyExists, GPG_ERR_EEXIST),
        (ErrorKind::BrokenPipe, GPG_ERR_EPIPE),
        (ErrorKind::ConnectionAborted, GPG_ERR_ECONNABORTED),
        (ErrorKind::ConnectionRefused, GPG_ERR_ECONNREFUSED),
        (ErrorKind::ConnectionReset, GPG_ERR_ECONNRESET),
        (ErrorKind::Interrupted, GPG_ERR_EINTR),
        (ErrorKind::InvalidInput, GPG_ERR_EINVAL),
        (ErrorKind::NotConnected, GPG_ERR_ENOTCONN),
        (ErrorKind::NotFound, GPG_ERR_ENOENT),
        (ErrorKind::OutOfMemory, GPG_ERR_ENOMEM),
        (ErrorKind::PermissionDenied, GPG_ERR_EACCES),
        (ErrorKind::TimedOut, GPG_ERR_ETIMEDOUT),
        (ErrorKind::Unsupported, GPG_ERR_ENOSYS),
        (ErrorKind::WouldBlock, GPG_ERR_EWOULDBLOCK),
    ];
    for (kind, code) in table {
        let e = Error::from_io_kind(kind);
        assert_eq!(e, Error::new(code));
        // and back again
        assert_eq!(e.io_kind(), kind);
    }
}

#[test]
fn kinds_without_a_code_are_input_output_errors() {
    for kind in [ErrorKind::Other, ErrorKind::UnexpectedEof, ErrorKind::InvalidData] {
        let e = Error::from_io_kind(kind);
        assert_eq!(e, Error::new(GPG_ERR_EIO));
        assert_eq!(e.raw(), 32817);
        assert_eq!(e.io_kind(), ErrorKind::Other);
    }
}

#[test]
fn kind_of_an_error_from_another_source() {
    let e = Error::from_source(GPG_ERR_SOURCE_GPGME, GPG_ERR_ETIMEDOUT);
    assert_eq!(e.raw(), (7 << 24) | 32901);
    assert_eq!(e.io_kind(), ErrorKind::TimedOut);
}
