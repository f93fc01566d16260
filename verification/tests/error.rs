use gpg_error::codes::{
    GPG_ERR_EINVAL, GPG_ERR_ENOENT, GPG_ERR_MISSING_ERRNO, GPG_ERR_NO_DATA, GPG_ERR_NO_ERROR,
    GPG_ERR_SOURCE_GPG, GPG_ERR_SOURCE_GPGME, GPG_ERR_SOURCE_UNKNOWN,
};
use gpg_error::Error;
use std::collections::HashSet;

#[test]
fn new_keeps_the_raw_value() {
    assert_eq!(Error::new(0).raw(), 0);
    assert_eq!(Error::new(117440570).raw(), 117440570);
    // bits outside the two fields are kept too
    assert_eq!(Error::new(0xffff_ffff).raw(), 0xffff_ffff);
}

#[test]
fn from_raw_value_is_new() {
    assert_eq!(Error::from(117440570u32), Error::new(117440570));
    let e: Error = 5u32.into();
    assert_eq!(e.raw(), 5);
}

#[test]
fn from_source_packs() {
    let e = Error::from_source(GPG_ERR_SOURCE_GPGME, GPG_ERR_NO_DATA);
    assert_eq!(e.raw(), 117440570);
    assert_eq!(e.code(), GPG_ERR_NO_DATA);
    assert_eq!(Error::from_source(GPG_ERR_SOURCE_GPGME, 0), Error::new(0));
}

#[test]
fn from_code_has_the_unknown_source() {
    let e = Error::from_code(GPG_ERR_EINVAL);
    assert_eq!(e.raw(), 32816);
    assert_eq!(e, Error::from_source(GPG_ERR_SOURCE_UNKNOWN, GPG_ERR_EINVAL));
    assert_eq!(Error::from_code(0x1_0005).raw(), 5);
}

#[test]
fn code_of_success_is_zero() {
    let e = Error::from_code(0);
    assert_eq!(e.code(), 0);
    assert_eq!(e, Error::new(GPG_ERR_NO_ERROR));
}

#[test]
fn missing_errno_with_unknown_source_is_its_code() {
    let e = Error::from_code(GPG_ERR_MISSING_ERRNO);
    assert_eq!(e, Error::new(GPG_ERR_MISSING_ERRNO));
    assert_eq!(e.raw(), 16381);
}

#[test]
fn code_ignores_the_other_bits() {
    assert_eq!(Error::new(0xffff_ffff).code(), 0xffff);
    assert_eq!(Error::new(0x0700_003a).code(), 58);
}

#[test]
fn with_source_keeps_the_code() {
    let e = Error::from_source(GPG_ERR_SOURCE_GPGME, GPG_ERR_ENOENT);
    let f = e.with_source(GPG_ERR_SOURCE_GPG);
    assert_eq!(f.raw(), (2 << 24) | 32849);
    assert_eq!(f.code(), e.code());
    assert_eq!(e.with_source(GPG_ERR_SOURCE_UNKNOWN), Error::new(GPG_ERR_ENOENT));
    // success stays success
    assert_eq!(Error::new(0).with_source(GPG_ERR_SOURCE_GPG), Error::new(0));
    // bits outside the fields are dropped
    assert_eq!(Error::new(0xffff_ffff).with_source(1).raw(), 0x0100_ffff);
}

#[test]
fn into_result_tells_success_from_failure() {
    assert_eq!(Error::new(0).into_result(), Ok(()));
    let e = Error::from_code(GPG_ERR_EINVAL);
    assert_eq!(e.into_result(), Err(e));
    // a source without a code is still not the value zero
    let odd = Error::new(1 << 24);
    assert_eq!(odd.into_result(), Err(odd));
}

#[test]
fn from_failed_integer_conversion_is_invalid_argument() {
    let failed = u8::try_from(300u32).unwrap_err();
    assert_eq!(Error::from(failed), Error::new(GPG_ERR_EINVAL));
}

#[test]
fn errors_compare_copy_and_hash_by_raw_value() {
    let a = Error::new(7);
    let b = a;
    assert_eq!(a, b);
    assert_ne!(a, Error::new(8));
    let mut set = HashSet::new();
    set.insert(a);
    set.insert(b);
    set.insert(Error::new(8));
    assert_eq!(set.len(), 2);
}

#[test]
fn source_names_on_the_type() {
    assert_eq!(Error::SOURCE_UNKNOWN, 0);
    assert_eq!(Error::SOURCE_GCRYPT, 1);
    assert_eq!(Error::SOURCE_GPGME, 7);
    assert_eq!(Error::SOURCE_ASSUAN, 15);
    assert_eq!(Error::SOURCE_ANY, 31);
    assert_eq!(Error::SOURCE_USER_1, 32);
    assert_eq!(Error::SOURCE_USER_4, 35);
}
