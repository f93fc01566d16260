//! Numeric constants: the layout of an error value, the error sources, and
//! the error codes that the rules of this library speak of.
//!
//! A source is a number below 128 that names the component an error came
//! from. A code is a number below 65536 that names what went wrong. Codes with
//! the [`GPG_ERR_SYSTEM_ERROR`] bit set stand for system error numbers; their
//! low bits are an index that is the same on every platform, unlike the
//! platform's own `errno` values. All of those are named here; of the other
//! codes, only the ones that this library classes or hands out.

use vstd::prelude::*;

verus! {

/// An error source, as a plain number.
pub type ErrorSource = u32;

/// An error code, as a plain number.
pub type ErrorCode = u32;

/// Number of distinct error sources.
pub const GPG_ERR_SOURCE_DIM: u32 = 128;

/// Mask that selects a source once it is shifted down.
pub const GPG_ERR_SOURCE_MASK: u32 = 127;

/// Position of the source field inside an error value.
pub const GPG_ERR_SOURCE_SHIFT: u32 = 24;

/// Flag bit that marks a code as standing for a system error number.
pub const GPG_ERR_SYSTEM_ERROR: u32 = 32768;

/// Number of distinct error codes.
pub const GPG_ERR_CODE_DIM: u32 = 65536;

/// Mask that selects the code field of an error value.
pub const GPG_ERR_CODE_MASK: u32 = 65535;

// Error sources.

/// Source: unspecified source.
pub const GPG_ERR_SOURCE_UNKNOWN: ErrorSource = 0;

/// Source: gcrypt.
pub const GPG_ERR_SOURCE_GCRYPT: ErrorSource = 1;

/// Source: GnuPG.
pub const GPG_ERR_SOURCE_GPG: ErrorSource = 2;

/// Source: GpgSM.
pub const GPG_ERR_SOURCE_GPGSM: ErrorSource = 3;

/// Source: GPG Agent.
pub const GPG_ERR_SOURCE_GPGAGENT: ErrorSource = 4;

/// Source: Pinentry.
pub const GPG_ERR_SOURCE_PINENTRY: ErrorSource = 5;

/// Source: SCD.
pub const GPG_ERR_SOURCE_SCD: ErrorSource = 6;

/// Source: the GPGME library.
pub const GPG_ERR_SOURCE_GPGME: ErrorSource = 7;

/// Source: Keybox.
pub const GPG_ERR_SOURCE_KEYBOX: ErrorSource = 8;

/// Source: KSBA.
pub const GPG_ERR_SOURCE_KSBA: ErrorSource = 9;

/// Source: Dirmngr.
pub const GPG_ERR_SOURCE_DIRMNGR: ErrorSource = 10;

/// Source: GSTI.
pub const GPG_ERR_SOURCE_GSTI: ErrorSource = 11;

/// Source: GPA.
pub const GPG_ERR_SOURCE_GPA: ErrorSource = 12;

/// Source: Kleopatra.
pub const GPG_ERR_SOURCE_KLEO: ErrorSource = 13;

/// Source: G13.
pub const GPG_ERR_SOURCE_G13: ErrorSource = 14;

/// Source: Assuan.
pub const GPG_ERR_SOURCE_ASSUAN: ErrorSource = 15;

/// Source: TPM2d.
pub const GPG_ERR_SOURCE_TPM2D: ErrorSource = 16;

/// Source: TLS.
pub const GPG_ERR_SOURCE_TLS: ErrorSource = 17;

/// Source: Tkd.
pub const GPG_ERR_SOURCE_TKD: ErrorSource = 18;

/// Source: any source.
pub const GPG_ERR_SOURCE_ANY: ErrorSource = 31;

/// Source: the first application-defined source.
pub const GPG_ERR_SOURCE_USER_1: ErrorSource = 32;

/// Source: the second application-defined source.
pub const GPG_ERR_SOURCE_USER_2: ErrorSource = 33;

/// Source: the third application-defined source.
pub const GPG_ERR_SOURCE_USER_3: ErrorSource = 34;

/// Source: the fourth application-defined source.
pub const GPG_ERR_SOURCE_USER_4: ErrorSource = 35;

// Error codes that are no system errors.

/// Success.
pub const GPG_ERR_NO_ERROR: ErrorCode = 0;

/// General error.
pub const GPG_ERR_GENERAL: ErrorCode = 1;

/// No data.
pub const GPG_ERR_NO_DATA: ErrorCode = 58;

/// Not supported.
pub const GPG_ERR_NOT_SUPPORTED: ErrorCode = 60;

/// Timeout.
pub const GPG_ERR_TIMEOUT: ErrorCode = 62;

/// Timeout in a DNS lookup.
pub const GPG_ERR_DNS_TIMEOUT: ErrorCode = 718;

/// No LDAP results returned.
pub const GPG_ERR_LDAP_NO_RESULTS: ErrorCode = 754;

/// Not supported by LDAP.
pub const GPG_ERR_LDAP_NOT_SUPPORTED: ErrorCode = 756;

/// Out of memory in LDAP.
pub const GPG_ERR_LDAP_NO_MEMORY: ErrorCode = 758;

/// Timeout in LDAP.
pub const GPG_ERR_LDAP_TIMEOUT: ErrorCode = 763;

/// LDAP entry already exists.
pub const GPG_ERR_LDAP_ALREADY_EXISTS: ErrorCode = 836;

/// SQL access permission denied.
pub const GPG_ERR_SQL_PERM: ErrorCode = 1503;

/// SQL out of memory.
pub const GPG_ERR_SQL_NOMEM: ErrorCode = 1507;

/// SQL operation interrupted.
pub const GPG_ERR_SQL_INTERRUPT: ErrorCode = 1509;

/// SQL unknown opcode or table not found.
pub const GPG_ERR_SQL_NOTFOUND: ErrorCode = 1512;

/// A system error was reported although the system error number is zero.
pub const GPG_ERR_MISSING_ERRNO: ErrorCode = 16381;

/// A system error number that has no code of its own.
pub const GPG_ERR_UNKNOWN_ERRNO: ErrorCode = 16382;

/// End of file.
pub const GPG_ERR_EOF: ErrorCode = 16383;

// System error codes: the flag and the index of the error number.

/// System error `E2BIG`.
pub const GPG_ERR_E2BIG: ErrorCode = GPG_ERR_SYSTEM_ERROR + 0;

/// System error `EACCES`.
pub const GPG_ERR_EACCES: ErrorCode = GPG_ERR_SYSTEM_ERROR + 1;

/// System error `EADDRINUSE`.
pub const GPG_ERR_EADDRINUSE: ErrorCode = GPG_ERR_SYSTEM_ERROR + 2;

/// System error `EADDRNOTAVAIL`.
pub const GPG_ERR_EADDRNOTAVAIL: ErrorCode = GPG_ERR_SYSTEM_ERROR + 3;

/// System error `EADV`.
pub const GPG_ERR_EADV: ErrorCode = GPG_ERR_SYSTEM_ERROR + 4;

/// System error `EAFNOSUPPORT`.
pub const GPG_ERR_EAFNOSUPPORT: ErrorCode = GPG_ERR_SYSTEM_ERROR + 5;

/// System error `EAGAIN`.
pub const GPG_ERR_EAGAIN: ErrorCode = GPG_ERR_SYSTEM_ERROR + 6;

/// System error `EALREADY`.
pub const GPG_ERR_EALREADY: ErrorCode = GPG_ERR_SYSTEM_ERROR + 7;

/// System error `EAUTH`.
pub const GPG_ERR_EAUTH: ErrorCode = GPG_ERR_SYSTEM_ERROR + 8;

/// System error `EBACKGROUND`.
pub const GPG_ERR_EBACKGROUND: ErrorCode = GPG_ERR_SYSTEM_ERROR + 9;

/// System error `EBADE`.
pub const GPG_ERR_EBADE: ErrorCode = GPG_ERR_SYSTEM_ERROR + 10;

/// System error `EBADF`.
pub const GPG_ERR_EBADF: ErrorCode = GPG_ERR_SYSTEM_ERROR + 11;

/// System error `EBADFD`.
pub const GPG_ERR_EBADFD: ErrorCode = GPG_ERR_SYSTEM_ERROR + 12;

/// System error `EBADMSG`.
pub const GPG_ERR_EBADMSG: ErrorCode = GPG_ERR_SYSTEM_ERROR + 13;

/// System error `EBADR`.
pub const GPG_ERR_EBADR: ErrorCode = GPG_ERR_SYSTEM_ERROR + 14;

/// System error `EBADRPC`.
pub const GPG_ERR_EBADRPC: ErrorCode = GPG_ERR_SYSTEM_ERROR + 15;

/// System error `EBADRQC`.
pub const GPG_ERR_EBADRQC: ErrorCode = GPG_ERR_SYSTEM_ERROR + 16;

/// System error `EBADSLT`.
pub const GPG_ERR_EBADSLT: ErrorCode = GPG_ERR_SYSTEM_ERROR + 17;

/// System error `EBFONT`.
pub const GPG_ERR_EBFONT: ErrorCode = GPG_ERR_SYSTEM_ERROR + 18;

/// System error `EBUSY`.
pub const GPG_ERR_EBUSY: ErrorCode = GPG_ERR_SYSTEM_ERROR + 19;

/// System error `ECANCELED`.
pub const GPG_ERR_ECANCELED: ErrorCode = GPG_ERR_SYSTEM_ERROR + 20;

/// System error `ECHILD`.
pub const GPG_ERR_ECHILD: ErrorCode = GPG_ERR_SYSTEM_ERROR + 21;

/// System error `ECHRNG`.
pub const GPG_ERR_ECHRNG: ErrorCode = GPG_ERR_SYSTEM_ERROR + 22;

/// System error `ECOMM`.
pub const GPG_ERR_ECOMM: ErrorCode = GPG_ERR_SYSTEM_ERROR + 23;

/// System error `ECONNABORTED`.
pub const GPG_ERR_ECONNABORTED: ErrorCode = GPG_ERR_SYSTEM_ERROR + 24;

/// System error `ECONNREFUSED`.
pub const GPG_ERR_ECONNREFUSED: ErrorCode = GPG_ERR_SYSTEM_ERROR + 25;

/// System error `ECONNRESET`.
pub const GPG_ERR_ECONNRESET: ErrorCode = GPG_ERR_SYSTEM_ERROR + 26;

/// System error `ED`.
pub const GPG_ERR_ED: ErrorCode = GPG_ERR_SYSTEM_ERROR + 27;

/// System error `EDEADLK`.
pub const GPG_ERR_EDEADLK: ErrorCode = GPG_ERR_SYSTEM_ERROR + 28;

/// System error `EDEADLOCK`.
pub const GPG_ERR_EDEADLOCK: ErrorCode = GPG_ERR_SYSTEM_ERROR + 29;

/// System error `EDESTADDRREQ`.
pub const GPG_ERR_EDESTADDRREQ: ErrorCode = GPG_ERR_SYSTEM_ERROR + 30;

/// System error `EDIED`.
pub const GPG_ERR_EDIED: ErrorCode = GPG_ERR_SYSTEM_ERROR + 31;

/// System error `EDOM`.
pub const GPG_ERR_EDOM: ErrorCode = GPG_ERR_SYSTEM_ERROR + 32;

/// System error `EDOTDOT`.
pub const GPG_ERR_EDOTDOT: ErrorCode = GPG_ERR_SYSTEM_ERROR + 33;

/// System error `EDQUOT`.
pub const GPG_ERR_EDQUOT: ErrorCode = GPG_ERR_SYSTEM_ERROR + 34;

/// System error `EEXIST`.
pub const GPG_ERR_EEXIST: ErrorCode = GPG_ERR_SYSTEM_ERROR + 35;

/// System error `EFAULT`.
pub const GPG_ERR_EFAULT: ErrorCode = GPG_ERR_SYSTEM_ERROR + 36;

/// System error `EFBIG`.
pub const GPG_ERR_EFBIG: ErrorCode = GPG_ERR_SYSTEM_ERROR + 37;

/// System error `EFTYPE`.
pub const GPG_ERR_EFTYPE: ErrorCode = GPG_ERR_SYSTEM_ERROR + 38;

/// System error `EGRATUITOUS`.
pub const GPG_ERR_EGRATUITOUS: ErrorCode = GPG_ERR_SYSTEM_ERROR + 39;

/// System error `EGREGIOUS`.
pub const GPG_ERR_EGREGIOUS: ErrorCode = GPG_ERR_SYSTEM_ERROR + 40;

/// System error `EHOSTDOWN`.
pub const GPG_ERR_EHOSTDOWN: ErrorCode = GPG_ERR_SYSTEM_ERROR + 41;

/// System error `EHOSTUNREACH`.
pub const GPG_ERR_EHOSTUNREACH: ErrorCode = GPG_ERR_SYSTEM_ERROR + 42;

/// System error `EIDRM`.
pub const GPG_ERR_EIDRM: ErrorCode = GPG_ERR_SYSTEM_ERROR + 43;

/// System error `EIEIO`.
pub const GPG_ERR_EIEIO: ErrorCode = GPG_ERR_SYSTEM_ERROR + 44;

/// System error `EILSEQ`.
pub const GPG_ERR_EILSEQ: ErrorCode = GPG_ERR_SYSTEM_ERROR + 45;

/// System error `EINPROGRESS`.
pub const GPG_ERR_EINPROGRESS: ErrorCode = GPG_ERR_SYSTEM_ERROR + 46;

/// System error `EINTR`.
pub const GPG_ERR_EINTR: ErrorCode = GPG_ERR_SYSTEM_ERROR + 47;

/// System error `EINVAL`.
pub const GPG_ERR_EINVAL: ErrorCode = GPG_ERR_SYSTEM_ERROR + 48;

/// System error `EIO`.
pub const GPG_ERR_EIO: ErrorCode = GPG_ERR_SYSTEM_ERROR + 49;

/// System error `EISCONN`.
pub const GPG_ERR_EISCONN: ErrorCode = GPG_ERR_SYSTEM_ERROR + 50;

/// System error `EISDIR`.
pub const GPG_ERR_EISDIR: ErrorCode = GPG_ERR_SYSTEM_ERROR + 51;

/// System error `EISNAM`.
pub const GPG_ERR_EISNAM: ErrorCode = GPG_ERR_SYSTEM_ERROR + 52;

/// System error `EL2HLT`.
pub const GPG_ERR_EL2HLT: ErrorCode = GPG_ERR_SYSTEM_ERROR + 53;

/// System error `EL2NSYNC`.
pub const GPG_ERR_EL2NSYNC: ErrorCode = GPG_ERR_SYSTEM_ERROR + 54;

/// System error `EL3HLT`.
pub const GPG_ERR_EL3HLT: ErrorCode = GPG_ERR_SYSTEM_ERROR + 55;

/// System error `EL3RST`.
pub const GPG_ERR_EL3RST: ErrorCode = GPG_ERR_SYSTEM_ERROR + 56;

/// System error `ELIBACC`.
pub const GPG_ERR_ELIBACC: ErrorCode = GPG_ERR_SYSTEM_ERROR + 57;

/// System error `ELIBBAD`.
pub const GPG_ERR_ELIBBAD: ErrorCode = GPG_ERR_SYSTEM_ERROR + 58;

/// System error `ELIBEXEC`.
pub const GPG_ERR_ELIBEXEC: ErrorCode = GPG_ERR_SYSTEM_ERROR + 59;

/// System error `ELIBMAX`.
pub const GPG_ERR_ELIBMAX: ErrorCode = GPG_ERR_SYSTEM_ERROR + 60;

/// System error `ELIBSCN`.
pub const GPG_ERR_ELIBSCN: ErrorCode = GPG_ERR_SYSTEM_ERROR + 61;

/// System error `ELNRNG`.
pub const GPG_ERR_ELNRNG: ErrorCode = GPG_ERR_SYSTEM_ERROR + 62;

/// System error `ELOOP`.
pub const GPG_ERR_ELOOP: ErrorCode = GPG_ERR_SYSTEM_ERROR + 63;

/// System error `EMEDIUMTYPE`.
pub const GPG_ERR_EMEDIUMTYPE: ErrorCode = GPG_ERR_SYSTEM_ERROR + 64;

/// System error `EMFILE`.
pub const GPG_ERR_EMFILE: ErrorCode = GPG_ERR_SYSTEM_ERROR + 65;

/// System error `EMLINK`.
pub const GPG_ERR_EMLINK: ErrorCode = GPG_ERR_SYSTEM_ERROR + 66;

/// System error `EMSGSIZE`.
pub const GPG_ERR_EMSGSIZE: ErrorCode = GPG_ERR_SYSTEM_ERROR + 67;

/// System error `EMULTIHOP`.
pub const GPG_ERR_EMULTIHOP: ErrorCode = GPG_ERR_SYSTEM_ERROR + 68;

/// System error `ENAMETOOLONG`.
pub const GPG_ERR_ENAMETOOLONG: ErrorCode = GPG_ERR_SYSTEM_ERROR + 69;

/// System error `ENAVAIL`.
pub const GPG_ERR_ENAVAIL: ErrorCode = GPG_ERR_SYSTEM_ERROR + 70;

/// System error `ENEEDAUTH`.
pub const GPG_ERR_ENEEDAUTH: ErrorCode = GPG_ERR_SYSTEM_ERROR + 71;

/// System error `ENETDOWN`.
pub const GPG_ERR_ENETDOWN: ErrorCode = GPG_ERR_SYSTEM_ERROR + 72;

/// System error `ENETRESET`.
pub const GPG_ERR_ENETRESET: ErrorCode = GPG_ERR_SYSTEM_ERROR + 73;

/// System error `ENETUNREACH`.
pub const GPG_ERR_ENETUNREACH: ErrorCode = GPG_ERR_SYSTEM_ERROR + 74;

/// System error `ENFILE`.
pub const GPG_ERR_ENFILE: ErrorCode = GPG_ERR_SYSTEM_ERROR + 75;

/// System error `ENOANO`.
pub const GPG_ERR_ENOANO: ErrorCode = GPG_ERR_SYSTEM_ERROR + 76;

/// System error `ENOBUFS`.
pub const GPG_ERR_ENOBUFS: ErrorCode = GPG_ERR_SYSTEM_ERROR + 77;

/// System error `ENOCSI`.
pub const GPG_ERR_ENOCSI: ErrorCode = GPG_ERR_SYSTEM_ERROR + 78;

/// System error `ENODATA`.
pub const GPG_ERR_ENODATA: ErrorCode = GPG_ERR_SYSTEM_ERROR + 79;

/// System error `ENODEV`.
pub const GPG_ERR_ENODEV: ErrorCode = GPG_ERR_SYSTEM_ERROR + 80;

/// System error `ENOENT`.
pub const GPG_ERR_ENOENT: ErrorCode = GPG_ERR_SYSTEM_ERROR + 81;

/// System error `ENOEXEC`.
pub const GPG_ERR_ENOEXEC: ErrorCode = GPG_ERR_SYSTEM_ERROR + 82;

/// System error `ENOLCK`.
pub const GPG_ERR_ENOLCK: ErrorCode = GPG_ERR_SYSTEM_ERROR + 83;

/// System error `ENOLINK`.
pub const GPG_ERR_ENOLINK: ErrorCode = GPG_ERR_SYSTEM_ERROR + 84;

/// System error `ENOMEDIUM`.
pub const GPG_ERR_ENOMEDIUM: ErrorCode = GPG_ERR_SYSTEM_ERROR + 85;

/// System error `ENOMEM`.
pub const GPG_ERR_ENOMEM: ErrorCode = GPG_ERR_SYSTEM_ERROR + 86;

/// System error `ENOMSG`.
pub const GPG_ERR_ENOMSG: ErrorCode = GPG_ERR_SYSTEM_ERROR + 87;

/// System error `ENONET`.
pub const GPG_ERR_ENONET: ErrorCode = GPG_ERR_SYSTEM_ERROR + 88;

/// System error `ENOPKG`.
pub const GPG_ERR_ENOPKG: ErrorCode = GPG_ERR_SYSTEM_ERROR + 89;

/// System error `ENOPROTOOPT`.
pub const GPG_ERR_ENOPROTOOPT: ErrorCode = GPG_ERR_SYSTEM_ERROR + 90;

/// System error `ENOSPC`.
pub const GPG_ERR_ENOSPC: ErrorCode = GPG_ERR_SYSTEM_ERROR + 91;

/// System error `ENOSR`.
pub const GPG_ERR_ENOSR: ErrorCode = GPG_ERR_SYSTEM_ERROR + 92;

/// System error `ENOSTR`.
pub const GPG_ERR_ENOSTR: ErrorCode = GPG_ERR_SYSTEM_ERROR + 93;

/// System error `ENOSYS`.
pub const GPG_ERR_ENOSYS: ErrorCode = GPG_ERR_SYSTEM_ERROR + 94;

/// System error `ENOTBLK`.
pub const GPG_ERR_ENOTBLK: ErrorCode = GPG_ERR_SYSTEM_ERROR + 95;

/// System error `ENOTCONN`.
pub const GPG_ERR_ENOTCONN: ErrorCode = GPG_ERR_SYSTEM_ERROR + 96;

/// System error `ENOTDIR`.
pub const GPG_ERR_ENOTDIR: ErrorCode = GPG_ERR_SYSTEM_ERROR + 97;

/// System error `ENOTEMPTY`.
pub const GPG_ERR_ENOTEMPTY: ErrorCode = GPG_ERR_SYSTEM_ERROR + 98;

/// System error `ENOTNAM`.
pub const GPG_ERR_ENOTNAM: ErrorCode = GPG_ERR_SYSTEM_ERROR + 99;

/// System error `ENOTSOCK`.
pub const GPG_ERR_ENOTSOCK: ErrorCode = GPG_ERR_SYSTEM_ERROR + 100;

/// System error `ENOTSUP`.
pub const GPG_ERR_ENOTSUP: ErrorCode = GPG_ERR_SYSTEM_ERROR + 101;

/// System error `ENOTTY`.
pub const GPG_ERR_ENOTTY: ErrorCode = GPG_ERR_SYSTEM_ERROR + 102;

/// System error `ENOTUNIQ`.
pub const GPG_ERR_ENOTUNIQ: ErrorCode = GPG_ERR_SYSTEM_ERROR + 103;

/// System error `ENXIO`.
pub const GPG_ERR_ENXIO: ErrorCode = GPG_ERR_SYSTEM_ERROR + 104;

/// System error `EOPNOTSUPP`.
pub const GPG_ERR_EOPNOTSUPP: ErrorCode = GPG_ERR_SYSTEM_ERROR + 105;

/// System error `EOVERFLOW`.
pub const GPG_ERR_EOVERFLOW: ErrorCode = GPG_ERR_SYSTEM_ERROR + 106;

/// System error `EPERM`.
pub const GPG_ERR_EPERM: ErrorCode = GPG_ERR_SYSTEM_ERROR + 107;

/// System error `EPFNOSUPPORT`.
pub const GPG_ERR_EPFNOSUPPORT: ErrorCode = GPG_ERR_SYSTEM_ERROR + 108;

/// System error `EPIPE`.
pub const GPG_ERR_EPIPE: ErrorCode = GPG_ERR_SYSTEM_ERROR + 109;

/// System error `EPROCLIM`.
pub const GPG_ERR_EPROCLIM: ErrorCode = GPG_ERR_SYSTEM_ERROR + 110;

/// System error `EPROCUNAVAIL`.
pub const GPG_ERR_EPROCUNAVAIL: ErrorCode = GPG_ERR_SYSTEM_ERROR + 111;

/// System error `EPROGMISMATCH`.
pub const GPG_ERR_EPROGMISMATCH: ErrorCode = GPG_ERR_SYSTEM_ERROR + 112;

/// System error `EPROGUNAVAIL`.
pub const GPG_ERR_EPROGUNAVAIL: ErrorCode = GPG_ERR_SYSTEM_ERROR + 113;

/// System error `EPROTO`.
pub const GPG_ERR_EPROTO: ErrorCode = GPG_ERR_SYSTEM_ERROR + 114;

/// System error `EPROTONOSUPPORT`.
pub const GPG_ERR_EPROTONOSUPPORT: ErrorCode = GPG_ERR_SYSTEM_ERROR + 115;

/// System error `EPROTOTYPE`.
pub const GPG_ERR_EPROTOTYPE: ErrorCode = GPG_ERR_SYSTEM_ERROR + 116;

/// System error `ERANGE`.
pub const GPG_ERR_ERANGE: ErrorCode = GPG_ERR_SYSTEM_ERROR + 117;

/// System error `ERELOCATED`.
pub const GPG_ERR_ERELOCATED: ErrorCode = GPG_ERR_SYSTEM_ERROR + 118;

/// System error `EREMCHG`.
pub const GPG_ERR_EREMCHG: ErrorCode = GPG_ERR_SYSTEM_ERROR + 119;

/// System error `EREMOTE`.
pub const GPG_ERR_EREMOTE: ErrorCode = GPG_ERR_SYSTEM_ERROR + 120;

/// System error `EREMOTEIO`.
pub const GPG_ERR_EREMOTEIO: ErrorCode = GPG_ERR_SYSTEM_ERROR + 121;

/// System error `ERESTART`.
pub const GPG_ERR_ERESTART: ErrorCode = GPG_ERR_SYSTEM_ERROR + 122;

/// System error `EROFS`.
pub const GPG_ERR_EROFS: ErrorCode = GPG_ERR_SYSTEM_ERROR + 123;

/// System error `ERPCMISMATCH`.
pub const GPG_ERR_ERPCMISMATCH: ErrorCode = GPG_ERR_SYSTEM_ERROR + 124;

/// System error `ESHUTDOWN`.
pub const GPG_ERR_ESHUTDOWN: ErrorCode = GPG_ERR_SYSTEM_ERROR + 125;

/// System error `ESOCKTNOSUPPORT`.
pub const GPG_ERR_ESOCKTNOSUPPORT: ErrorCode = GPG_ERR_SYSTEM_ERROR + 126;

/// System error `ESPIPE`.
pub const GPG_ERR_ESPIPE: ErrorCode = GPG_ERR_SYSTEM_ERROR + 127;

/// System error `ESRCH`.
pub const GPG_ERR_ESRCH: ErrorCode = GPG_ERR_SYSTEM_ERROR + 128;

/// System error `ESRMNT`.
pub const GPG_ERR_ESRMNT: ErrorCode = GPG_ERR_SYSTEM_ERROR + 129;

/// System error `ESTALE`.
pub const GPG_ERR_ESTALE: ErrorCode = GPG_ERR_SYSTEM_ERROR + 130;

/// System error `ESTRPIPE`.
pub const GPG_ERR_ESTRPIPE: ErrorCode = GPG_ERR_SYSTEM_ERROR + 131;

/// System error `ETIME`.
pub const GPG_ERR_ETIME: ErrorCode = GPG_ERR_SYSTEM_ERROR + 132;

/// System error `ETIMEDOUT`.
pub const GPG_ERR_ETIMEDOUT: ErrorCode = GPG_ERR_SYSTEM_ERROR + 133;

/// System error `ETOOMANYREFS`.
pub const GPG_ERR_ETOOMANYREFS: ErrorCode = GPG_ERR_SYSTEM_ERROR + 134;

/// System error `ETXTBSY`.
pub const GPG_ERR_ETXTBSY: ErrorCode = GPG_ERR_SYSTEM_ERROR + 135;

/// System error `EUCLEAN`.
pub const GPG_ERR_EUCLEAN: ErrorCode = GPG_ERR_SYSTEM_ERROR + 136;

/// System error `EUNATCH`.
pub const GPG_ERR_EUNATCH: ErrorCode = GPG_ERR_SYSTEM_ERROR + 137;

/// System error `EUSERS`.
pub const GPG_ERR_EUSERS: ErrorCode = GPG_ERR_SYSTEM_ERROR + 138;

/// System error `EWOULDBLOCK`.
pub const GPG_ERR_EWOULDBLOCK: ErrorCode = GPG_ERR_SYSTEM_ERROR + 139;

/// System error `EXDEV`.
pub const GPG_ERR_EXDEV: ErrorCode = GPG_ERR_SYSTEM_ERROR + 140;

/// System error `EXFULL`.
pub const GPG_ERR_EXFULL: ErrorCode = GPG_ERR_SYSTEM_ERROR + 141;

} // verus!
