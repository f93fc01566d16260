//! Error values of the GnuPG family of libraries.
//!
//! Those libraries report every error as one 32-bit number that packs two
//! things: the *source*, which names the component that raised the error, and
//! the *code*, which names what went wrong. This crate holds the rules of
//! such values, each with a contract that the verifier has proved:
//!
//! - [`value`]: how source and code are packed and read back;
//! - [`codes`]: the numbers of the known sources and codes;
//! - [`error`]: the [`Error`] type that wraps one value;
//! - [`kind`]: how errors are classed as the platform's kinds of I/O error,
//!   and which error stands for a kind;
//! - [`text`]: how byte strings become text, by decoding that never fails
//!   and by escaping;
//! - [`description`]: how the descriptions and names that the native error
//!   library writes become what callers see.
//!
//! The crate makes no call into the native library. Where a rule starts from
//! something that only the native library knows, its function takes the
//! outcome of the native call as plain values.

pub mod codes;
pub mod description;
pub mod error;
pub mod kind;
pub mod text;
pub mod value;

pub use codes::{ErrorCode, ErrorSource};
pub use error::Error;
pub use value::{gpg_err_code, gpg_err_make, gpg_err_source};
