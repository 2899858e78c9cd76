//! The closed set of errors the wrapper can surface, with verified,
//! deterministic rendering.

use vstd::prelude::*;
use vstd::string::StringExecFns;

use crate::digits::{decimal_seq, decimal_string};

verus! {

/// Why a byte string returned by the native library failed to decode as
/// UTF-8.
#[derive(Clone, Copy, Debug)]
pub struct Utf8Cause {
    /// Length in bytes of the longest prefix that was verified as valid
    /// UTF-8 before the offending sequence.
    pub valid_up_to: usize,
    /// Length in bytes of the offending sequence, or `None` when the input
    /// ended in the middle of a character.
    pub error_len: Option<usize>,
}

/// Why a caller-supplied string could not be converted to the NUL-terminated
/// form the native layer expects.
#[derive(Clone, Copy, Debug)]
pub struct NulCause {
    /// Index of the first NUL byte in the UTF-8 encoding of the string.
    pub nul_position: usize,
}

/// Everything that can go wrong in the wrapper.
///
/// `Failed` carries a static label naming the native call that returned its
/// failure sentinel; the other two variants chain their underlying cause.
#[derive(Clone, Copy, Debug)]
pub enum Error {
    /// A native call returned its failure sentinel.
    Failed(&'static str),
    /// The native library handed back a byte string that was not UTF-8.
    Utf8(Utf8Cause),
    /// A caller-supplied string held an embedded NUL byte.
    NullByteInString(NulCause),
}

/// Rendering of a UTF-8 decoding cause.
pub open spec fn utf8_cause_text(c: Utf8Cause) -> Seq<char> {
    match c.error_len {
        Some(n) => "invalid utf-8 sequence of "@ + decimal_seq(n as nat)
            + " bytes from index "@ + decimal_seq(c.valid_up_to as nat),
        None => "incomplete utf-8 byte sequence from index "@
            + decimal_seq(c.valid_up_to as nat),
    }
}

/// Rendering of an embedded-NUL cause.
pub open spec fn nul_cause_text(c: NulCause) -> Seq<char> {
    "nul byte found in provided data at position: "@
        + decimal_seq(c.nul_position as nat)
}

/// Rendering of a whole error value.
pub open spec fn error_text(e: Error) -> Seq<char> {
    match e {
        Error::Failed(op) => "libxdo::"@ + op@ + " returned an error"@,
        Error::Utf8(c) => utf8_cause_text(c),
        Error::NullByteInString(c) => {
            "A String argument containing a NULL byte was provided: "@
                + nul_cause_text(c)
        },
    }
}

impl Utf8Cause {
    /// The rendered cause, exactly as `utf8_cause_text` states it.
    pub fn message(&self) -> (s: String)
        ensures
            s@ == utf8_cause_text(*self),
    {
        match self.error_len {
            Some(n) => {
                let mut s = String::from_str("invalid utf-8 sequence of ");
                let count = decimal_string(n);
                s.append(count.as_str());
                s.append(" bytes from index ");
                let index = decimal_string(self.valid_up_to);
                s.append(index.as_str());
                s
            },
            None => {
                let mut s = String::from_str("incomplete utf-8 byte sequence from index ");
                let index = decimal_string(self.valid_up_to);
                s.append(index.as_str());
                s
            },
        }
    }
}

impl NulCause {
    /// The rendered cause, exactly as `nul_cause_text` states it.
    pub fn message(&self) -> (s: String)
        ensures
            s@ == nul_cause_text(*self),
    {
        let mut s = String::from_str("nul byte found in provided data at position: ");
        let position = decimal_string(self.nul_position);
        s.append(position.as_str());
        s
    }
}

impl Error {
    /// The rendered error, exactly as `error_text` states it; rendering is a
    /// function of the value alone, so equal errors always render equally.
    pub fn message(&self) -> (s: String)
        ensures
            s@ == error_text(*self),
    {
        match self {
            Error::Failed(op) => {
                let mut s = String::from_str("libxdo::");
                s.append(op);
                s.append(" returned an error");
                s
            },
            Error::Utf8(c) => c.message(),
            Error::NullByteInString(c) => {
                let mut s = String::from_str(
                    "A String argument containing a NULL byte was provided: ",
                );
                let cause = c.message();
                s.append(cause.as_str());
                s
            },
        }
    }

    /// The rendered underlying cause, for the two variants that chain one;
    /// a plain native failure has no underlying cause.
    pub fn cause(&self) -> (r: Option<String>)
        ensures
            match *self {
                Error::Failed(_) => r is None,
                Error::Utf8(c) => r matches Some(s) && s@ == utf8_cause_text(c),
                Error::NullByteInString(c) => r matches Some(s) && s@ == nul_cause_text(c),
            },
    {
        match self {
            Error::Failed(_) => None,
            Error::Utf8(c) => Some(c.message()),
            Error::NullByteInString(c) => Some(c.message()),
        }
    }

    /// A short static description of the error kind.
    pub fn description(&self) -> (r: &'static str)
        ensures
            match *self {
                Error::Failed(_) => r@ == "libxdo call returned error"@,
                Error::Utf8(_) => r@ == "invalid utf-8"@,
                Error::NullByteInString(_) => r@ == "string argument had a null byte"@,
            },
    {
        match self {
            Error::Failed(_) => "libxdo call returned error",
            Error::Utf8(_) => "invalid utf-8",
            Error::NullByteInString(_) => "string argument had a null byte",
        }
    }
}

impl core::convert::From<Utf8Cause> for Error {
    /// Promotes a UTF-8 decoding cause into the error taxonomy.
    fn from(val: Utf8Cause) -> (r: Error)
        ensures
            r == Error::Utf8(val),
    {
        Error::Utf8(val)
    }
}

impl vstd::std_specs::convert::FromSpecImpl<Utf8Cause> for Error {
    open spec fn obeys_from_spec() -> bool {
        true
    }

    open spec fn from_spec(v: Utf8Cause) -> Error {
        Error::Utf8(v)
    }
}

impl core::convert::From<NulCause> for Error {
    /// Promotes an embedded-NUL cause into the error taxonomy.
    fn from(val: NulCause) -> (r: Error)
        ensures
            r == Error::NullByteInString(val),
    {
        Error::NullByteInString(val)
    }
}

impl vstd::std_specs::convert::FromSpecImpl<NulCause> for Error {
    open spec fn obeys_from_spec() -> bool {
        true
    }

    open spec fn from_spec(v: NulCause) -> Error {
        Error::NullByteInString(v)
    }
}

} // verus!
