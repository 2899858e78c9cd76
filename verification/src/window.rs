//! The window reference: a native window identifier paired with the
//! borrowed handle it was obtained from, and the decisions made for the
//! operations that target a window.

use vstd::prelude::*;

use vstd::string::{StrSliceExecFns, StringExecFns, StringSliceAdditionalSpecFns};
use vstd::utf8::{decode_utf8, partial_valid_utf8, valid_utf8};

use crate::delay::{microseconds_of_optional, optional_delay_to_microseconds, Delay};
use crate::digits::{hex_seq, hex_string};
use crate::error::{Error, NulCause};
use crate::handle::XdoRef;
use crate::modifiers::CharcodeMapList;
use crate::status::{status_to_result, XDO_ERROR, XDO_SUCCESS};
use crate::text::{contains_nul, decode_utf8_bytes, find_nul};

verus! {

/// A window reference: an opaque native window identifier, borrowed from
/// the instance handle it was derived from.  The borrow keeps every window
/// reference from outliving its handle.
pub struct Window<'a> {
    id: u64,
    xdo: &'a XdoRef,
}

/// The debug rendering of a window reference: it reveals the identifier
/// only, in hexadecimal, and never the embedded handle.
pub open spec fn window_debug_text(id: u64) -> Seq<char> {
    "Window { id: 0x"@ + hex_seq(id as nat) + " }"@
}

/// Everything the native send-keysequence call is handed: the target
/// window, the NUL-terminated key-sequence bytes, and the delay between
/// events in microseconds.
pub struct KeySequenceRequest {
    /// The identifier of the window the keystrokes are sent to.
    pub window: u64,
    /// The UTF-8 bytes of the key sequence, with exactly one NUL byte, at
    /// the end.
    pub bytes: Vec<u8>,
    /// The delay between emitted events, in the native microsecond width.
    pub delay_microseconds: u32,
}

impl<'a> Window<'a> {
    /// The native window identifier.
    pub closed spec fn spec_id(&self) -> u64 {
        self.id
    }

    /// The handle the reference was derived from.
    pub closed spec fn spec_xdo(&self) -> XdoRef {
        *self.xdo
    }

    /// Pairs a window identifier with the handle it was reported through.
    /// The wrapper performs no validation of identifiers beyond passing
    /// them through.
    pub(crate) fn from_parts(id: u64, xdo: &'a XdoRef) -> (r: Window<'a>)
        ensures
            r.spec_id() == id,
            r.spec_xdo() == *xdo,
    {
        Window { id, xdo }
    }

    /// The native window identifier.
    pub fn id(&self) -> (r: u64)
        ensures
            r == self.spec_id(),
    {
        self.id
    }

    /// The handle the reference was derived from.
    pub fn xdo(&self) -> (r: &'a XdoRef)
        ensures
            *r == self.spec_xdo(),
    {
        self.xdo
    }

    /// Renders the reference for debugging, exactly as `window_debug_text`
    /// states it.
    pub fn debug_repr(&self) -> (s: String)
        ensures
            s@ == window_debug_text(self.spec_id()),
    {
        let mut s = String::from_str("Window { id: 0x");
        let hex = hex_string(self.id);
        s.append(hex.as_str());
        s.append(" }");
        proof {
            assert(s@ =~= window_debug_text(self.spec_id()));
        }
        s
    }

    /// Decodes the outcome of the native get-window-name call: its status
    /// sentinel and, on success, the bytes of the name it wrote, without
    /// the terminating NUL.  A valid UTF-8 name is copied into an owned
    /// string; an invalid one is reported with its cause, and a failure
    /// sentinel under the native call's name.
    pub fn get_name(&self, status: i32, name_bytes: &[u8]) -> (r: Result<String, Error>)
        requires
            status == XDO_SUCCESS || status == XDO_ERROR,
        ensures
            status == XDO_ERROR ==> (r matches Err(Error::Failed(m)) && m@
                == "get_window_name"@),
            status == XDO_SUCCESS && valid_utf8(name_bytes@) ==> (r matches Ok(s) && s@
                == decode_utf8(name_bytes@)),
            status == XDO_SUCCESS && !valid_utf8(name_bytes@) ==> (r matches Err(
                Error::Utf8(c),
            ) && partial_valid_utf8(name_bytes@, c.valid_up_to as int)),
    {
        match status_to_result(status, "get_window_name") {
            Ok(()) => match decode_utf8_bytes(name_bytes) {
                Ok(s) => Ok(s),
                Err(c) => Err(Error::from(c)),
            },
            Err(e) => Err(e),
        }
    }

    /// Builds the request the native send-keysequence call is handed: the
    /// key-sequence string as NUL-terminated bytes, and the delay as
    /// microseconds.  A sequence with an embedded NUL byte never makes a
    /// request: it is rejected here, with the position of the first NUL.
    pub fn keysequence_request(&self, sequence: &str, delay: Option<Delay>) -> (r: Result<
        KeySequenceRequest,
        Error,
    >)
        ensures
            contains_nul(sequence.spec_bytes()) ==> (r matches Err(
                Error::NullByteInString(c),
            ) && c.nul_position < sequence.spec_bytes().len() && sequence.spec_bytes()[
                c.nul_position as int
            ] == 0 && (forall|j: int|
                0 <= j < c.nul_position ==> sequence.spec_bytes()[j] != 0)),
            !contains_nul(sequence.spec_bytes()) ==> (r matches Ok(q) && q.window
                == self.spec_id() && q.bytes@ == sequence.spec_bytes().push(0u8)
                && q.delay_microseconds as int == microseconds_of_optional(delay)),
    {
        let mut bytes: Vec<u8> = sequence.as_bytes_vec();
        match find_nul(bytes.as_slice()) {
            Some(i) => Err(Error::from(NulCause { nul_position: i })),
            None => {
                bytes.push(0);
                let micros = optional_delay_to_microseconds(delay);
                proof {
                    assert(bytes@ =~= sequence.spec_bytes().push(0u8));
                }
                Ok(
                    KeySequenceRequest {
                        window: self.id,
                        bytes,
                        delay_microseconds: micros,
                    },
                )
            },
        }
    }

    /// Decodes the outcome of the native set-active-modifiers call made
    /// for this window with the given snapshot; the snapshot itself is
    /// only read.
    pub fn set_active_modifiers(&self, mods: &CharcodeMapList, status: i32) -> (r: Result<
        (),
        Error,
    >)
        requires
            status == XDO_SUCCESS || status == XDO_ERROR,
        ensures
            status == XDO_SUCCESS ==> r is Ok,
            status == XDO_ERROR ==> (r matches Err(Error::Failed(m)) && m@
                == "set_active_modifiers"@),
    {
        status_to_result(status, "set_active_modifiers")
    }

    /// Decodes the outcome of the native clear-active-modifiers call made
    /// for this window with the given snapshot; the snapshot itself is
    /// only read.
    pub fn clear_active_modifiers(&self, mods: &CharcodeMapList, status: i32) -> (r: Result<
        (),
        Error,
    >)
        requires
            status == XDO_SUCCESS || status == XDO_ERROR,
        ensures
            status == XDO_SUCCESS ==> r is Ok,
            status == XDO_ERROR ==> (r matches Err(Error::Failed(m)) && m@
                == "clear_active_modifiers"@),
    {
        status_to_result(status, "clear_active_modifiers")
    }
}

} // verus!
