//! The instance handle: the wrapper's view of one open connection to the
//! native library, and the decisions made on its behalf.
//!
//! The native constructor and destructor are calls the verifier cannot
//! see; the unverified shell makes them and owns the pointer's release.
//! Here the handle is the pointer's address, with the invariant that it is
//! non-null for the handle's entire lifetime, and every native outcome
//! reported back for it is decoded under a contract.

use vstd::prelude::*;

use crate::error::Error;
use crate::modifiers::CharcodeMapList;
use crate::status::{ptr_or_error, status_to_result, XDO_ERROR, XDO_SUCCESS};
use crate::window::Window;

verus! {

/// The borrowed form of the instance handle.  Operations take this form,
/// so that arbitrarily many short-lived uses can share one handle, and a
/// window reference can never outlive the handle it was derived from.
pub struct XdoRef {
    raw: usize,
}

impl XdoRef {
    /// The native instance pointer is non-null for the handle's entire
    /// lifetime.
    #[verifier::type_invariant]
    spec fn inv(self) -> bool {
        self.raw != 0
    }

    /// The address of the native instance.
    pub closed spec fn spec_raw(&self) -> usize {
        self.raw
    }

    /// The address of the native instance, for forwarding to a native
    /// call; it is never null.
    pub fn as_raw(&self) -> (r: usize)
        ensures
            r == self.spec_raw(),
            r != 0,
    {
        proof {
            use_type_invariant(&*self);
        }
        self.raw
    }

    /// Decodes the outcome of the native get-active-window call: its
    /// status sentinel and the window identifier it wrote.  Success pairs
    /// the identifier with this handle; failure is reported under the
    /// native call's name.
    pub fn get_active_window(&self, status: i32, window_id: u64) -> (r: Result<Window<'_>, Error>)
        requires
            status == XDO_SUCCESS || status == XDO_ERROR,
        ensures
            status == XDO_SUCCESS ==> (r matches Ok(w) && w.spec_id() == window_id && w.spec_xdo()
                == *self),
            status == XDO_ERROR ==> (r matches Err(Error::Failed(m)) && m@
                == "get_active_window"@),
    {
        match status_to_result(status, "get_active_window") {
            Ok(()) => Ok(Window::from_parts(window_id, self)),
            Err(e) => Err(e),
        }
    }

    /// Decodes the outcome of the native get-active-modifiers call: its
    /// status sentinel and the array address and record count it wrote.
    /// Success adopts the array as a snapshot; failure is reported under
    /// the native call's name.
    pub fn get_active_modifiers(&self, status: i32, addr: usize, len: i32) -> (r: Result<
        CharcodeMapList,
        Error,
    >)
        requires
            status == XDO_SUCCESS || status == XDO_ERROR,
            status == XDO_SUCCESS ==> len >= 0 && (addr == 0 ==> len == 0),
        ensures
            status == XDO_SUCCESS ==> (r matches Ok(l) && l.spec_addr() == addr && l.spec_len()
                == len),
            status == XDO_ERROR ==> (r matches Err(Error::Failed(m)) && m@
                == "get_active_modifiers"@),
    {
        match status_to_result(status, "get_active_modifiers") {
            Ok(()) => Ok(CharcodeMapList::from_raw_parts(addr, len)),
            Err(e) => Err(e),
        }
    }
}

/// The owned instance handle.  The unverified shell constructs it from the
/// address the native constructor returned and calls the native destructor
/// exactly once when it goes out of scope.
pub struct Xdo {
    handle: XdoRef,
}

impl Xdo {
    /// The address of the native instance.
    pub closed spec fn spec_raw(&self) -> usize {
        self.handle.spec_raw()
    }

    /// Adopts the address the native constructor returned.  A null return
    /// means construction failed, and is reported under the constructor's
    /// name; any other address makes a handle.
    pub fn from_raw(raw: usize) -> (r: Result<Xdo, Error>)
        ensures
            raw == 0 ==> (r matches Err(Error::Failed(m)) && m@ == "xdo_new"@),
            raw != 0 ==> (r matches Ok(x) && x.spec_raw() == raw),
    {
        match ptr_or_error(raw, "xdo_new") {
            Ok(p) => Ok(Xdo { handle: XdoRef { raw: p } }),
            Err(e) => Err(e),
        }
    }

    /// The borrowed form, through which all operations go.
    pub fn handle(&self) -> (r: &XdoRef)
        ensures
            r.spec_raw() == self.spec_raw(),
    {
        &self.handle
    }
}

} // verus!
