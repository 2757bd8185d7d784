//! Addresses of native objects.
use vstd::prelude::*;

verus! {

/// The address of a native object. It is never null.
///
/// A handle is a name, not an owner: it can be copied freely. The duty to
/// release an object lies with the value that describes it (a `Context`, a
/// `Store`, a `Value`), which cannot be copied.
#[derive(Clone, Copy, Debug, PartialEq, Eq, Hash)]
pub struct Handle {
    addr: usize,
}

impl Handle {
    #[verifier::type_invariant]
    spec fn nonnull(self) -> bool {
        self.addr != 0
    }

    /// The address that the handle holds.
    pub closed spec fn address(self) -> usize {
        self.addr
    }

    /// Wraps an address that the native layer returned; the null address gives no handle.
    pub fn new(raw: usize) -> (r: Option<Handle>)
        ensures
            r is None <==> raw == 0,
            r matches Some(h) ==> h.address() == raw,
    {
        if raw == 0 {
            None
        } else {
            Some(Handle { addr: raw })
        }
    }

    /// The address, to hand back to the native layer.
    pub fn addr(&self) -> (a: usize)
        ensures
            a == self.address(),
            a != 0,
    {
        proof {
            use_type_invariant(self);
        }
        self.addr
    }
}

impl View for Handle {
    type V = Handle;

    open spec fn view(&self) -> Handle {
        *self
    }
}

} // verus!
