use vstd::prelude::*;

use crate::error::Error;

verus! {

/// Owner of the address of exactly one foreign-allocated object.
///
/// A `Handle` can only be built through [`Handle::create`], which rejects a
/// null address, so every handle that exists points at an object the foreign
/// allocator actually produced.  The type is deliberately neither `Clone`
/// nor `Copy`: one foreign object has one owner, and the only way to part a
/// handle from its address is [`Handle::into_raw`], which consumes it.  The
/// caller that performs the foreign calls pairs that consuming step with the
/// matching foreign destructor (or with an ownership transfer into a foreign
/// container), so the destructor can run at most once per handle.
pub struct Handle {
    addr: usize,
}

impl Handle {
    /// The address this handle owns.
    pub closed spec fn addr_spec(&self) -> usize {
        self.addr
    }

    /// A handle is well formed exactly when its address is non-null.
    pub open spec fn wf(&self) -> bool {
        self.addr_spec() != 0
    }

    /// Null-check a raw address handed back by a foreign allocator and take
    /// ownership of it.
    ///
    /// A null result from the allocator is an exhaustion condition that this
    /// layer cannot recover from, so it is refused here, before the address
    /// could reach any other foreign call.
    pub fn create(raw: usize) -> (r: Result<Handle, Error>)
        ensures
            raw == 0 <==> r is Err,
            r matches Err(e) ==> e == Error::NullAllocation,
            r matches Ok(h) ==> h.wf() && h.addr_spec() == raw,
    {
        if raw == 0 {
            Err(Error::NullAllocation)
        } else {
            Ok(Handle { addr: raw })
        }
    }

    /// Read the owned address for a foreign call that only inspects the
    /// object.
    pub fn borrow_shared(&self) -> (a: usize)
        ensures
            a == self.addr_spec(),
    {
        self.addr
    }

    /// Read the owned address for a foreign call that mutates the object.
    ///
    /// Taking `&mut self` makes the host language's aliasing discipline
    /// enforce that no shared use of the handle is live while the mutating
    /// call runs.
    pub fn borrow_exclusive(&mut self) -> (a: usize)
        ensures
            a == old(self).addr_spec(),
            *final(self) == *old(self),
    {
        self.addr
    }

    /// Give the address up, consuming the handle.
    ///
    /// This is the single sanctioned way to end a handle's ownership: the
    /// caller either passes the address to the matching foreign destructor
    /// or transfers it into a foreign container that will destroy the object
    /// transitively.  Because `self` is consumed, neither can happen twice
    /// through the same handle.
    pub fn into_raw(self) -> (a: usize)
        ensures
            a == self.addr_spec(),
    {
        self.addr
    }
}

} // verus!
