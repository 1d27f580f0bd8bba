use vstd::prelude::*;

use crate::error::Error;

verus! {

/// The capability every concrete force variant offers so that it can be
/// attached to a [`System`].
///
/// A force variant owns its own foreign object (through a [`Handle`]) until
/// it is attached; the contract here covers the state every variant shares —
/// the force group, the periodic-boundary-conditions query — and the one
/// sanctioned way of moving the foreign object from wrapper ownership to
/// foreign ownership, [`Force::into_ptr`].
///
/// [`System`]: crate::system::System
/// [`Handle`]: crate::handle::Handle
pub trait Force: Sized {
    /// When the wrapper value is in a state fit for use: its foreign address
    /// is non-null and all of its engine-visible state is in range.
    spec fn inv(&self) -> bool;

    /// The force group the value currently belongs to.
    spec fn group_spec(&self) -> u8;

    /// Whether the force applies periodic boundary conditions.
    spec fn pbc_spec(&self) -> bool;

    /// The address of the foreign object backing this force.
    spec fn addr_spec(&self) -> usize;

    /// The force group this force belongs to.
    ///
    /// Groups partition the forces of a system for staged or multi-timestep
    /// evaluation; every force starts in group 0.
    fn group(&self) -> (g: u8)
        requires
            self.inv(),
        ensures
            g == self.group_spec(),
            g <= 31,
    ;

    /// Move this force to the given group.
    ///
    /// Exactly the groups `0..=31` exist.  A value above 31 is refused
    /// before it could reach the foreign engine, and the force keeps its
    /// prior group.
    fn set_group(&mut self, group: u8) -> (r: Result<(), Error>)
        requires
            old(self).inv(),
        ensures
            final(self).inv(),
            group <= 31 ==> r is Ok && final(self).group_spec() == group,
            group > 31 ==> (r matches Err(e) && e == (Error::GroupOutOfRange { group })
                && *final(self) == *old(self)),
            final(self).addr_spec() == old(self).addr_spec(),
            final(self).pbc_spec() == old(self).pbc_spec(),
    ;

    /// Whether this force applies periodic boundary conditions; read-only
    /// and variant-defined.
    fn uses_pbc(&self) -> (b: bool)
        requires
            self.inv(),
        ensures
            b == self.pbc_spec(),
    ;

    /// Consume the wrapper and hand its foreign address to the caller.
    ///
    /// This is the ownership-transfer step used when a force is attached to
    /// a system: after it, responsibility for destroying the foreign object
    /// lies with whoever received the address, and because `self` is
    /// consumed, the wrapper can never act on the object again.
    fn into_ptr(self) -> (p: usize)
        requires
            self.inv(),
        ensures
            p == self.addr_spec(),
            p != 0,
    ;
}

} // verus!
