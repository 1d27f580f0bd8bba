use vstd::prelude::*;

use crate::error::Error;
use crate::force::Force;
use crate::handle::Handle;

verus! {

/// A molecular system: the set of particles, identified by the zero-based
/// indices the engine assigns in call order, and the forces that act on
/// them.
///
/// The wrapper owns the foreign system object through a [`Handle`] and
/// mirrors the engine-visible state: one mass per particle (carried as the
/// bit pattern of the caller's double-precision value), in index order, and
/// the foreign addresses of the forces whose ownership has been transferred
/// into the system.  Particles are never removed or reordered, so an index
/// stays valid for the system's whole lifetime.  Every index is validated
/// here, before it could reach a foreign call where an out-of-range value
/// would be undefined behavior.
pub struct System {
    handle: Handle,
    masses: Vec<u64>,
    forces: Vec<usize>,
}

impl System {
    /// The address of the foreign system object this wrapper owns.
    pub closed spec fn addr_spec(&self) -> usize {
        self.handle.addr_spec()
    }

    /// The masses of the particles added so far, in index order, each as
    /// the bit pattern of a double-precision value.
    pub closed spec fn masses_spec(&self) -> Seq<u64> {
        self.masses@
    }

    /// The foreign addresses of the forces attached so far, in attachment
    /// order.
    pub closed spec fn forces_spec(&self) -> Seq<usize> {
        self.forces@
    }

    /// Well-formedness: the handle is non-null and both counts stay within
    /// the index type the engine uses.
    pub closed spec fn wf(&self) -> bool {
        &&& self.handle.wf()
        &&& self.masses@.len() <= 0x7fff_ffff
        &&& self.forces@.len() <= 0x7fff_ffff
    }

    /// Wrap the raw address of a freshly allocated foreign system object.
    ///
    /// A null address — the allocator's exhaustion signal — is refused
    /// before it could reach any other foreign call.  A fresh system has no
    /// particles and no forces.
    pub fn new(raw: usize) -> (r: Result<System, Error>)
        ensures
            raw == 0 <==> r is Err,
            r matches Err(e) ==> e == Error::NullAllocation,
            r matches Ok(s) ==> {
                &&& s.wf()
                &&& s.addr_spec() == raw
                &&& s.masses_spec() =~= Seq::<u64>::empty()
                &&& s.forces_spec() =~= Seq::<usize>::empty()
            },
    {
        match Handle::create(raw) {
            Err(e) => Err(e),
            Ok(handle) => Ok(System { handle, masses: Vec::new(), forces: Vec::new() }),
        }
    }

    /// Add a particle with the given mass (as the bit pattern of a
    /// double-precision value, in AMU) and return its index.
    ///
    /// Indices are assigned sequentially from zero, with no gaps and no
    /// reuse, matching the engine's own numbering.  A mass of zero is
    /// legitimate: integrators then leave the particle where it is, which
    /// is how virtual sites are built.
    pub fn add_particle(&mut self, mass: u64) -> (index: i32)
        requires
            old(self).wf(),
            old(self).masses_spec().len() < 0x7fff_ffff,
        ensures
            final(self).wf(),
            final(self).masses_spec() == old(self).masses_spec().push(mass),
            index == old(self).masses_spec().len() as i32,
            final(self).forces_spec() == old(self).forces_spec(),
            final(self).addr_spec() == old(self).addr_spec(),
    {
        let index = self.masses.len() as i32;
        self.masses.push(mass);
        index
    }

    /// The number of particles in the system: exactly the number of
    /// [`System::add_particle`] calls made so far.
    pub fn num_particles(&self) -> (n: i32)
        requires
            self.wf(),
        ensures
            n == self.masses_spec().len() as i32,
    {
        self.masses.len() as i32
    }

    /// The mass of the particle at the given index, as the bit pattern of a
    /// double-precision value.
    ///
    /// An index that is negative or not below the particle count is refused
    /// here; nothing is forwarded to the engine for such an index.
    pub fn particle_mass(&self, index: i32) -> (r: Result<u64, Error>)
        requires
            self.wf(),
        ensures
            0 <= index < self.masses_spec().len() ==> r == Ok::<u64, Error>(
                self.masses_spec()[index as int],
            ),
            !(0 <= index < self.masses_spec().len()) ==> r == Err::<u64, Error>(
                (Error::IndexOutOfBounds { index, count: self.masses_spec().len() as i32 }),
            ),
    {
        let count = self.num_particles();
        if index < 0 || index >= count {
            Err(Error::IndexOutOfBounds { index, count })
        } else {
            Ok(self.masses[index as usize])
        }
    }

    /// Replace the mass of the particle at the given index.
    ///
    /// The same bounds rule as [`System::particle_mass`]: an out-of-range
    /// index is refused, the system is left exactly as it was, and nothing
    /// is forwarded to the engine.
    pub fn set_particle_mass(&mut self, index: i32, mass: u64) -> (r: Result<(), Error>)
        requires
            old(self).wf(),
        ensures
            final(self).wf(),
            0 <= index < old(self).masses_spec().len() ==> r is Ok && final(self).masses_spec()
                == old(self).masses_spec().update(index as int, mass),
            !(0 <= index < old(self).masses_spec().len()) ==> r == Err::<(), Error>(
                (Error::IndexOutOfBounds { index, count: old(self).masses_spec().len() as i32 }),
            ) && final(self).masses_spec() == old(self).masses_spec(),
            final(self).forces_spec() == old(self).forces_spec(),
            final(self).addr_spec() == old(self).addr_spec(),
    {
        let count = self.num_particles();
        if index < 0 || index >= count {
            Err(Error::IndexOutOfBounds { index, count })
        } else {
            self.masses[index as usize] = mass;
            Ok(())
        }
    }

    /// Attach a force, transferring its ownership into the system, and
    /// return the index the engine assigns it.
    ///
    /// The force value is consumed: after this call the foreign system
    /// object is solely responsible for the force's lifetime, and no code
    /// can query or destroy the force through its old wrapper again.
    pub fn add_force<F: Force>(&mut self, force: F) -> (index: i32)
        requires
            old(self).wf(),
            force.inv(),
            old(self).forces_spec().len() < 0x7fff_ffff,
        ensures
            final(self).wf(),
            final(self).forces_spec() == old(self).forces_spec().push(force.addr_spec()),
            index == old(self).forces_spec().len() as i32,
            final(self).masses_spec() == old(self).masses_spec(),
            final(self).addr_spec() == old(self).addr_spec(),
    {
        let index = self.forces.len() as i32;
        let ptr = force.into_ptr();
        self.forces.push(ptr);
        index
    }

    /// The number of forces attached so far.
    pub fn num_forces(&self) -> (n: i32)
        requires
            self.wf(),
        ensures
            n == self.forces_spec().len() as i32,
    {
        self.forces.len() as i32
    }

    /// The owned foreign address, for a foreign call that only inspects the
    /// system.
    pub fn as_ptr(&self) -> (p: usize)
        ensures
            p == self.addr_spec(),
    {
        self.handle.borrow_shared()
    }

    /// The owned foreign address, for a foreign call that mutates the
    /// system.  Taking `&mut self` keeps any shared use from being live
    /// while the mutating call runs.
    pub fn as_mut_ptr(&mut self) -> (p: usize)
        ensures
            p == old(self).addr_spec(),
            *final(self) == *old(self),
    {
        self.handle.borrow_exclusive()
    }
}

/// Law: a system's particle count is exactly the number of `add_particle`
/// calls made on it.
///
/// [`System::new`] starts the mass sequence empty, [`System::add_particle`]
/// extends it by exactly one element, every other operation keeps its
/// length, and [`System::num_particles`] returns that length.
pub proof fn lemma_particle_count(masses: Seq<u64>, mass: u64)
    ensures
        Seq::<u64>::empty().len() == 0,
        masses.push(mass).len() == masses.len() + 1,
{
}

/// Law: setting the mass at a valid index and then reading the same index
/// yields exactly the mass that was set.
///
/// This connects [`System::set_particle_mass`], whose contract says the
/// mass sequence becomes `update(index, mass)`, with
/// [`System::particle_mass`], whose contract says it returns the sequence
/// at `index`.
pub proof fn lemma_mass_round_trip(masses: Seq<u64>, index: int, mass: u64)
    requires
        0 <= index < masses.len(),
    ensures
        masses.update(index, mass)[index] == mass,
{
}

} // verus!
