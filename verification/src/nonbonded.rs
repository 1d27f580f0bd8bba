use vstd::prelude::*;

use crate::error::Error;
use crate::force::Force;
use crate::handle::Handle;

verus! {

/// The closed set of methods the engine offers for computing nonbonded
/// interactions.
///
/// The foreign engine identifies these by small numeric values; this layer
/// only ever speaks of them through these symbols and translates at the
/// boundary with [`NonbondedMethod::encode`] and [`NonbondedMethod::decode`].
#[derive(Clone, Copy, Debug, PartialEq, Eq, Structural)]
pub enum NonbondedMethod {
    /// A non-periodic cutoff scheme: interactions beyond the cutoff distance
    /// are ignored, and Coulomb interactions within it use the reaction
    /// field method.
    CutoffNonPeriodic,
    /// A periodic cutoff scheme following the minimum image convention.
    CutoffPeriodic,
    /// A periodic scheme with Ewald summation for all Coulomb interactions.
    Ewald,
    /// A periodic scheme using Particle Mesh Ewald for both Lennard-Jones
    /// and Coulomb interactions.
    LjPme,
    /// No cutoff and no periodic boundary conditions; every pairwise
    /// interaction is computed exactly.  This is the default.
    NoCutoff,
    /// A periodic scheme using Particle Mesh Ewald for Coulomb interactions.
    Pme,
}

/// The foreign numeric value that stands for each method symbol.
pub open spec fn spec_encode(m: NonbondedMethod) -> u32 {
    match m {
        NonbondedMethod::NoCutoff => 0u32,
        NonbondedMethod::CutoffNonPeriodic => 1u32,
        NonbondedMethod::CutoffPeriodic => 2u32,
        NonbondedMethod::Ewald => 3u32,
        NonbondedMethod::Pme => 4u32,
        NonbondedMethod::LjPme => 5u32,
    }
}

/// The method symbol a foreign numeric value stands for, if any.
pub open spec fn spec_decode(code: u32) -> Option<NonbondedMethod> {
    if code == 0 {
        Some(NonbondedMethod::NoCutoff)
    } else if code == 1 {
        Some(NonbondedMethod::CutoffNonPeriodic)
    } else if code == 2 {
        Some(NonbondedMethod::CutoffPeriodic)
    } else if code == 3 {
        Some(NonbondedMethod::Ewald)
    } else if code == 4 {
        Some(NonbondedMethod::Pme)
    } else if code == 5 {
        Some(NonbondedMethod::LjPme)
    } else {
        None
    }
}

/// Whether a method applies periodic boundary conditions.
///
/// Every method except `NoCutoff` and `CutoffNonPeriodic` works on a
/// periodic copy of the system.
pub open spec fn spec_uses_pbc(m: NonbondedMethod) -> bool {
    match m {
        NonbondedMethod::NoCutoff => false,
        NonbondedMethod::CutoffNonPeriodic => false,
        _ => true,
    }
}

impl NonbondedMethod {
    /// The numeric value the foreign engine uses for this method.
    ///
    /// Encoding is total: every symbol has exactly one foreign value.
    pub fn encode(self) -> (code: u32)
        ensures
            code == spec_encode(self),
    {
        match self {
            NonbondedMethod::NoCutoff => 0u32,
            NonbondedMethod::CutoffNonPeriodic => 1u32,
            NonbondedMethod::CutoffPeriodic => 2u32,
            NonbondedMethod::Ewald => 3u32,
            NonbondedMethod::Pme => 4u32,
            NonbondedMethod::LjPme => 5u32,
        }
    }

    /// The method symbol for a numeric value read back from the foreign
    /// engine.
    ///
    /// Exactly the values `0..=5` are recognized.  Anything else means the
    /// engine speaks a different version of the enumeration than this layer
    /// does, which no caller can recover from: it is reported, never coerced
    /// to a default.
    pub fn decode(code: u32) -> (r: Result<NonbondedMethod, Error>)
        ensures
            r matches Ok(m) ==> spec_decode(code) == Some(m),
            r is Err <==> spec_decode(code) is None,
            r matches Err(e) ==> e == (Error::UnknownMethodCode { code }),
    {
        if code == 0 {
            Ok(NonbondedMethod::NoCutoff)
        } else if code == 1 {
            Ok(NonbondedMethod::CutoffNonPeriodic)
        } else if code == 2 {
            Ok(NonbondedMethod::CutoffPeriodic)
        } else if code == 3 {
            Ok(NonbondedMethod::Ewald)
        } else if code == 4 {
            Ok(NonbondedMethod::Pme)
        } else if code == 5 {
            Ok(NonbondedMethod::LjPme)
        } else {
            Err(Error::UnknownMethodCode { code })
        }
    }
}

impl Default for NonbondedMethod {
    /// The default method is `NoCutoff`.
    fn default() -> (m: Self)
        ensures
            m == NonbondedMethod::NoCutoff,
    {
        NonbondedMethod::NoCutoff
    }
}

/// Law: encoding any method symbol and decoding the result yields the
/// original symbol.
pub proof fn lemma_encode_decode(m: NonbondedMethod)
    ensures
        spec_decode(spec_encode(m)) == Some(m),
{
}

/// Law: decoding any recognized foreign value and re-encoding yields the
/// same value, and exactly the values `0..=5` are recognized.
pub proof fn lemma_decode_encode(code: u32)
    ensures
        spec_decode(code) matches Some(m) ==> spec_encode(m) == code,
        spec_decode(code) is Some <==> code < 6,
{
}

/// The per-particle parameters of a nonbonded force: the charge and the two
/// Lennard-Jones coefficients, each carried as the raw bit pattern of the
/// caller's double-precision value.  This layer never computes with them; it
/// only stores them and hands them across the boundary unchanged.
#[derive(Clone, Copy, Debug, PartialEq, Eq, Structural)]
pub struct ParticleParameters {
    /// The particle's charge.
    pub charge: u64,
    /// The Lennard-Jones sigma coefficient.
    pub sigma: u64,
    /// The Lennard-Jones epsilon coefficient.
    pub epsilon: u64,
}

/// Nonbonded Lennard-Jones and Coulomb interactions between the particles
/// of a [`System`].
///
/// The wrapper owns its foreign object through a [`Handle`] until the force
/// is attached to a system, and mirrors the engine-visible state: the force
/// group, the per-particle parameters in index order, and the nonbonded
/// method — the latter exactly as the engine holds it, as a foreign numeric
/// value, with the invariant that the stored value always decodes.
///
/// [`System`]: crate::system::System
pub struct NonbondedForce {
    handle: Handle,
    group: u8,
    method_code: u32,
    particles: Vec<ParticleParameters>,
}

impl NonbondedForce {
    /// The foreign enumeration value currently stored for the method.
    pub closed spec fn method_code_spec(&self) -> u32 {
        self.method_code
    }

    /// The per-particle parameters added so far, in index order.
    pub closed spec fn particles_spec(&self) -> Seq<ParticleParameters> {
        self.particles@
    }

    /// Well-formedness: the handle is non-null, the group is in range, the
    /// stored method value decodes, and the particle count stays within the
    /// index type the engine uses.
    pub closed spec fn wf(&self) -> bool {
        &&& self.handle.wf()
        &&& self.group <= 31
        &&& spec_decode(self.method_code) is Some
        &&& self.particles@.len() <= 0x7fff_ffff
    }

    /// The method, as a symbol.
    pub open spec fn method_spec(&self) -> NonbondedMethod {
        spec_decode(self.method_code_spec())->0
    }

    /// Wrap the raw address of a freshly allocated foreign nonbonded-force
    /// object.
    ///
    /// A null address is refused, as everywhere.  A fresh force has no
    /// particles, sits in group 0, and computes with the default method,
    /// `NoCutoff`.
    pub fn new(raw: usize) -> (r: Result<NonbondedForce, Error>)
        ensures
            raw == 0 <==> r is Err,
            r matches Err(e) ==> e == Error::NullAllocation,
            r matches Ok(f) ==> {
                &&& f.wf()
                &&& f.addr_spec() == raw
                &&& f.group_spec() == 0
                &&& f.method_spec() == NonbondedMethod::NoCutoff
                &&& f.particles_spec() =~= Seq::<ParticleParameters>::empty()
            },
    {
        match Handle::create(raw) {
            Err(e) => Err(e),
            Ok(handle) => Ok(
                NonbondedForce {
                    handle,
                    group: 0,
                    method_code: NonbondedMethod::NoCutoff.encode(),
                    particles: Vec::new(),
                },
            ),
        }
    }

    /// The number of particles this force has parameters for.
    pub fn num_particles(&self) -> (n: i32)
        requires
            self.wf(),
        ensures
            n == self.particles_spec().len() as i32,
    {
        self.particles.len() as i32
    }

    /// Append the parameters for the next particle and return its index.
    ///
    /// The i-th call defines the parameters of the i-th particle, matching
    /// the index order of the owning system; whether the counts eventually
    /// agree is checked by the engine, not here.
    pub fn add_particle(&mut self, charge: u64, sigma: u64, epsilon: u64) -> (index: i32)
        requires
            old(self).wf(),
            old(self).particles_spec().len() < 0x7fff_ffff,
        ensures
            final(self).wf(),
            final(self).particles_spec() == old(self).particles_spec().push(
                (ParticleParameters { charge, sigma, epsilon }),
            ),
            index == old(self).particles_spec().len() as i32,
            final(self).addr_spec() == old(self).addr_spec(),
            final(self).group_spec() == old(self).group_spec(),
            final(self).method_code_spec() == old(self).method_code_spec(),
    {
        let index = self.particles.len() as i32;
        self.particles.push(ParticleParameters { charge, sigma, epsilon });
        index
    }

    /// The method currently used to compute the nonbonded forces.
    ///
    /// The stored foreign value always decodes — the invariant guarantees
    /// it — so this query cannot fail.
    pub fn method(&self) -> (m: NonbondedMethod)
        requires
            self.wf(),
        ensures
            m == self.method_spec(),
    {
        match NonbondedMethod::decode(self.method_code) {
            Ok(m) => m,
            Err(_) => vstd::pervasive::unreached(),
        }
    }

    /// Set the method used to compute the nonbonded forces.
    pub fn set_method(&mut self, method: NonbondedMethod)
        requires
            old(self).wf(),
        ensures
            final(self).wf(),
            final(self).method_spec() == method,
            final(self).method_code_spec() == spec_encode(method),
            final(self).addr_spec() == old(self).addr_spec(),
            final(self).group_spec() == old(self).group_spec(),
            final(self).particles_spec() == old(self).particles_spec(),
    {
        proof {
            lemma_encode_decode(method);
        }
        self.method_code = method.encode();
    }

    /// The force group this force belongs to; every fresh force starts in
    /// group 0.
    pub fn group(&self) -> (g: u8)
        requires
            self.wf(),
        ensures
            g == self.group_spec(),
            g <= 31,
    {
        self.group
    }

    /// Move this force to the given group.
    ///
    /// Exactly the groups `0..=31` exist.  A value above 31 is refused
    /// before it could reach the foreign engine, and the force is left
    /// exactly as it was.
    pub fn set_group(&mut self, group: u8) -> (r: Result<(), Error>)
        requires
            old(self).wf(),
        ensures
            final(self).wf(),
            group <= 31 ==> (r is Ok && final(self).group_spec() == group),
            group > 31 ==> (r matches Err(e) && e == (Error::GroupOutOfRange { group })
                && *final(self) == *old(self)),
            final(self).addr_spec() == old(self).addr_spec(),
            final(self).method_code_spec() == old(self).method_code_spec(),
            final(self).particles_spec() == old(self).particles_spec(),
    {
        if group > 31 {
            Err(Error::GroupOutOfRange { group })
        } else {
            self.group = group;
            Ok(())
        }
    }

    /// Whether this force applies periodic boundary conditions: it does
    /// exactly when its method is one of the periodic ones.
    pub fn uses_pbc(&self) -> (b: bool)
        requires
            self.wf(),
        ensures
            b == spec_uses_pbc(self.method_spec()),
    {
        match self.method() {
            NonbondedMethod::NoCutoff => false,
            NonbondedMethod::CutoffNonPeriodic => false,
            _ => true,
        }
    }

    /// The owned foreign address, for a foreign call that only inspects the
    /// force.
    pub fn as_ptr(&self) -> (p: usize)
        ensures
            p == self.addr_spec(),
    {
        self.handle.borrow_shared()
    }

    /// The owned foreign address, for a foreign call that mutates the
    /// force.  Taking `&mut self` keeps any shared use from being live
    /// while the mutating call runs.
    pub fn as_mut_ptr(&mut self) -> (p: usize)
        ensures
            p == old(self).addr_spec(),
            *final(self) == *old(self),
    {
        self.handle.borrow_exclusive()
    }
}

impl Force for NonbondedForce {
    open spec fn inv(&self) -> bool {
        self.wf()
    }

    closed spec fn group_spec(&self) -> u8 {
        self.group
    }

    /// A nonbonded force is periodic exactly when its method is.
    open spec fn pbc_spec(&self) -> bool {
        spec_uses_pbc(self.method_spec())
    }

    closed spec fn addr_spec(&self) -> usize {
        self.handle.addr_spec()
    }

    fn group(&self) -> (g: u8) {
        self.group()
    }

    fn set_group(&mut self, group: u8) -> (r: Result<(), Error>) {
        self.set_group(group)
    }

    fn uses_pbc(&self) -> (b: bool) {
        self.uses_pbc()
    }

    fn into_ptr(self) -> (p: usize) {
        self.handle.into_raw()
    }
}

} // verus!
