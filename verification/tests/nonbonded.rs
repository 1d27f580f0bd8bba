use openmm::Error;
use openmm::Force;
use openmm::NonbondedForce;
use openmm::NonbondedMethod;

const FORCE_ADDR: usize = 0x2000;

// Exercises the capability interface rather than the inherent methods, the
// way a generic caller such as `System::add_force` sees a force.
fn group_via_trait<F: Force>(force: &F) -> u8 {
    Force::group(force)
}

#[test]
fn create_force() {
    let _force = NonbondedForce::new(FORCE_ADDR).unwrap();
}

#[test]
fn test_force_group() {
    let mut force = NonbondedForce::new(FORCE_ADDR).unwrap();

    assert_eq!(force.group(), 0);

    force.set_group(16).unwrap();

    assert_eq!(force.group(), 16);
}

#[test]
fn null_force_address_is_refused() {
    let r = NonbondedForce::new(0);
    assert!(matches!(r, Err(Error::NullAllocation)));
}

#[test]
fn every_valid_group_round_trips() {
    let mut force = NonbondedForce::new(FORCE_ADDR).unwrap();
    for g in 0u8..=31 {
        assert_eq!(force.set_group(g), Ok(()));
        assert_eq!(force.group(), g);
        assert_eq!(group_via_trait(&force), g);
    }
}

#[test]
fn group_out_of_range_keeps_prior_group() {
    let mut force = NonbondedForce::new(FORCE_ADDR).unwrap();
    force.set_group(16).unwrap();

    for g in [32u8, 33, 100, 255] {
        assert_eq!(force.set_group(g), Err(Error::GroupOutOfRange { group: g }));
        assert_eq!(force.group(), 16);
    }
}

#[test]
fn fresh_force_defaults() {
    let force = NonbondedForce::new(FORCE_ADDR).unwrap();
    assert_eq!(force.method(), NonbondedMethod::NoCutoff);
    assert_eq!(force.group(), 0);
    assert_eq!(force.num_particles(), 0);
    assert!(!force.uses_pbc());
    assert_eq!(force.as_ptr(), FORCE_ADDR);
}

#[test]
fn default_method_symbol() {
    assert_eq!(NonbondedMethod::default(), NonbondedMethod::NoCutoff);
}

#[test]
fn set_method_round_trips() {
    let mut force = NonbondedForce::new(FORCE_ADDR).unwrap();
    for m in [
        NonbondedMethod::CutoffNonPeriodic,
        NonbondedMethod::CutoffPeriodic,
        NonbondedMethod::Ewald,
        NonbondedMethod::LjPme,
        NonbondedMethod::NoCutoff,
        NonbondedMethod::Pme,
    ] {
        force.set_method(m);
        assert_eq!(force.method(), m);
    }
}

#[test]
fn uses_pbc_follows_method() {
    let mut force = NonbondedForce::new(FORCE_ADDR).unwrap();
    for (m, pbc) in [
        (NonbondedMethod::NoCutoff, false),
        (NonbondedMethod::CutoffNonPeriodic, false),
        (NonbondedMethod::CutoffPeriodic, true),
        (NonbondedMethod::Ewald, true),
        (NonbondedMethod::LjPme, true),
        (NonbondedMethod::Pme, true),
    ] {
        force.set_method(m);
        assert_eq!(force.uses_pbc(), pbc);
    }
}

#[test]
fn force_particle_indices_are_sequential() {
    let mut force = NonbondedForce::new(FORCE_ADDR).unwrap();
    let charge = 0.5f64.to_bits();
    let sigma = 0.3f64.to_bits();
    let epsilon = 0.7f64.to_bits();

    assert_eq!(force.add_particle(charge, sigma, epsilon), 0);
    assert_eq!(force.add_particle(charge, sigma, epsilon), 1);
    assert_eq!(force.num_particles(), 2);
}

#[test]
fn ownership_transfer_hands_out_the_address() {
    let force = NonbondedForce::new(FORCE_ADDR).unwrap();
    assert_eq!(force.into_ptr(), FORCE_ADDR);
}
