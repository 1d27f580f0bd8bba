use openmm::Error;
use openmm::NonbondedMethod;

const ALL_METHODS: [NonbondedMethod; 6] = [
    NonbondedMethod::CutoffNonPeriodic,
    NonbondedMethod::CutoffPeriodic,
    NonbondedMethod::Ewald,
    NonbondedMethod::LjPme,
    NonbondedMethod::NoCutoff,
    NonbondedMethod::Pme,
];

#[test]
fn encode_then_decode_is_identity() {
    for m in ALL_METHODS {
        assert_eq!(NonbondedMethod::decode(m.encode()), Ok(m));
    }
}

#[test]
fn decode_then_encode_is_identity() {
    for code in 0u32..=5 {
        let m = NonbondedMethod::decode(code).unwrap();
        assert_eq!(m.encode(), code);
    }
}

#[test]
fn known_foreign_values() {
    assert_eq!(NonbondedMethod::NoCutoff.encode(), 0);
    assert_eq!(NonbondedMethod::CutoffNonPeriodic.encode(), 1);
    assert_eq!(NonbondedMethod::CutoffPeriodic.encode(), 2);
    assert_eq!(NonbondedMethod::Ewald.encode(), 3);
    assert_eq!(NonbondedMethod::Pme.encode(), 4);
    assert_eq!(NonbondedMethod::LjPme.encode(), 5);
}

#[test]
fn unknown_foreign_values_are_refused() {
    for code in [6u32, 7, 100, u32::MAX] {
        assert_eq!(
            NonbondedMethod::decode(code),
            Err(Error::UnknownMethodCode { code })
        );
    }
}
