use enigma::error::ConfigError;
use enigma::reflector::Reflector;
use enigma::rotor::Rotor;
use enigma::settings::Settings;
use enigma::specification::{ReflectorSpec, ReflectorType, RotorSpec, RotorType};

#[test]
fn rotor_selectors_parse_to_their_variants() {
    assert_eq!(Ok(RotorType::I), RotorType::from_selector("I"));
    assert_eq!(Ok(RotorType::II), RotorType::from_selector("II"));
    assert_eq!(Ok(RotorType::III), RotorType::from_selector("III"));
    assert_eq!(Ok(RotorType::IV), RotorType::from_selector("IV"));
    assert_eq!(Ok(RotorType::V), RotorType::from_selector("V"));
    assert_eq!(Ok(RotorType::VI), RotorType::from_selector("VI"));
    assert_eq!(Ok(RotorType::VII), RotorType::from_selector("VII"));
    assert_eq!(Ok(RotorType::VIII), RotorType::from_selector("VIII"));
}

#[test]
fn unknown_rotor_selectors_are_rejected() {
    assert_eq!(Err(ConfigError::InvalidRotorSelector), RotorType::from_selector("IX"));
    assert_eq!(Err(ConfigError::InvalidRotorSelector), RotorType::from_selector(""));
    assert_eq!(Err(ConfigError::InvalidRotorSelector), RotorType::from_selector("i"));
    assert_eq!(Err(ConfigError::InvalidRotorSelector), RotorType::from_selector("VIIII"));
}

#[test]
fn reflector_selectors_parse_to_their_variants() {
    assert_eq!(Ok(ReflectorType::A), ReflectorType::from_selector("A"));
    assert_eq!(Ok(ReflectorType::B), ReflectorType::from_selector("B"));
    assert_eq!(Ok(ReflectorType::C), ReflectorType::from_selector("C"));
    assert_eq!(Err(ConfigError::InvalidReflectorSelector), ReflectorType::from_selector("D"));
    assert_eq!(Err(ConfigError::InvalidReflectorSelector), ReflectorType::from_selector("AB"));
}

#[test]
fn rotors_built_from_invalid_blueprints_are_rejected() {
    // 26 entries that repeat a value: not a permutation
    let duplicate = RotorSpec { translation: vec![0; 26], notches: vec![0] };
    assert_eq!(
        Err(ConfigError::InvalidWiring),
        Rotor::from_spec(duplicate).map(|_| ())
    );
    // too short
    let short = RotorSpec { translation: vec![0, 1, 2], notches: vec![0] };
    assert_eq!(Err(ConfigError::InvalidWiring), Rotor::from_spec(short).map(|_| ()));
    // valid wiring but no notch at all
    let identity: Vec<u8> = (0..26).collect();
    let no_notch = RotorSpec { translation: identity.clone(), notches: vec![] };
    assert_eq!(Err(ConfigError::InvalidNotch), Rotor::from_spec(no_notch).map(|_| ()));
    // valid wiring but a notch out of range
    let bad_notch = RotorSpec { translation: identity, notches: vec![26] };
    assert_eq!(Err(ConfigError::InvalidNotch), Rotor::from_spec(bad_notch).map(|_| ()));
}

#[test]
fn reflectors_built_from_invalid_blueprints_are_rejected() {
    // the identity maps every letter to itself: fixed points everywhere
    let identity = ReflectorSpec { translation: (0..26).collect() };
    assert_eq!(
        Err(ConfigError::InvalidWiring),
        Reflector::from_spec(identity).map(|_| ())
    );
    // a rotation is fixed-point free but not symmetric
    let rotation: Vec<u8> = (0..26).map(|i| (i + 1) % 26).collect();
    let asymmetric = ReflectorSpec { translation: rotation };
    assert_eq!(
        Err(ConfigError::InvalidWiring),
        Reflector::from_spec(asymmetric).map(|_| ())
    );
}

#[test]
fn default_settings_name_the_classic_configuration() {
    let settings = Settings::new();
    assert_eq!(RotorType::I, settings.l_rotor);
    assert_eq!(RotorType::II, settings.m_rotor);
    assert_eq!(RotorType::III, settings.r_rotor);
    assert_eq!(ReflectorType::A, settings.reflector_type);
    assert_eq!(0, settings.l_initial_position.index());
    assert_eq!(0, settings.m_initial_position.index());
    assert_eq!(0, settings.r_initial_position.index());
    assert!(settings.plug_board_pairs.is_empty());
}
