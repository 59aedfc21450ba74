use enigma::reflector::Reflector;
use enigma::specification::ReflectorType;

#[test]
fn reflector_a_reflects_a_to_z() {
    let reflector = Reflector::from_type(ReflectorType::A);
    let output = reflector.encipher(0);
    assert_eq!(25, output);
}

#[test]
fn reflector_a_reflects_z_to_a() {
    let reflector = Reflector::from_type(ReflectorType::A);
    let output = reflector.encipher(25);
    assert_eq!(0, output);
}

#[test]
fn reflector_b_reflects_k_to_n() {
    let reflector = Reflector::from_type(ReflectorType::B);
    let output = reflector.encipher(10);
    assert_eq!(13, output);
}

#[test]
fn reflector_c_reflects_q() {
    let reflector = Reflector::from_type(ReflectorType::C);
    let output = reflector.encipher(16);
    assert_eq!(19, output);
}

#[test]
fn every_reflector_is_a_fixed_point_free_involution() {
    for rt in [ReflectorType::A, ReflectorType::B, ReflectorType::C] {
        let reflector = Reflector::from_type(rt);
        for i in 0..26u8 {
            let out = reflector.encipher(i);
            assert_ne!(i, out);
            assert_eq!(i, reflector.encipher(out));
        }
    }
}
