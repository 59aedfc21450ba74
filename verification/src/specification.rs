use vstd::prelude::*;

use crate::error::ConfigError;
use vstd::string::StrSliceExecFns;

use crate::wiring::{inverse_of, involutive, fixed_point_free, is_permutation,
    lemma_inverse_permutation};

verus! {

/// The rotor variants a machine can be fitted with, named as the historical
/// wheels I-VIII.  Rotor identity is this closed enum with value equality, so
/// that duplicate-rotor detection is exact.
#[derive(Clone, Copy, Debug, PartialEq, Eq, Structural)]
pub enum RotorType {
    I,
    II,
    III,
    IV,
    V,
    VI,
    VII,
    VIII,
}

/// The reflector variants a machine can be fitted with, named A-C.
#[derive(Clone, Copy, Debug, PartialEq, Eq, Structural)]
pub enum ReflectorType {
    A,
    B,
    C,
}

/// One or two notch positions, each an alphabet index.
pub open spec fn valid_notches(n: Seq<u8>) -> bool {
    1 <= n.len() <= 2 && forall|i: int| 0 <= i < n.len() ==> n[i] < 26
}

/// The forward wiring of each rotor variant: entry i is the pin a signal
/// entering at pin i leaves from.
pub open spec fn rotor_table(t: RotorType) -> Seq<u8> {
    match t {
        RotorType::I => seq![4u8, 10u8, 12u8, 5u8, 11u8, 6u8, 3u8, 16u8, 21u8, 25u8, 13u8, 19u8, 14u8, 22u8, 24u8, 7u8, 23u8, 20u8, 18u8, 15u8, 0u8, 8u8, 1u8, 17u8, 2u8, 9u8],
        RotorType::II => seq![0u8, 9u8, 3u8, 10u8, 18u8, 8u8, 17u8, 20u8, 23u8, 1u8, 11u8, 7u8, 22u8, 19u8, 12u8, 2u8, 16u8, 6u8, 25u8, 13u8, 15u8, 24u8, 5u8, 21u8, 14u8, 4u8],
        RotorType::III => seq![1u8, 3u8, 5u8, 7u8, 9u8, 11u8, 2u8, 15u8, 17u8, 19u8, 23u8, 21u8, 25u8, 13u8, 24u8, 4u8, 8u8, 22u8, 6u8, 0u8, 10u8, 12u8, 20u8, 18u8, 16u8, 14u8],
        RotorType::IV => seq![4u8, 18u8, 14u8, 21u8, 15u8, 25u8, 9u8, 0u8, 24u8, 16u8, 20u8, 8u8, 17u8, 7u8, 23u8, 11u8, 13u8, 5u8, 19u8, 6u8, 10u8, 3u8, 2u8, 12u8, 22u8, 1u8],
        RotorType::V => seq![21u8, 25u8, 1u8, 17u8, 6u8, 8u8, 19u8, 24u8, 20u8, 15u8, 18u8, 3u8, 13u8, 7u8, 11u8, 23u8, 0u8, 22u8, 12u8, 9u8, 16u8, 14u8, 5u8, 4u8, 2u8, 10u8],
        RotorType::VI => seq![9u8, 15u8, 6u8, 21u8, 14u8, 20u8, 12u8, 5u8, 24u8, 16u8, 1u8, 4u8, 13u8, 7u8, 25u8, 17u8, 3u8, 10u8, 0u8, 18u8, 23u8, 11u8, 8u8, 2u8, 19u8, 22u8],
        RotorType::VII => seq![13u8, 25u8, 9u8, 7u8, 6u8, 17u8, 2u8, 23u8, 12u8, 24u8, 18u8, 22u8, 1u8, 14u8, 20u8, 5u8, 0u8, 8u8, 21u8, 11u8, 15u8, 4u8, 10u8, 16u8, 3u8, 19u8],
        RotorType::VIII => seq![5u8, 10u8, 16u8, 7u8, 19u8, 11u8, 23u8, 14u8, 2u8, 1u8, 9u8, 18u8, 15u8, 3u8, 25u8, 17u8, 0u8, 12u8, 4u8, 22u8, 13u8, 8u8, 20u8, 24u8, 6u8, 21u8],
    }
}

/// The inverse of each rotor wiring, used to prove that every rotor table is
/// a bijection.
spec fn rotor_inverse_table(t: RotorType) -> Seq<u8> {
    match t {
        RotorType::I => seq![20u8, 22u8, 24u8, 6u8, 0u8, 3u8, 5u8, 15u8, 21u8, 25u8, 1u8, 4u8, 2u8, 10u8, 12u8, 19u8, 7u8, 23u8, 18u8, 11u8, 17u8, 8u8, 13u8, 16u8, 14u8, 9u8],
        RotorType::II => seq![0u8, 9u8, 15u8, 2u8, 25u8, 22u8, 17u8, 11u8, 5u8, 1u8, 3u8, 10u8, 14u8, 19u8, 24u8, 20u8, 16u8, 6u8, 4u8, 13u8, 7u8, 23u8, 12u8, 8u8, 21u8, 18u8],
        RotorType::III => seq![19u8, 0u8, 6u8, 1u8, 15u8, 2u8, 18u8, 3u8, 16u8, 4u8, 20u8, 5u8, 21u8, 13u8, 25u8, 7u8, 24u8, 8u8, 23u8, 9u8, 22u8, 11u8, 17u8, 10u8, 14u8, 12u8],
        RotorType::IV => seq![7u8, 25u8, 22u8, 21u8, 0u8, 17u8, 19u8, 13u8, 11u8, 6u8, 20u8, 15u8, 23u8, 16u8, 2u8, 4u8, 9u8, 12u8, 1u8, 18u8, 10u8, 3u8, 24u8, 14u8, 8u8, 5u8],
        RotorType::V => seq![16u8, 2u8, 24u8, 11u8, 23u8, 22u8, 4u8, 13u8, 5u8, 19u8, 25u8, 14u8, 18u8, 12u8, 21u8, 9u8, 20u8, 3u8, 10u8, 6u8, 8u8, 0u8, 17u8, 15u8, 7u8, 1u8],
        RotorType::VI => seq![18u8, 10u8, 23u8, 16u8, 11u8, 7u8, 2u8, 13u8, 22u8, 0u8, 17u8, 21u8, 6u8, 12u8, 4u8, 1u8, 9u8, 15u8, 19u8, 24u8, 5u8, 3u8, 25u8, 20u8, 8u8, 14u8],
        RotorType::VII => seq![16u8, 12u8, 6u8, 24u8, 21u8, 15u8, 4u8, 3u8, 17u8, 2u8, 22u8, 19u8, 8u8, 0u8, 13u8, 20u8, 23u8, 5u8, 10u8, 25u8, 14u8, 18u8, 11u8, 7u8, 9u8, 1u8],
        RotorType::VIII => seq![16u8, 9u8, 8u8, 13u8, 18u8, 0u8, 24u8, 3u8, 21u8, 10u8, 1u8, 5u8, 17u8, 20u8, 7u8, 12u8, 2u8, 15u8, 11u8, 4u8, 22u8, 25u8, 19u8, 6u8, 23u8, 14u8],
    }
}

/// The notch positions of each rotor variant.
pub open spec fn rotor_notches(t: RotorType) -> Seq<u8> {
    match t {
        RotorType::I => seq![16u8],
        RotorType::II => seq![4u8],
        RotorType::III => seq![21u8],
        RotorType::IV => seq![9u8],
        RotorType::V => seq![25u8],
        RotorType::VI => seq![25u8, 12u8],
        RotorType::VII => seq![25u8, 12u8],
        RotorType::VIII => seq![25u8, 12u8],
    }
}

/// The wiring of each reflector variant.
pub open spec fn reflector_table(r: ReflectorType) -> Seq<u8> {
    match r {
        ReflectorType::A => seq![25u8, 24u8, 23u8, 22u8, 21u8, 20u8, 19u8, 18u8, 17u8, 16u8, 15u8, 14u8, 13u8, 12u8, 11u8, 10u8, 9u8, 8u8, 7u8, 6u8, 5u8, 4u8, 3u8, 2u8, 1u8, 0u8],
        ReflectorType::B => seq![24u8, 17u8, 20u8, 7u8, 16u8, 18u8, 11u8, 3u8, 15u8, 23u8, 13u8, 6u8, 14u8, 10u8, 12u8, 8u8, 4u8, 1u8, 5u8, 25u8, 2u8, 22u8, 21u8, 9u8, 0u8, 19u8],
        ReflectorType::C => seq![5u8, 21u8, 15u8, 9u8, 8u8, 0u8, 14u8, 24u8, 4u8, 3u8, 17u8, 25u8, 23u8, 22u8, 6u8, 2u8, 19u8, 10u8, 20u8, 16u8, 18u8, 1u8, 13u8, 12u8, 7u8, 11u8],
    }
}

/// The selector spelling of each rotor variant.
pub open spec fn rotor_selector(t: RotorType) -> Seq<char> {
    match t {
        RotorType::I => seq!['I'],
        RotorType::II => seq!['I', 'I'],
        RotorType::III => seq!['I', 'I', 'I'],
        RotorType::IV => seq!['I', 'V'],
        RotorType::V => seq!['V'],
        RotorType::VI => seq!['V', 'I'],
        RotorType::VII => seq!['V', 'I', 'I'],
        RotorType::VIII => seq!['V', 'I', 'I', 'I'],
    }
}

/// The selector spelling of each reflector variant.
pub open spec fn reflector_selector(r: ReflectorType) -> Seq<char> {
    match r {
        ReflectorType::A => seq!['A'],
        ReflectorType::B => seq!['B'],
        ReflectorType::C => seq!['C'],
    }
}

/// Every rotor variant's derived table is a bijection over [0, 25], and its
/// notch positions are in range.
pub proof fn lemma_rotor_table_is_permutation(t: RotorType)
    ensures
        is_permutation(rotor_table(t)),
        valid_notches(rotor_notches(t)),
{
    assert(inverse_of(rotor_inverse_table(t), rotor_table(t))) by {
        match t {
            RotorType::I => {
                assert(inverse_of(rotor_inverse_table(RotorType::I), rotor_table(
                    RotorType::I)));
            },
            RotorType::II => {
                assert(inverse_of(rotor_inverse_table(RotorType::II), rotor_table(
                    RotorType::II)));
            },
            RotorType::III => {
                assert(inverse_of(rotor_inverse_table(RotorType::III), rotor_table(
                    RotorType::III)));
            },
            RotorType::IV => {
                assert(inverse_of(rotor_inverse_table(RotorType::IV), rotor_table(
                    RotorType::IV)));
            },
            RotorType::V => {
                assert(inverse_of(rotor_inverse_table(RotorType::V), rotor_table(
                    RotorType::V)));
            },
            RotorType::VI => {
                assert(inverse_of(rotor_inverse_table(RotorType::VI), rotor_table(
                    RotorType::VI)));
            },
            RotorType::VII => {
                assert(inverse_of(rotor_inverse_table(RotorType::VII), rotor_table(
                    RotorType::VII)));
            },
            RotorType::VIII => {
                assert(inverse_of(rotor_inverse_table(RotorType::VIII), rotor_table(
                    RotorType::VIII)));
            },
        }
    }
    lemma_inverse_permutation(rotor_inverse_table(t), rotor_table(t));
    assert(valid_notches(rotor_notches(t))) by {
        match t {
            RotorType::I => {
                assert(valid_notches(rotor_notches(RotorType::I)));
            },
            RotorType::II => {
                assert(valid_notches(rotor_notches(RotorType::II)));
            },
            RotorType::III => {
                assert(valid_notches(rotor_notches(RotorType::III)));
            },
            RotorType::IV => {
                assert(valid_notches(rotor_notches(RotorType::IV)));
            },
            RotorType::V => {
                assert(valid_notches(rotor_notches(RotorType::V)));
            },
            RotorType::VI => {
                assert(valid_notches(rotor_notches(RotorType::VI)));
            },
            RotorType::VII => {
                assert(valid_notches(rotor_notches(RotorType::VII)));
            },
            RotorType::VIII => {
                assert(valid_notches(rotor_notches(RotorType::VIII)));
            },
        }
    }
}

/// Every reflector variant's derived table is an involution with no fixed
/// point, and therefore also a bijection over [0, 25].
pub proof fn lemma_reflector_table_is_involution(r: ReflectorType)
    ensures
        involutive(reflector_table(r)),
        fixed_point_free(reflector_table(r)),
        is_permutation(reflector_table(r)),
{
    assert(involutive(reflector_table(r)) && fixed_point_free(reflector_table(r))) by {
        match r {
            ReflectorType::A => {
                assert(involutive(reflector_table(ReflectorType::A)));
                assert(fixed_point_free(reflector_table(ReflectorType::A)));
            },
            ReflectorType::B => {
                assert(involutive(reflector_table(ReflectorType::B)));
                assert(fixed_point_free(reflector_table(ReflectorType::B)));
            },
            ReflectorType::C => {
                assert(involutive(reflector_table(ReflectorType::C)));
                assert(fixed_point_free(reflector_table(ReflectorType::C)));
            },
        }
    }
    assert(inverse_of(reflector_table(r), reflector_table(r)));
    lemma_inverse_permutation(reflector_table(r), reflector_table(r));
}

/// A blueprint for constructing a `Rotor`: the forward wiring as 26 alphabet
/// indexes, plus one or two notch positions.
pub struct RotorSpec {
    pub translation: Vec<u8>,
    pub notches: Vec<u8>,
}

impl RotorSpec {
    /// The blueprint of a rotor variant.
    pub fn of(t: RotorType) -> (s: RotorSpec)
        ensures
            s.translation@ == rotor_table(t),
            s.notches@ == rotor_notches(t),
    {
        match t {
            RotorType::I => {
                let translation: Vec<u8> = vec![4, 10, 12, 5, 11, 6, 3, 16, 21, 25, 13, 19, 14, 22, 24, 7, 23, 20, 18, 15, 0, 8, 1, 17, 2, 9];
                let notches: Vec<u8> = vec![16];
                proof {
                    assert(translation@ =~= rotor_table(RotorType::I));
                    assert(notches@ =~= rotor_notches(RotorType::I));
                }
                RotorSpec { translation, notches }
            },
            RotorType::II => {
                let translation: Vec<u8> = vec![0, 9, 3, 10, 18, 8, 17, 20, 23, 1, 11, 7, 22, 19, 12, 2, 16, 6, 25, 13, 15, 24, 5, 21, 14, 4];
                let notches: Vec<u8> = vec![4];
                proof {
                    assert(translation@ =~= rotor_table(RotorType::II));
                    assert(notches@ =~= rotor_notches(RotorType::II));
                }
                RotorSpec { translation, notches }
            },
            RotorType::III => {
                let translation: Vec<u8> = vec![1, 3, 5, 7, 9, 11, 2, 15, 17, 19, 23, 21, 25, 13, 24, 4, 8, 22, 6, 0, 10, 12, 20, 18, 16, 14];
                let notches: Vec<u8> = vec![21];
                proof {
                    assert(translation@ =~= rotor_table(RotorType::III));
                    assert(notches@ =~= rotor_notches(RotorType::III));
                }
                RotorSpec { translation, notches }
            },
            RotorType::IV => {
                let translation: Vec<u8> = vec![4, 18, 14, 21, 15, 25, 9, 0, 24, 16, 20, 8, 17, 7, 23, 11, 13, 5, 19, 6, 10, 3, 2, 12, 22, 1];
                let notches: Vec<u8> = vec![9];
                proof {
                    assert(translation@ =~= rotor_table(RotorType::IV));
                    assert(notches@ =~= rotor_notches(RotorType::IV));
                }
                RotorSpec { translation, notches }
            },
            RotorType::V => {
                let translation: Vec<u8> = vec![21, 25, 1, 17, 6, 8, 19, 24, 20, 15, 18, 3, 13, 7, 11, 23, 0, 22, 12, 9, 16, 14, 5, 4, 2, 10];
                let notches: Vec<u8> = vec![25];
                proof {
                    assert(translation@ =~= rotor_table(RotorType::V));
                    assert(notches@ =~= rotor_notches(RotorType::V));
                }
                RotorSpec { translation, notches }
            },
            RotorType::VI => {
                let translation: Vec<u8> = vec![9, 15, 6, 21, 14, 20, 12, 5, 24, 16, 1, 4, 13, 7, 25, 17, 3, 10, 0, 18, 23, 11, 8, 2, 19, 22];
                let notches: Vec<u8> = vec![25, 12];
                proof {
                    assert(translation@ =~= rotor_table(RotorType::VI));
                    assert(notches@ =~= rotor_notches(RotorType::VI));
                }
                RotorSpec { translation, notches }
            },
            RotorType::VII => {
                let translation: Vec<u8> = vec![13, 25, 9, 7, 6, 17, 2, 23, 12, 24, 18, 22, 1, 14, 20, 5, 0, 8, 21, 11, 15, 4, 10, 16, 3, 19];
                let notches: Vec<u8> = vec![25, 12];
                proof {
                    assert(translation@ =~= rotor_table(RotorType::VII));
                    assert(notches@ =~= rotor_notches(RotorType::VII));
                }
                RotorSpec { translation, notches }
            },
            RotorType::VIII => {
                let translation: Vec<u8> = vec![5, 10, 16, 7, 19, 11, 23, 14, 2, 1, 9, 18, 15, 3, 25, 17, 0, 12, 4, 22, 13, 8, 20, 24, 6, 21];
                let notches: Vec<u8> = vec![25, 12];
                proof {
                    assert(translation@ =~= rotor_table(RotorType::VIII));
                    assert(notches@ =~= rotor_notches(RotorType::VIII));
                }
                RotorSpec { translation, notches }
            },
        }
    }
}

/// A blueprint for constructing a `Reflector`: the wiring as 26 alphabet
/// indexes, pairwise symmetric and without fixed points.
pub struct ReflectorSpec {
    pub translation: Vec<u8>,
}

impl ReflectorSpec {
    /// The blueprint of a reflector variant.
    pub fn of(r: ReflectorType) -> (s: ReflectorSpec)
        ensures
            s.translation@ == reflector_table(r),
    {
        match r {
            ReflectorType::A => {
                let translation: Vec<u8> = vec![25, 24, 23, 22, 21, 20, 19, 18, 17, 16, 15, 14, 13, 12, 11, 10, 9, 8, 7, 6, 5, 4, 3, 2, 1, 0];
                proof {
                    assert(translation@ =~= reflector_table(ReflectorType::A));
                }
                ReflectorSpec { translation }
            },
            ReflectorType::B => {
                let translation: Vec<u8> = vec![24, 17, 20, 7, 16, 18, 11, 3, 15, 23, 13, 6, 14, 10, 12, 8, 4, 1, 5, 25, 2, 22, 21, 9, 0, 19];
                proof {
                    assert(translation@ =~= reflector_table(ReflectorType::B));
                }
                ReflectorSpec { translation }
            },
            ReflectorType::C => {
                let translation: Vec<u8> = vec![5, 21, 15, 9, 8, 0, 14, 24, 4, 3, 17, 25, 23, 22, 6, 2, 19, 10, 20, 16, 18, 1, 13, 12, 7, 11];
                proof {
                    assert(translation@ =~= reflector_table(ReflectorType::C));
                }
                ReflectorSpec { translation }
            },
        }
    }
}

impl RotorType {
    /// Parses a rotor selector, one of the roman numerals "I" through "VIII".
    pub fn from_selector(s: &str) -> (r: Result<RotorType, ConfigError>)
        ensures
            r matches Ok(t) ==> s@ == rotor_selector(t),
            r matches Err(e) ==> e == ConfigError::InvalidRotorSelector,
            s@ == rotor_selector(RotorType::I) ==> (r matches Ok(t) && t == RotorType::I),
            s@ == rotor_selector(RotorType::II) ==> (r matches Ok(t) && t == RotorType::II),
            s@ == rotor_selector(RotorType::III) ==> (r matches Ok(t) && t == RotorType::III),
            s@ == rotor_selector(RotorType::IV) ==> (r matches Ok(t) && t == RotorType::IV),
            s@ == rotor_selector(RotorType::V) ==> (r matches Ok(t) && t == RotorType::V),
            s@ == rotor_selector(RotorType::VI) ==> (r matches Ok(t) && t == RotorType::VI),
            s@ == rotor_selector(RotorType::VII) ==> (r matches Ok(t) && t == RotorType::VII),
            s@ == rotor_selector(RotorType::VIII) ==> (r matches Ok(t) && t == RotorType::VIII),
    {
        let n = s.unicode_len();
        if n == 1 {
            let c0 = s.get_char(0);
            if c0 == 'I' {
                proof {
                    assert(s@ =~= rotor_selector(RotorType::I));
                }
                Ok(RotorType::I)
            } else if c0 == 'V' {
                proof {
                    assert(s@ =~= rotor_selector(RotorType::V));
                }
                Ok(RotorType::V)
            } else {
                Err(ConfigError::InvalidRotorSelector)
            }
        } else if n == 2 {
            let c0 = s.get_char(0);
            let c1 = s.get_char(1);
            if c0 == 'I' && c1 == 'I' {
                proof {
                    assert(s@ =~= rotor_selector(RotorType::II));
                }
                Ok(RotorType::II)
            } else if c0 == 'I' && c1 == 'V' {
                proof {
                    assert(s@ =~= rotor_selector(RotorType::IV));
                }
                Ok(RotorType::IV)
            } else if c0 == 'V' && c1 == 'I' {
                proof {
                    assert(s@ =~= rotor_selector(RotorType::VI));
                }
                Ok(RotorType::VI)
            } else {
                Err(ConfigError::InvalidRotorSelector)
            }
        } else if n == 3 {
            let c0 = s.get_char(0);
            let c1 = s.get_char(1);
            let c2 = s.get_char(2);
            if c0 == 'I' && c1 == 'I' && c2 == 'I' {
                proof {
                    assert(s@ =~= rotor_selector(RotorType::III));
                }
                Ok(RotorType::III)
            } else if c0 == 'V' && c1 == 'I' && c2 == 'I' {
                proof {
                    assert(s@ =~= rotor_selector(RotorType::VII));
                }
                Ok(RotorType::VII)
            } else {
                Err(ConfigError::InvalidRotorSelector)
            }
        } else if n == 4 {
            let c0 = s.get_char(0);
            let c1 = s.get_char(1);
            let c2 = s.get_char(2);
            let c3 = s.get_char(3);
            if c0 == 'V' && c1 == 'I' && c2 == 'I' && c3 == 'I' {
                proof {
                    assert(s@ =~= rotor_selector(RotorType::VIII));
                }
                Ok(RotorType::VIII)
            } else {
                Err(ConfigError::InvalidRotorSelector)
            }
        } else {
            Err(ConfigError::InvalidRotorSelector)
        }
    }
}

impl ReflectorType {
    /// Parses a reflector selector, one of "A", "B" and "C".
    pub fn from_selector(s: &str) -> (r: Result<ReflectorType, ConfigError>)
        ensures
            r matches Ok(t) ==> s@ == reflector_selector(t),
            r matches Err(e) ==> e == ConfigError::InvalidReflectorSelector,
            s@ == reflector_selector(ReflectorType::A) ==> (r matches Ok(t) && t
                == ReflectorType::A),
            s@ == reflector_selector(ReflectorType::B) ==> (r matches Ok(t) && t
                == ReflectorType::B),
            s@ == reflector_selector(ReflectorType::C) ==> (r matches Ok(t) && t
                == ReflectorType::C),
    {
        let n = s.unicode_len();
        if n == 1 {
            let c0 = s.get_char(0);
            if c0 == 'A' {
                proof {
                    assert(s@ =~= reflector_selector(ReflectorType::A));
                }
                Ok(ReflectorType::A)
            } else if c0 == 'B' {
                proof {
                    assert(s@ =~= reflector_selector(ReflectorType::B));
                }
                Ok(ReflectorType::B)
            } else if c0 == 'C' {
                proof {
                    assert(s@ =~= reflector_selector(ReflectorType::C));
                }
                Ok(ReflectorType::C)
            } else {
                Err(ConfigError::InvalidReflectorSelector)
            }
        } else {
            Err(ConfigError::InvalidReflectorSelector)
        }
    }
}

} // verus!
