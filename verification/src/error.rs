use vstd::prelude::*;

verus! {

/// Why a machine configuration was rejected.
///
/// Construction-time validation surfaces one of these to the caller; once a
/// machine has been built, enciphering never fails.
#[derive(Clone, Copy, Debug, PartialEq, Eq, Structural)]
pub enum ConfigError {
    /// Two of the three rotor slots name the same rotor variant.
    DuplicateRotor,
    /// A rotor selector names none of the rotors I-VIII.
    InvalidRotorSelector,
    /// A reflector selector names none of the reflectors A-C.
    InvalidReflectorSelector,
    /// An initial rotor position lies outside 'A'-'Z' (index 0-25).
    InvalidPosition,
    /// A wiring specification is not a 26-entry permutation of the alphabet,
    /// or a reflector wiring maps some letter to itself or is not symmetric.
    InvalidWiring,
    /// A rotor specification has no notch, more than two, or one out of range.
    InvalidNotch,
    /// A plug pair is out of range, connects a letter to itself, or reuses an
    /// already plugged letter.
    InvalidPlug,
}

} // verus!
