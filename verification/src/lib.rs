//! The cryptographic core of an electromechanical rotor cipher machine.
//!
//! A machine is configured once — three rotors, a reflector and three initial
//! rotor positions — and then turns one letter into another, advancing its
//! mechanical state after every letter so that the substitution alphabet
//! changes continuously.  Every table is a proved bijection over the 26-letter
//! alphabet, the per-letter substitution is proved self-reciprocal, and the
//! stepping state machine is proved deterministic.

pub mod components;
pub mod enigma;
pub mod error;
pub mod letter;
pub mod parser;
pub mod plugboard;
pub mod reflector;
pub mod rotor;
pub mod settings;
pub mod specification;
pub mod wiring;

pub use components::RotorBank;
pub use enigma::EnigmaMachine;
pub use error::ConfigError;
pub use letter::Letter;
pub use parser::{parse_byte, BufferParser};
pub use plugboard::Plugboard;
pub use reflector::Reflector;
pub use rotor::Rotor;
pub use settings::Settings;
pub use specification::{ReflectorSpec, ReflectorType, RotorSpec, RotorType};
