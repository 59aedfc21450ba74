use vstd::prelude::*;

use crate::letter::Letter;
use crate::specification::{ReflectorType, RotorType};

verus! {

/// A complete machine configuration: which rotor goes in which slot, the
/// initial position of each, the reflector, and any plug pairs for the
/// optional plug-transposition stage.
///
/// The plug pairs are not part of the core machine; they are handed to a
/// `Plugboard` that decorates the machine from outside.
#[derive(Debug)]
pub struct Settings {
    pub l_rotor: RotorType,
    pub m_rotor: RotorType,
    pub r_rotor: RotorType,
    pub l_initial_position: Letter,
    pub m_initial_position: Letter,
    pub r_initial_position: Letter,
    pub reflector_type: ReflectorType,
    pub plug_board_pairs: Vec<(Letter, Letter)>,
}

impl Settings {
    /// The default configuration: rotors I, II and III from left to right,
    /// every rotor at 'A', reflector A, and no plugs.
    pub fn new() -> (s: Settings)
        ensures
            s.l_rotor == RotorType::I,
            s.m_rotor == RotorType::II,
            s.r_rotor == RotorType::III,
            s.l_initial_position == (Letter { byte: 0 }),
            s.m_initial_position == (Letter { byte: 0 }),
            s.r_initial_position == (Letter { byte: 0 }),
            s.reflector_type == ReflectorType::A,
            s.plug_board_pairs@.len() == 0,
    {
        Settings {
            l_rotor: RotorType::I,
            m_rotor: RotorType::II,
            r_rotor: RotorType::III,
            l_initial_position: Letter { byte: 0 },
            m_initial_position: Letter { byte: 0 },
            r_initial_position: Letter { byte: 0 },
            reflector_type: ReflectorType::A,
            plug_board_pairs: Vec::new(),
        }
    }
}

} // verus!
