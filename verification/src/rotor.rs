use vstd::prelude::*;

use crate::error::ConfigError;
use crate::specification::{
    lemma_rotor_table_is_permutation, rotor_notches, rotor_table, valid_notches, RotorSpec,
    RotorType,
};
use crate::wiring::{inverse_of, invert_table, is_permutation};

verus! {

/// One rotor wheel: a bijective wiring between 26 pins on its two faces,
/// its precomputed inverse, and one or two notch positions.
///
/// A signal passes through a rotor right-to-left on the way to the reflector
/// and left-to-right on the way back; the inverse table is built once at
/// construction time, never per call.  The rotor itself is immutable: its
/// position in the machine is machine state, not rotor state.
#[derive(Debug)]
pub struct Rotor {
    pub r_l_translation: Vec<u8>,
    pub l_r_translation: Vec<u8>,
    pub notch_positions: Vec<u8>,
}

/// The offset the rotor's position adds to a signal: the pin actually touched
/// when a signal arrives at index `i` while the rotor stands at `pos`, looked
/// up in `table`, with the position offset taken back off the result.
pub open spec fn rotor_pass(table: Seq<u8>, pos: int, i: int) -> int {
    (table[(i + pos) % 26] - pos + 26) % 26
}

/// A position-relative pass stays inside the alphabet.
pub proof fn lemma_rotor_pass_in_range(table: Seq<u8>, pos: int, i: int)
    requires
        table.len() == 26,
        forall|k: int| 0 <= k < 26 ==> table[k] < 26,
        0 <= pos < 26,
        0 <= i < 26,
    ensures
        0 <= rotor_pass(table, pos, i) < 26,
{
    assert(0 <= (i + pos) % 26 < 26);
    assert(table[(i + pos) % 26] < 26);
}

/// Passing a signal through a rotor and back through its inverse table at the
/// same position returns the signal unchanged.
pub proof fn lemma_rotor_pass_inverse(fwd: Seq<u8>, bwd: Seq<u8>, pos: int, i: int)
    requires
        inverse_of(bwd, fwd),
        0 <= pos < 26,
        0 <= i < 26,
    ensures
        0 <= rotor_pass(fwd, pos, i) < 26,
        rotor_pass(bwd, pos, rotor_pass(fwd, pos, i)) == i,
{
    let e = (i + pos) % 26;
    let x = fwd[e] as int;
    let y = (x - pos + 26) % 26;
    assert(y == rotor_pass(fwd, pos, i));
    assert(0 <= y < 26);
    assert((y + pos) % 26 == x) by {
        assert(y == (x - pos + 26) % 26);
    }
    assert(bwd[x] == e);
    assert(rotor_pass(bwd, pos, y) == (e - pos + 26) % 26);
    assert((e - pos + 26) % 26 == i) by {
        assert(e == (i + pos) % 26);
    }
}

impl Rotor {
    /// The two tables undo each other and the notch positions are in range.
    pub open spec fn wf(self) -> bool {
        inverse_of(self.l_r_translation@, self.r_l_translation@) && valid_notches(
            self.notch_positions@)
    }

    /// Builds a rotor from a blueprint, computing the inverse table, and
    /// rejecting a wiring that is not a permutation or notch positions that
    /// are absent, more than two, or out of range.
    pub fn from_spec(blueprint: RotorSpec) -> (r: Result<Rotor, ConfigError>)
        ensures
            r is Ok <==> is_permutation(blueprint.translation@) && valid_notches(
                blueprint.notches@),
            r matches Ok(rotor) ==> rotor.wf() && rotor.r_l_translation@ == blueprint.translation@
                && rotor.notch_positions@ == blueprint.notches@,
            r matches Err(e) ==> ((e == ConfigError::InvalidWiring) == !is_permutation(
                blueprint.translation@)),
            r matches Err(e) ==> ((e == ConfigError::InvalidNotch) == (is_permutation(
                blueprint.translation@) && !valid_notches(blueprint.notches@))),
    {
        let l_r = match invert_table(&blueprint.translation) {
            Some(inv) => inv,
            None => {
                return Err(ConfigError::InvalidWiring);
            },
        };
        if blueprint.notches.len() < 1 || blueprint.notches.len() > 2 {
            return Err(ConfigError::InvalidNotch);
        }
        let mut i: usize = 0;
        while i < blueprint.notches.len()
            invariant
                is_permutation(blueprint.translation@),
                1 <= blueprint.notches@.len() <= 2,
                i <= blueprint.notches@.len(),
                forall|k: int| 0 <= k < i ==> blueprint.notches@[k] < 26,
            decreases blueprint.notches@.len() - i,
        {
            if blueprint.notches[i] >= 26 {
                return Err(ConfigError::InvalidNotch);
            }
            i += 1;
        }
        Ok(Rotor {
            r_l_translation: blueprint.translation,
            l_r_translation: l_r,
            notch_positions: blueprint.notches,
        })
    }

    /// Builds the rotor of a named variant; the variant tables are proved
    /// valid, so this cannot fail.
    pub fn from_type(t: RotorType) -> (r: Rotor)
        ensures
            r.wf(),
            r.r_l_translation@ == rotor_table(t),
            r.notch_positions@ == rotor_notches(t),
    {
        proof {
            lemma_rotor_table_is_permutation(t);
        }
        match Rotor::from_spec(RotorSpec::of(t)) {
            Ok(r) => r,
            Err(_) => vstd::pervasive::unreached(),
        }
    }

    /// The raw right-to-left lookup: which pin of the left face is wired to
    /// pin `index` of the right face.
    pub fn encipher_right_to_left(&self, index: u8) -> (r: u8)
        requires
            self.wf(),
            index < 26,
        ensures
            r == self.r_l_translation@[index as int],
            r < 26,
            self.l_r_translation@[r as int] == index,
    {
        self.r_l_translation[index as usize]
    }

    /// The raw left-to-right lookup, through the precomputed inverse table.
    pub fn encipher_left_to_right(&self, index: u8) -> (r: u8)
        requires
            self.wf(),
            index < 26,
        ensures
            r == self.l_r_translation@[index as int],
            r < 26,
            self.r_l_translation@[r as int] == index,
    {
        self.l_r_translation[index as usize]
    }

    /// A position-relative right-to-left pass: the pin offset by the rotor's
    /// position is looked up and the offset taken back off, so the signal
    /// leaves in the fixed frame of the machine.
    pub fn enter(&self, index: u8, position: u8) -> (r: u8)
        requires
            self.wf(),
            index < 26,
            position < 26,
        ensures
            r == rotor_pass(self.r_l_translation@, position as int, index as int),
            r < 26,
    {
        let e = (index + position) % 26;
        let x = self.encipher_right_to_left(e);
        (x + 26 - position) % 26
    }

    /// The symmetric position-relative left-to-right pass, through the
    /// inverse table.
    pub fn exit(&self, index: u8, position: u8) -> (r: u8)
        requires
            self.wf(),
            index < 26,
            position < 26,
        ensures
            r == rotor_pass(self.l_r_translation@, position as int, index as int),
            r < 26,
    {
        let e = (index + position) % 26;
        let x = self.encipher_left_to_right(e);
        (x + 26 - position) % 26
    }

    /// Whether the rotor, standing at `position`, has a notch there: if so,
    /// leaving that position carries the next rotor in the stack with it.
    pub fn is_notch(&self, position: u8) -> (r: bool)
        requires
            self.wf(),
        ensures
            r == self.notch_positions@.contains(position),
    {
        let mut i: usize = 0;
        while i < self.notch_positions.len()
            invariant
                i <= self.notch_positions@.len(),
                forall|k: int| 0 <= k < i ==> self.notch_positions@[k] != position,
            decreases self.notch_positions@.len() - i,
        {
            if self.notch_positions[i] == position {
                return true;
            }
            i += 1;
        }
        false
    }
}

} // verus!
