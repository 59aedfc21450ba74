use vstd::prelude::*;

use crate::rotor::{lemma_rotor_pass_inverse, rotor_pass, Rotor};

verus! {

/// Three rotors arranged left, middle, right, together with their current
/// positions: the moving part of the machine.
///
/// A signal always traverses right-to-left towards the reflector and
/// left-to-right back.  Advancing the positions once per letter is what makes
/// the substitution alphabet change continuously.
#[derive(Debug)]
pub struct RotorBank {
    pub left: Rotor,
    pub middle: Rotor,
    pub right: Rotor,
    pub l_position: u8,
    pub m_position: u8,
    pub r_position: u8,
}

/// Where a signal entering the stack at pin `i` reaches the reflector.
pub open spec fn bank_forward(b: RotorBank, i: int) -> int {
    rotor_pass(
        b.left.r_l_translation@,
        b.l_position as int,
        rotor_pass(
            b.middle.r_l_translation@,
            b.m_position as int,
            rotor_pass(b.right.r_l_translation@, b.r_position as int, i),
        ),
    )
}

/// Where a signal leaving the reflector at pin `i` exits the stack.
pub open spec fn bank_backward(b: RotorBank, i: int) -> int {
    rotor_pass(
        b.right.l_r_translation@,
        b.r_position as int,
        rotor_pass(
            b.middle.l_r_translation@,
            b.m_position as int,
            rotor_pass(b.left.l_r_translation@, b.l_position as int, i),
        ),
    )
}

/// The right rotor advances on every letter.
pub open spec fn stepped_r_position(b: RotorBank) -> int {
    (b.r_position + 1) % 26
}

/// The middle rotor advances exactly when the right rotor leaves a notch
/// position, judged on the pre-advance position.
pub open spec fn stepped_m_position(b: RotorBank) -> int {
    if b.right.notch_positions@.contains(b.r_position) {
        (b.m_position + 1) % 26
    } else {
        b.m_position as int
    }
}

/// The left rotor advances exactly when the middle rotor stands at a notch,
/// judged on the pre-advance position.
pub open spec fn stepped_l_position(b: RotorBank) -> int {
    if b.middle.notch_positions@.contains(b.m_position) {
        (b.l_position + 1) % 26
    } else {
        b.l_position as int
    }
}

/// One transition of the stepping unit: all three decisions are taken on the
/// pre-advance positions of the same keypress, never chained off another
/// rotor's post-advance state.  The mechanical double-stepping anomaly of
/// some hardware, where the middle rotor sitting at its own notch advances
/// itself, is deliberately not reproduced; this rule is held invariant.
pub open spec fn stepped(b: RotorBank) -> RotorBank {
    RotorBank {
        l_position: stepped_l_position(b) as u8,
        m_position: stepped_m_position(b) as u8,
        r_position: stepped_r_position(b) as u8,
        ..b
    }
}

impl RotorBank {
    /// All three rotors are well-formed and all three positions in range.
    pub open spec fn wf(self) -> bool {
        &&& self.left.wf()
        &&& self.middle.wf()
        &&& self.right.wf()
        &&& self.l_position < 26
        &&& self.m_position < 26
        &&& self.r_position < 26
    }

    /// Sends a signal through right, middle and left rotor towards the
    /// reflector, each pass relative to that rotor's current position.
    pub fn encipher_right_to_left(&self, index: u8) -> (r: u8)
        requires
            self.wf(),
            index < 26,
        ensures
            r == bank_forward(*self, index as int),
            r < 26,
    {
        let index = self.right.enter(index, self.r_position);
        let index = self.middle.enter(index, self.m_position);
        let index = self.left.enter(index, self.l_position);
        index
    }

    /// Sends a signal back through left, middle and right rotor, through the
    /// inverse tables, each pass relative to that rotor's current position.
    pub fn encipher_left_to_right(&self, index: u8) -> (r: u8)
        requires
            self.wf(),
            index < 26,
        ensures
            r == bank_backward(*self, index as int),
            r < 26,
    {
        let index = self.left.exit(index, self.l_position);
        let index = self.middle.exit(index, self.m_position);
        let index = self.right.exit(index, self.r_position);
        index
    }

    /// Performs one stepping-unit transition.  The notch tests read the
    /// pre-advance positions, then the right rotor always advances, the
    /// middle one when the right rotor stood at a notch, and the left one
    /// when the middle rotor stood at a notch.
    pub fn turn(&mut self)
        requires
            old(self).wf(),
        ensures
            *final(self) == stepped(*old(self)),
            final(self).wf(),
    {
        let middle_at_notch = self.middle.is_notch(self.m_position);
        let right_at_notch = self.right.is_notch(self.r_position);
        if middle_at_notch {
            self.l_position = (self.l_position + 1) % 26;
        }
        if right_at_notch {
            self.m_position = (self.m_position + 1) % 26;
        }
        self.r_position = (self.r_position + 1) % 26;
    }

    /// Moves the three rotors to the given positions, leaving the rotors
    /// themselves untouched.  Mind the parameter order: left, right, middle.
    pub fn set_positions(&mut self, left: u8, right: u8, middle: u8)
        requires
            old(self).left.wf(),
            old(self).middle.wf(),
            old(self).right.wf(),
            left < 26,
            right < 26,
            middle < 26,
        ensures
            final(self).wf(),
            final(self).l_position == left,
            final(self).r_position == right,
            final(self).m_position == middle,
            final(self).left == old(self).left,
            final(self).middle == old(self).middle,
            final(self).right == old(self).right,
    {
        self.l_position = left;
        self.r_position = right;
        self.m_position = middle;
    }
}

/// Sending a signal to the reflector and back through the same bank returns
/// it to its entry pin, and both directions stay inside the alphabet.
pub proof fn lemma_bank_forward_inverse(b: RotorBank, i: int)
    requires
        b.wf(),
        0 <= i < 26,
    ensures
        0 <= bank_forward(b, i) < 26,
        bank_backward(b, bank_forward(b, i)) == i,
{
    let a = rotor_pass(b.right.r_l_translation@, b.r_position as int, i);
    lemma_rotor_pass_inverse(b.right.r_l_translation@, b.right.l_r_translation@,
        b.r_position as int, i);
    let c = rotor_pass(b.middle.r_l_translation@, b.m_position as int, a);
    lemma_rotor_pass_inverse(b.middle.r_l_translation@, b.middle.l_r_translation@,
        b.m_position as int, a);
    lemma_rotor_pass_inverse(b.left.r_l_translation@, b.left.l_r_translation@,
        b.l_position as int, c);
}

/// The mirror image: a signal sent backwards and then forwards also returns
/// to its entry pin.
pub proof fn lemma_bank_backward_inverse(b: RotorBank, i: int)
    requires
        b.wf(),
        0 <= i < 26,
    ensures
        0 <= bank_backward(b, i) < 26,
        bank_forward(b, bank_backward(b, i)) == i,
{
    let a = rotor_pass(b.left.l_r_translation@, b.l_position as int, i);
    lemma_rotor_pass_inverse(b.left.l_r_translation@, b.left.r_l_translation@,
        b.l_position as int, i);
    let c = rotor_pass(b.middle.l_r_translation@, b.m_position as int, a);
    lemma_rotor_pass_inverse(b.middle.l_r_translation@, b.middle.r_l_translation@,
        b.m_position as int, a);
    lemma_rotor_pass_inverse(b.right.l_r_translation@, b.right.r_l_translation@,
        b.r_position as int, c);
}

} // verus!
