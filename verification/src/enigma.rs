use vstd::prelude::*;

use crate::components::{
    bank_backward, bank_forward, lemma_bank_backward_inverse, lemma_bank_forward_inverse, stepped,
    RotorBank,
};
use crate::error::ConfigError;
use crate::letter::Letter;
use crate::reflector::Reflector;
use crate::rotor::Rotor;
use crate::settings::Settings;
use crate::specification::{reflector_table, rotor_notches, rotor_table, ReflectorType, RotorType};

verus! {

/// The assembled machine: one reflector and three rotors with their current
/// positions.
///
/// `encipher` is the one runtime operation: it sends a letter through the
/// rotor stack, off the reflector and back, then advances the stepping unit
/// once.  After valid construction it is total — no letter can make a lookup
/// fail — and each keypress substitution undoes itself, which is what makes
/// one configuration serve for both enciphering and deciphering.
#[derive(Debug)]
pub struct EnigmaMachine {
    pub reflector: Reflector,
    pub rotors: RotorBank,
}

/// The letter that one keypress substitutes for pin `i`, before stepping:
/// right-to-left through the stack, off the reflector, left-to-right back.
/// Opaque so that proofs about whole runs can treat one substitution as a
/// unit; `lemma_encipher_involutive` states everything they need of it.
#[verifier::opaque]
pub open spec fn encipher_spec(m: EnigmaMachine, i: int) -> int {
    bank_backward(m.rotors, m.reflector.translation@[bank_forward(m.rotors, i)] as int)
}

/// The machine after one stepping-unit transition; the tables never change,
/// only the three positions.
pub open spec fn step(m: EnigmaMachine) -> EnigmaMachine {
    EnigmaMachine { rotors: stepped(m.rotors), ..m }
}

/// The machine after `n` keypresses.  It depends only on `n` and the initial
/// state: stepping never reads the letters, so the position sequence of a
/// fixed configuration is a pure function of the call count.
pub open spec fn machine_after(m: EnigmaMachine, n: nat) -> EnigmaMachine
    decreases n,
{
    if n == 0 {
        m
    } else {
        machine_after(step(m), (n - 1) as nat)
    }
}

/// The letter stream a machine starting at `m` produces from `inputs`.
pub open spec fn encipher_seq(m: EnigmaMachine, inputs: Seq<int>) -> Seq<int>
    decreases inputs.len(),
{
    if inputs.len() == 0 {
        Seq::empty()
    } else {
        seq![encipher_spec(m, inputs[0])] + encipher_seq(step(m), inputs.drop_first())
    }
}

/// The alphabet indexes of a letter sequence.
pub open spec fn letter_indexes(s: Seq<Letter>) -> Seq<int> {
    s.map_values(|l: Letter| l.byte as int)
}

impl EnigmaMachine {
    /// The reflector and all rotors are well-formed and the positions in
    /// range.
    pub open spec fn wf(self) -> bool {
        self.reflector.wf() && self.rotors.wf()
    }

    /// Assembles a machine from named variants and initial positions.
    ///
    /// The three rotor slots must name pairwise distinct variants — rotor
    /// identity is the variant, compared by value — and each initial
    /// position must be a valid letter.
    pub fn new(
        reflector: ReflectorType,
        left: RotorType,
        middle: RotorType,
        right: RotorType,
        l_position: Letter,
        m_position: Letter,
        r_position: Letter,
    ) -> (r: Result<EnigmaMachine, ConfigError>)
        ensures
            r is Ok <==> (left != middle && left != right && middle != right && l_position.wf()
                && m_position.wf() && r_position.wf()),
            r matches Err(e) ==> ((e == ConfigError::DuplicateRotor) == !(left != middle && left
                != right && middle != right)),
            r matches Err(e) ==> ((e == ConfigError::InvalidPosition) == ((left != middle && left
                != right && middle != right) && !(l_position.wf() && m_position.wf()
                && r_position.wf()))),
            r matches Ok(m) ==> m.wf() && m.reflector.translation@ == reflector_table(reflector)
                && m.rotors.left.r_l_translation@ == rotor_table(left)
                && m.rotors.middle.r_l_translation@ == rotor_table(middle)
                && m.rotors.right.r_l_translation@ == rotor_table(right)
                && m.rotors.left.notch_positions@ == rotor_notches(left)
                && m.rotors.middle.notch_positions@ == rotor_notches(middle)
                && m.rotors.right.notch_positions@ == rotor_notches(right)
                && m.rotors.l_position == l_position.byte && m.rotors.m_position
                == m_position.byte && m.rotors.r_position == r_position.byte,
    {
        if left == middle || left == right || middle == right {
            return Err(ConfigError::DuplicateRotor);
        }
        if l_position.byte >= 26 || m_position.byte >= 26 || r_position.byte >= 26 {
            return Err(ConfigError::InvalidPosition);
        }
        Ok(
            EnigmaMachine {
                reflector: Reflector::from_type(reflector),
                rotors: RotorBank {
                    left: Rotor::from_type(left),
                    middle: Rotor::from_type(middle),
                    right: Rotor::from_type(right),
                    l_position: l_position.byte,
                    m_position: m_position.byte,
                    r_position: r_position.byte,
                },
            },
        )
    }

    /// Assembles a machine from a complete configuration record.
    ///
    /// Only the rotor slots, positions and reflector are read here: the plug
    /// pairs belong to the optional plug-transposition decorator, which
    /// wraps the machine from outside.
    pub fn from_settings(settings: &Settings) -> (r: Result<EnigmaMachine, ConfigError>)
        ensures
            r is Ok <==> (settings.l_rotor != settings.m_rotor && settings.l_rotor
                != settings.r_rotor && settings.m_rotor != settings.r_rotor
                && settings.l_initial_position.wf() && settings.m_initial_position.wf()
                && settings.r_initial_position.wf()),
            r matches Ok(m) ==> m.wf() && m.reflector.translation@ == reflector_table(
                settings.reflector_type) && m.rotors.left.r_l_translation@ == rotor_table(
                settings.l_rotor) && m.rotors.middle.r_l_translation@ == rotor_table(
                settings.m_rotor) && m.rotors.right.r_l_translation@ == rotor_table(
                settings.r_rotor) && m.rotors.l_position == settings.l_initial_position.byte
                && m.rotors.m_position == settings.m_initial_position.byte
                && m.rotors.r_position == settings.r_initial_position.byte,
            r matches Err(e) ==> (e == ConfigError::DuplicateRotor || e
                == ConfigError::InvalidPosition),
    {
        EnigmaMachine::new(
            settings.reflector_type,
            settings.l_rotor,
            settings.m_rotor,
            settings.r_rotor,
            settings.l_initial_position,
            settings.m_initial_position,
            settings.r_initial_position,
        )
    }

    /// The current positions of the left, middle and right rotor.
    pub fn positions(&self) -> (r: (u8, u8, u8))
        ensures
            r.0 == self.rotors.l_position,
            r.1 == self.rotors.m_position,
            r.2 == self.rotors.r_position,
    {
        (self.rotors.l_position, self.rotors.m_position, self.rotors.r_position)
    }

    /// Substitutes one letter and advances the stepping unit.
    ///
    /// The result is the keypress substitution of the pre-call state; the
    /// new state is the stepped old state, whatever the letter was.  The
    /// contact is read before the rotors step, so the first letter is
    /// enciphered at the initial positions; this order is held invariant.
    pub fn encipher(&mut self, letter: Letter) -> (r: Letter)
        requires
            old(self).wf(),
            letter.wf(),
        ensures
            final(self).wf(),
            *final(self) == step(*old(self)),
            r.wf(),
            r.byte == encipher_spec(*old(self), letter.byte as int),
    {
        proof {
            reveal(encipher_spec);
        }
        let index = self.rotors.encipher_right_to_left(letter.byte);
        let index = self.reflector.encipher(index);
        let index = self.rotors.encipher_left_to_right(index);
        self.rotors.turn();
        Letter { byte: index }
    }

    /// Substitutes a whole letter stream, advancing once per letter.
    ///
    /// The output stream is the spec-level stream of the starting state, and
    /// the final state depends only on how many letters were processed.
    pub fn encipher_stream(&mut self, input: &Vec<Letter>) -> (output: Vec<Letter>)
        requires
            old(self).wf(),
            forall|k: int| 0 <= k < input@.len() ==> (#[trigger] input@[k]).wf(),
        ensures
            final(self).wf(),
            *final(self) == machine_after(*old(self), input@.len()),
            output@.len() == input@.len(),
            forall|k: int| 0 <= k < output@.len() ==> (#[trigger] output@[k]).wf(),
            letter_indexes(output@) == encipher_seq(*old(self), letter_indexes(input@)),
    {
        let ghost m0 = *self;
        let mut output: Vec<Letter> = Vec::new();
        let mut i: usize = 0;
        while i < input.len()
            invariant
                m0.wf(),
                self.wf(),
                forall|k: int| 0 <= k < input@.len() ==> (#[trigger] input@[k]).wf(),
                i <= input@.len(),
                *self == machine_after(m0, i as nat),
                output@.len() == i,
                forall|k: int| 0 <= k < output@.len() ==> (#[trigger] output@[k]).wf(),
                letter_indexes(output@) == encipher_seq(m0, letter_indexes(input@).take(i as int)),
            decreases input@.len() - i,
        {
            let c = self.encipher(input[i]);
            proof {
                lemma_machine_after_snoc(m0, i as nat);
                lemma_encipher_seq_snoc(m0, letter_indexes(input@).take(i as int), input@[
                    i as int].byte as int);
                assert(letter_indexes(input@).take(i + 1) =~= letter_indexes(input@).take(
                    i as int).push(input@[i as int].byte as int));
                assert(letter_indexes(output@.push(c)) =~= letter_indexes(output@).push(
                    c.byte as int));
            }
            output.push(c);
            i += 1;
        }
        proof {
            assert(letter_indexes(input@).take(input@.len() as int) =~= letter_indexes(input@));
        }
        output
    }
}

/// The (left, middle, right) positions of a machine state.
pub open spec fn position_triple(m: EnigmaMachine) -> (int, int, int) {
    (m.rotors.l_position as int, m.rotors.m_position as int, m.rotors.r_position as int)
}

/// The position triples a machine runs through across `n` keypresses, one
/// entry per keypress, taken after the step.
pub open spec fn position_trace(m: EnigmaMachine, n: nat) -> Seq<(int, int, int)>
    decreases n,
{
    if n == 0 {
        Seq::empty()
    } else {
        seq![position_triple(step(m))] + position_trace(step(m), (n - 1) as nat)
    }
}

/// A trace over `n` keypresses has one entry per keypress.
pub proof fn lemma_position_trace_len(m: EnigmaMachine, n: nat)
    ensures
        position_trace(m, n).len() == n,
    decreases n,
{
    if n > 0 {
        lemma_position_trace_len(step(m), (n - 1) as nat);
    }
}

/// Stepping determinism: the position triple after the k-th keypress of any
/// run is a pure function of k and the starting state.  Stepping never reads
/// the letters, so the whole trace depends only on how many letters were
/// enciphered, never on which.
pub proof fn lemma_stepping_deterministic(m: EnigmaMachine, n: nat, k: int)
    requires
        0 <= k < n,
    ensures
        position_trace(m, n).len() == n,
        position_trace(m, n)[k] == position_triple(machine_after(m, (k + 1) as nat)),
    decreases n,
{
    lemma_position_trace_len(m, n);
    if k == 0 {
        assert(machine_after(m, 1) == machine_after(step(m), 0));
    } else {
        lemma_stepping_deterministic(step(m), (n - 1) as nat, k - 1);
        assert(machine_after(m, (k + 1) as nat) == machine_after(step(m), k as nat));
    }
}

/// Stepping keeps the machine well-formed and touches only the positions.
pub proof fn lemma_step_wf(m: EnigmaMachine)
    requires
        m.wf(),
    ensures
        step(m).wf(),
        step(m).reflector == m.reflector,
        step(m).rotors.left == m.rotors.left,
        step(m).rotors.middle == m.rotors.middle,
        step(m).rotors.right == m.rotors.right,
{
}

/// The machine after `n + 1` keypresses is the stepped machine after `n`.
pub proof fn lemma_machine_after_snoc(m: EnigmaMachine, n: nat)
    ensures
        machine_after(m, n + 1) == step(machine_after(m, n)),
    decreases n,
{
    if n == 0 {
        assert(machine_after(m, 1) == machine_after(step(m), 0));
        assert(machine_after(step(m), 0) == step(m));
    } else {
        lemma_machine_after_snoc(step(m), (n - 1) as nat);
        assert(machine_after(m, n + 1) == machine_after(step(m), n as nat));
        assert(machine_after(m, n) == machine_after(step(m), (n - 1) as nat));
    }
}

/// Appending to the second of two concatenated sequences appends to the
/// concatenation.
proof fn lemma_seq_add_push<A>(a: Seq<A>, b: Seq<A>, y: A)
    ensures
        a + b.push(y) == (a + b).push(y),
{
    assert(a + b.push(y) =~= (a + b).push(y));
}

/// Appending a letter to a run appends one substitution, taken in the state
/// the machine has reached by then.
#[verifier::rlimit(50)]
pub proof fn lemma_encipher_seq_snoc(m: EnigmaMachine, s: Seq<int>, x: int)
    ensures
        encipher_seq(m, s.push(x)) == encipher_seq(m, s).push(
            encipher_spec(machine_after(m, s.len()), x),
        ),
    decreases s.len(),
{
    reveal_with_fuel(encipher_seq, 3);
    if s.len() == 0 {
        assert(s.push(x).drop_first() =~= Seq::<int>::empty());
        assert(s.push(x)[0] == x);
        assert(encipher_seq(m, s.push(x)) == seq![encipher_spec(m, x)] + Seq::<int>::empty());
        assert(encipher_seq(m, s) == Seq::<int>::empty());
        assert(machine_after(m, 0) == m);
        assert(seq![encipher_spec(m, x)] + Seq::<int>::empty() =~= Seq::<int>::empty().push(
            encipher_spec(m, x)));
    } else {
        lemma_encipher_seq_snoc(step(m), s.drop_first(), x);
        assert(s.push(x).drop_first() =~= s.drop_first().push(x));
        assert(s.push(x)[0] == s[0]);
        // unfold the run on s.push(x), rewrite its tail by the inductive
        // hypothesis, and pull the pushed element out of the concatenation
        assert(encipher_seq(m, s.push(x)) == seq![encipher_spec(m, s[0])] + encipher_seq(
            step(m), s.drop_first().push(x)));
        assert(machine_after(step(m), (s.len() - 1) as nat) == machine_after(m, s.len()));
        assert(encipher_seq(step(m), s.drop_first().push(x)) == encipher_seq(
            step(m), s.drop_first()).push(encipher_spec(machine_after(m, s.len()), x)));
        lemma_seq_add_push(seq![encipher_spec(m, s[0])], encipher_seq(step(m), s.drop_first()),
            encipher_spec(machine_after(m, s.len()), x));
        assert(encipher_seq(m, s) == seq![encipher_spec(m, s[0])] + encipher_seq(
            step(m), s.drop_first()));
    }
}

/// One keypress substitution undoes itself: it stays inside the alphabet,
/// applying it twice returns the original letter, and no letter ever maps to
/// itself.
pub proof fn lemma_encipher_involutive(m: EnigmaMachine, i: int)
    requires
        m.wf(),
        0 <= i < 26,
    ensures
        0 <= encipher_spec(m, i) < 26,
        encipher_spec(m, encipher_spec(m, i)) == i,
        encipher_spec(m, i) != i,
{
    reveal(encipher_spec);
    let c = bank_forward(m.rotors, i);
    lemma_bank_forward_inverse(m.rotors, i);
    let d = m.reflector.translation@[c] as int;
    assert(0 <= d < 26 && m.reflector.translation@[d] == c && d != c);
    lemma_bank_backward_inverse(m.rotors, d);
}

/// Self-reciprocity: enciphering a stream and feeding the result to a fresh
/// machine in the identical starting state reproduces the original stream.
/// This is the defining correctness property of the machine family: the same
/// configuration both enciphers and deciphers.
pub proof fn lemma_self_reciprocal(m: EnigmaMachine, inputs: Seq<int>)
    requires
        m.wf(),
        forall|k: int| 0 <= k < inputs.len() ==> 0 <= #[trigger] inputs[k] < 26,
    ensures
        encipher_seq(m, inputs).len() == inputs.len(),
        forall|k: int| 0 <= k < inputs.len() ==> 0 <= #[trigger] encipher_seq(m, inputs)[k] < 26,
        encipher_seq(m, encipher_seq(m, inputs)) == inputs,
    decreases inputs.len(),
{
    let cipher = encipher_seq(m, inputs);
    if inputs.len() == 0 {
        assert(encipher_seq(m, cipher) =~= inputs);
    } else {
        lemma_encipher_involutive(m, inputs[0]);
        lemma_step_wf(m);
        assert(forall|k: int| 0 <= k < inputs.drop_first().len() ==> 0 <= #[trigger] inputs.drop_first()[k] < 26);
        lemma_self_reciprocal(step(m), inputs.drop_first());
        assert(cipher[0] == encipher_spec(m, inputs[0]));
        assert(cipher.drop_first() =~= encipher_seq(step(m), inputs.drop_first()));
        assert forall|k: int| 0 <= k < inputs.len() implies 0 <= #[trigger] cipher[k] < 26 by {
            if k > 0 {
                assert(cipher[k] == encipher_seq(step(m), inputs.drop_first())[k - 1]);
            }
        }
        assert(encipher_seq(m, cipher) =~= inputs);
    }
}

} // verus!
