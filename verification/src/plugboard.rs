use vstd::prelude::*;

use crate::error::ConfigError;
use crate::wiring::involutive;

verus! {

/// The optional plug-transposition stage in front of the rotor stack.
///
/// Plugging two letters swaps them on the way into the machine and again on
/// the way out; unplugged letters pass through unchanged.  The wiring is
/// always an involution, so the stage preserves the machine's
/// self-reciprocity, and it stays outside the core machine as a decorator:
/// apply `encipher` once before the right rotor's entry and once after its
/// exit.
#[derive(Debug)]
pub struct Plugboard {
    pub wiring: Vec<u8>,
}

impl Plugboard {
    /// The wiring is a 26-entry involution; fixed points are the unplugged
    /// letters.
    pub open spec fn wf(self) -> bool {
        involutive(self.wiring@)
    }

    /// A board with no plugs: every letter passes through unchanged.
    pub fn new() -> (p: Plugboard)
        ensures
            p.wf(),
            p.wiring@.len() == 26,
            forall|i: int| 0 <= i < 26 ==> p.wiring@[i] == i,
    {
        let mut wiring: Vec<u8> = Vec::new();
        let mut i: usize = 0;
        while i < 26
            invariant
                wiring@.len() == i,
                i <= 26,
                forall|k: int| 0 <= k < i ==> wiring@[k] == k,
            decreases 26 - i,
        {
            wiring.push(i as u8);
            i += 1;
        }
        Plugboard { wiring }
    }

    /// Connects two letters, rejecting a pair that is out of range, connects
    /// a letter to itself, or touches an already plugged letter.  On
    /// rejection the board is unchanged.
    pub fn add(&mut self, p1: u8, p2: u8) -> (r: Result<(), ConfigError>)
        requires
            old(self).wf(),
        ensures
            final(self).wf(),
            r is Ok <==> (p1 != p2 && p1 < 26 && p2 < 26 && old(self).wiring@[p1 as int] == p1
                && old(self).wiring@[p2 as int] == p2),
            r is Ok ==> final(self).wiring@ == old(self).wiring@.update(p1 as int, p2).update(
                p2 as int, p1),
            r matches Err(e) ==> e == ConfigError::InvalidPlug && *final(self) == *old(self),
    {
        if p1 == p2 || p1 >= 26 || p2 >= 26 {
            return Err(ConfigError::InvalidPlug);
        }
        if self.wiring[p1 as usize] != p1 {
            return Err(ConfigError::InvalidPlug);
        }
        if self.wiring[p2 as usize] != p2 {
            return Err(ConfigError::InvalidPlug);
        }
        self.wiring.set(p1 as usize, p2);
        self.wiring.set(p2 as usize, p1);
        proof {
            let w = old(self).wiring@;
            let n = self.wiring@;
            assert forall|i: int| 0 <= i < 26 implies n[#[trigger] n[i] as int] == i by {
                if i != p1 && i != p2 {
                    assert(n[i] == w[i]);
                    if w[i] == p1 {
                        assert(w[w[i] as int] == i);
                    }
                    if w[i] == p2 {
                        assert(w[w[i] as int] == i);
                    }
                }
            }
        }
        Ok(())
    }

    /// Where a letter goes through the board: its plugged partner, or itself
    /// when unplugged.  Applying the board twice returns the original
    /// letter.
    pub fn encipher(&self, index: u8) -> (r: u8)
        requires
            self.wf(),
            index < 26,
        ensures
            r == self.wiring@[index as int],
            r < 26,
            self.wiring@[r as int] == index,
    {
        self.wiring[index as usize]
    }
}

} // verus!
