use vstd::prelude::*;

use crate::error::ConfigError;
use crate::specification::{
    lemma_reflector_table_is_involution, reflector_table, ReflectorSpec, ReflectorType,
};
use crate::wiring::{fixed_point_free, involutive};

verus! {

/// The reflector at the far end of the rotor stack.
///
/// A signal entering at one of 26 pins always leaves from a different pin on
/// the same face, so reflection is symmetric and no letter reflects to
/// itself.  Reflection is the only step in the signal path that does not
/// depend on rotor position.
#[derive(Debug)]
pub struct Reflector {
    pub translation: Vec<u8>,
}

impl Reflector {
    /// The wiring is a 26-entry pairwise-symmetric table without fixed
    /// points.
    pub open spec fn wf(self) -> bool {
        involutive(self.translation@) && fixed_point_free(self.translation@)
    }

    /// Builds a reflector from a blueprint, rejecting a wiring that is not 26
    /// entries long, maps some pin out of range or to itself, or is not
    /// pairwise symmetric.
    pub fn from_spec(blueprint: ReflectorSpec) -> (r: Result<Reflector, ConfigError>)
        ensures
            r is Ok <==> involutive(blueprint.translation@) && fixed_point_free(
                blueprint.translation@),
            r matches Ok(refl) ==> refl.wf() && refl.translation@ == blueprint.translation@,
            r matches Err(e) ==> e == ConfigError::InvalidWiring,
    {
        let t = blueprint.translation;
        if t.len() != 26 {
            return Err(ConfigError::InvalidWiring);
        }
        let mut i: usize = 0;
        while i < 26
            invariant
                t@ == blueprint.translation@,
                t@.len() == 26,
                i <= 26,
                forall|k: int| 0 <= k < i ==> t@[k] < 26,
                forall|k: int| 0 <= k < i ==> t@[#[trigger] t@[k] as int] == k,
                forall|k: int| 0 <= k < i ==> t@[k] != k,
            decreases 26 - i,
        {
            let x = t[i];
            if x >= 26 {
                return Err(ConfigError::InvalidWiring);
            }
            if x == i as u8 {
                return Err(ConfigError::InvalidWiring);
            }
            if t[x as usize] != i as u8 {
                return Err(ConfigError::InvalidWiring);
            }
            i += 1;
        }
        Ok(Reflector { translation: t })
    }

    /// Builds the reflector of a named variant; the variant tables are proved
    /// valid, so this cannot fail.
    pub fn from_type(r: ReflectorType) -> (refl: Reflector)
        ensures
            refl.wf(),
            refl.translation@ == reflector_table(r),
    {
        proof {
            lemma_reflector_table_is_involution(r);
        }
        match Reflector::from_spec(ReflectorSpec::of(r)) {
            Ok(refl) => refl,
            Err(_) => vstd::pervasive::unreached(),
        }
    }

    /// Reflects a signal: a pure table lookup, independent of any rotor
    /// position.  The result is a different pin, and reflecting it again
    /// returns the original pin.
    pub fn encipher(&self, index: u8) -> (r: u8)
        requires
            self.wf(),
            index < 26,
        ensures
            r == self.translation@[index as int],
            r < 26,
            self.translation@[r as int] == index,
            r != index,
    {
        self.translation[index as usize]
    }
}

} // verus!
