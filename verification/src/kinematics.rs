//! Two-body reaction bookkeeping.
//!
//! The residual nucleus of `target(beam, ejectile)residual` follows from
//! conservation of charge and mass number; a reaction whose ejectile carries
//! more charge or nucleons than beam and target together is forbidden. The
//! relativistic energy balance and the focal-plane weights derived from it
//! are floating-point work left to the caller, which feeds the projection
//! only the fact that weights exist.

use vstd::prelude::*;

verus! {

/// A nuclide, identified by proton number `z` and mass number `a`.
#[derive(Clone, Copy, Debug, PartialEq, Eq, Structural)]
pub struct Nucleus {
    pub z: u32,
    pub a: u32,
}

/// Why no residual nucleus exists for a reaction.
#[derive(Clone, Copy, Debug, PartialEq, Eq, Structural)]
pub enum KinematicsError {
    /// The ejectile carries more charge or nucleons than enter the reaction.
    ForbiddenReaction,
}

/// The residual nucleus by conservation of charge and mass number.
pub fn residual_nucleus(beam: Nucleus, target: Nucleus, ejectile: Nucleus) -> (r: Result<
    Nucleus,
    KinematicsError,
>)
    requires
        beam.z + target.z <= u32::MAX,
        beam.a + target.a <= u32::MAX,
    ensures
        r is Ok <==> ejectile.z <= beam.z + target.z && ejectile.a <= beam.a + target.a,
        r is Ok ==> r->Ok_0 == (Nucleus {
            z: (beam.z + target.z - ejectile.z) as u32,
            a: (beam.a + target.a - ejectile.a) as u32,
        }),
        r is Err ==> r->Err_0 == KinematicsError::ForbiddenReaction,
{
    let z_in = beam.z + target.z;
    let a_in = beam.a + target.a;
    if ejectile.z > z_in || ejectile.a > a_in {
        Err(KinematicsError::ForbiddenReaction)
    } else {
        Ok(Nucleus { z: z_in - ejectile.z, a: a_in - ejectile.a })
    }
}

} // verus!
