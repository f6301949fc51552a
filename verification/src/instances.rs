//! The static instance grid.
//!
//! The renderer draws the mesh once per instance of a fixed square grid of
//! transforms, computed once at construction and uploaded once.  Grid
//! coordinates are whole world units centred on the origin; the rotation of
//! each instance is a fixed eighth of a turn about the axis through its
//! position, except at the origin, where it is the identity so that the
//! quaternion cannot scale the mesh away.  The driver turns each pose into
//! the floating-point transform matrix the instance buffer holds.

use vstd::prelude::*;
use vstd::arithmetic::div_mod::lemma_fundamental_div_mod_converse;

verus! {

/// Instances per grid row (and per column).
pub const NUM_INSTANCES_PER_ROW: u32 = 10;

/// Half the row length: the displacement that centres the grid.
pub const INSTANCE_DISPLACEMENT: i64 = 5;

/// One repeated draw of the mesh: its grid position in whole world units.
#[derive(Clone, Copy, Debug, PartialEq, Eq, Structural)]
pub struct Instance {
    pub x: i64,
    pub y: i64,
    pub z: i64,
}

/// The instance at flat grid index `k`: row-major over z then x, centred
/// on the origin.
pub open spec fn grid_instance(k: int) -> Instance {
    Instance {
        x: (k % (NUM_INSTANCES_PER_ROW as int) - INSTANCE_DISPLACEMENT) as i64,
        y: 0,
        z: (k / (NUM_INSTANCES_PER_ROW as int) - INSTANCE_DISPLACEMENT) as i64,
    }
}

/// Whether the instance keeps the identity rotation: only the instance at
/// the origin does, so that its rotation cannot collapse the mesh.
pub open spec fn rotation_is_identity(i: Instance) -> bool {
    i.x == 0 && i.y == 0 && i.z == 0
}

/// Tell whether this instance's rotation is the identity (origin) or the
/// fixed eighth-turn about the axis through its position.
pub fn instance_rotation_is_identity(i: &Instance) -> (r: bool)
    ensures
        r == rotation_is_identity(*i),
{
    i.x == 0 && i.y == 0 && i.z == 0
}

/// Build the full grid: one instance per cell of the square, in row-major
/// order, each at its centred grid position.
pub fn create_instances() -> (r: Vec<Instance>)
    ensures
        r@.len() == NUM_INSTANCES_PER_ROW * NUM_INSTANCES_PER_ROW,
        forall|k: int| 0 <= k < r@.len() ==> #[trigger] r@[k] == grid_instance(k),
{
    let n = NUM_INSTANCES_PER_ROW;
    let mut r: Vec<Instance> = Vec::new();
    let mut z: u32 = 0;
    while z < n
        invariant
            z <= n,
            n == NUM_INSTANCES_PER_ROW,
            r@.len() == z * n,
            forall|k: int| 0 <= k < r@.len() ==> #[trigger] r@[k] == grid_instance(k),
        decreases n - z,
    {
        let mut x: u32 = 0;
        while x < n
            invariant
                x <= n,
                z < n,
                n == NUM_INSTANCES_PER_ROW,
                r@.len() == z * n + x,
                forall|k: int| 0 <= k < r@.len() ==> #[trigger] r@[k] == grid_instance(k),
            decreases n - x,
        {
            let inst = Instance {
                x: x as i64 - INSTANCE_DISPLACEMENT,
                y: 0,
                z: z as i64 - INSTANCE_DISPLACEMENT,
            };
            proof {
                lemma_fundamental_div_mod_converse(
                    z * n + x,
                    n as int,
                    z as int,
                    x as int,
                );
                assert(inst == grid_instance(z * n + x));
            }
            r.push(inst);
            x = x + 1;
        }
        z = z + 1;
    }
    r
}

} // verus!
