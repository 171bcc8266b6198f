//! Index data of the cube scene's mesh: two triangles per face.
use vstd::prelude::*;

verus! {

/// Faces of the cube.
pub const CUBE_FACES: usize = 6;

/// The offset, within a face's four vertices, of the `k`-th index of its two
/// triangles (0, 1, 2) and (0, 2, 3).
pub open spec fn quad_offset(k: int) -> int {
    if k == 0 || k == 3 {
        0
    } else if k == 1 {
        1
    } else if k == 2 || k == 4 {
        2
    } else {
        3
    }
}

/// The 36 indices of the cube: face `f` uses vertices `4f .. 4f + 3`.
pub fn cube_indices() -> (r: Vec<u16>)
    ensures
        r@.len() == 36,
        forall|f: int, k: int| 0 <= f < 6 && 0 <= k < 6 ==> #[trigger] r@[6 * f + k] as int == 4 * f + quad_offset(k),
{
    let mut indices: Vec<u16> = Vec::new();
    let mut face: u16 = 0;
    while face < 6
        invariant
            face <= 6,
            indices@.len() == 6 * face,
            forall|f: int, k: int| 0 <= f < face && 0 <= k < 6 ==> #[trigger] indices@[6 * f + k] as int == 4 * f
                + quad_offset(k),
        decreases 6 - face,
    {
        let base = face * 4;
        let ghost before = indices@;
        indices.push(base);
        indices.push(base + 1);
        indices.push(base + 2);
        indices.push(base);
        indices.push(base + 2);
        indices.push(base + 3);
        proof {
            assert forall|f: int, k: int| 0 <= f < face + 1 && 0 <= k < 6 implies #[trigger] indices@[6 * f + k] as int
                == 4 * f + quad_offset(k) by {
                if f < face {
                    assert(indices@[6 * f + k] == before[6 * f + k]);
                } else {
                    assert(6 * f + k == 6 * face + k);
                }
            }
        }
        face = face + 1;
    }
    indices
}

} // verus!
