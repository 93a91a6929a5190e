use vstd::prelude::*;
use crate::is_perm_table;
use crate::utils::{chain_index, chain_lookup};
use crate::vector::vec3::Vec3;

verus! {

/// The three-dimensional evaluator's integer core: gradient selection through
/// the permutation table and the lattice-point tables of the two tetrahedral
/// regions and the octahedral region in between.
pub struct OpenSimplexNoise3D {}

/// The twenty-four three-dimensional gradient directions.
pub open spec fn spec_grad_table_3d(index: int) -> Vec3<i64> {
    if index == 0 {
        (Vec3 { x: -11i64, y: 4i64, z: 4i64 })
    } else if index == 1 {
        (Vec3 { x: -4i64, y: 11i64, z: 4i64 })
    } else if index == 2 {
        (Vec3 { x: -4i64, y: 4i64, z: 11i64 })
    } else if index == 3 {
        (Vec3 { x: 11i64, y: 4i64, z: 4i64 })
    } else if index == 4 {
        (Vec3 { x: 4i64, y: 11i64, z: 4i64 })
    } else if index == 5 {
        (Vec3 { x: 4i64, y: 4i64, z: 11i64 })
    } else if index == 6 {
        (Vec3 { x: -11i64, y: -4i64, z: 4i64 })
    } else if index == 7 {
        (Vec3 { x: -4i64, y: -11i64, z: 4i64 })
    } else if index == 8 {
        (Vec3 { x: -4i64, y: -4i64, z: 11i64 })
    } else if index == 9 {
        (Vec3 { x: 11i64, y: -4i64, z: 4i64 })
    } else if index == 10 {
        (Vec3 { x: 4i64, y: -11i64, z: 4i64 })
    } else if index == 11 {
        (Vec3 { x: 4i64, y: -4i64, z: 11i64 })
    } else if index == 12 {
        (Vec3 { x: -11i64, y: 4i64, z: -4i64 })
    } else if index == 13 {
        (Vec3 { x: -4i64, y: 11i64, z: -4i64 })
    } else if index == 14 {
        (Vec3 { x: -4i64, y: 4i64, z: -11i64 })
    } else if index == 15 {
        (Vec3 { x: 11i64, y: 4i64, z: -4i64 })
    } else if index == 16 {
        (Vec3 { x: 4i64, y: 11i64, z: -4i64 })
    } else if index == 17 {
        (Vec3 { x: 4i64, y: 4i64, z: -11i64 })
    } else if index == 18 {
        (Vec3 { x: -11i64, y: -4i64, z: -4i64 })
    } else if index == 19 {
        (Vec3 { x: -4i64, y: -11i64, z: -4i64 })
    } else if index == 20 {
        (Vec3 { x: -4i64, y: -4i64, z: -11i64 })
    } else if index == 21 {
        (Vec3 { x: 11i64, y: -4i64, z: -4i64 })
    } else if index == 22 {
        (Vec3 { x: 4i64, y: -11i64, z: -4i64 })
    } else {
        (Vec3 { x: 4i64, y: -4i64, z: -11i64 })
    }
}

/// Gradient index for a lattice point: three chained table lookups keyed by
/// the coordinates modulo 256, with the final entry reduced modulo the table
/// size.
pub open spec fn spec_grad_index_3d(perm: Seq<i64>, gx: int, gy: int, gz: int) -> int {
    let p0 = perm[gx % 256];
    let p1 = perm[chain_index(p0 as int, gy)];
    let p2 = perm[chain_index(p1 as int, gz)];
    (p2 as int) % 24
}

/// The two lattice points contributed beyond the four corners of the
/// tetrahedron anchored at the origin. `origin_is_closest` says whether the
/// origin is one of the two closest tetrahedral vertices; `closest` is the
/// axis bit of the other closest vertex when it is, else the combined axis
/// bits of the two closest vertices.
pub open spec fn spec_lattice_points_at_origin(origin_is_closest: bool, closest: i64) -> (
    Vec3<i64>,
    Vec3<i64>,
) {
    if origin_is_closest {
        if closest == 1 {
            ((Vec3 { x: 1i64, y: -1i64, z: 0i64 }), (Vec3 { x: 1i64, y: 0i64, z: -1i64 }))
        } else if closest == 2 {
            ((Vec3 { x: -1i64, y: 1i64, z: 0i64 }), (Vec3 { x: 0i64, y: 1i64, z: -1i64 }))
        } else {
            ((Vec3 { x: -1i64, y: 0i64, z: 1i64 }), (Vec3 { x: 0i64, y: -1i64, z: 1i64 }))
        }
    } else {
        if closest == 3 {
            ((Vec3 { x: 1i64, y: 1i64, z: 0i64 }), (Vec3 { x: 1i64, y: 1i64, z: -1i64 }))
        } else if closest == 5 {
            ((Vec3 { x: 1i64, y: 0i64, z: 1i64 }), (Vec3 { x: 1i64, y: -1i64, z: 1i64 }))
        } else {
            ((Vec3 { x: 0i64, y: 1i64, z: 1i64 }), (Vec3 { x: -1i64, y: 1i64, z: 1i64 }))
        }
    }
}

/// The two lattice points contributed beyond the four corners of the
/// tetrahedron anchored at `(1, 1, 1)`, under the same encoding as the
/// origin-side table.
pub open spec fn spec_lattice_points_at_ones(ones_is_closest: bool, closest: i64) -> (
    Vec3<i64>,
    Vec3<i64>,
) {
    if ones_is_closest {
        if closest == 3 {
            ((Vec3 { x: 2i64, y: 1i64, z: 0i64 }), (Vec3 { x: 1i64, y: 2i64, z: 0i64 }))
        } else if closest == 5 {
            ((Vec3 { x: 2i64, y: 0i64, z: 1i64 }), (Vec3 { x: 1i64, y: 0i64, z: 2i64 }))
        } else {
            ((Vec3 { x: 0i64, y: 2i64, z: 1i64 }), (Vec3 { x: 0i64, y: 1i64, z: 2i64 }))
        }
    } else {
        if closest == 1 {
            ((Vec3 { x: 1i64, y: 0i64, z: 0i64 }), (Vec3 { x: 2i64, y: 0i64, z: 0i64 }))
        } else if closest == 2 {
            ((Vec3 { x: 0i64, y: 1i64, z: 0i64 }), (Vec3 { x: 0i64, y: 2i64, z: 0i64 }))
        } else {
            ((Vec3 { x: 0i64, y: 0i64, z: 1i64 }), (Vec3 { x: 0i64, y: 0i64, z: 2i64 }))
        }
    }
}

/// The two lattice points contributed beyond the six edge midpoints of the
/// octahedral region. The flags say, for each of the two closest points,
/// whether it lies on the `(1, 1, 1)` side; the codes carry their axis bits.
pub open spec fn spec_octahedron_extra_points(
    further_x: bool,
    further_y: bool,
    point_x: i64,
    point_y: i64,
) -> (Vec3<i64>, Vec3<i64>) {
    if further_x == further_y {
        if further_x {
            let shared = point_x & point_y;
            (
                (Vec3 { x: 1i64, y: 1i64, z: 1i64 }),
                if shared == 1 {
                    (Vec3 { x: 2i64, y: 0i64, z: 0i64 })
                } else if shared == 2 {
                    (Vec3 { x: 0i64, y: 2i64, z: 0i64 })
                } else {
                    (Vec3 { x: 0i64, y: 0i64, z: 2i64 })
                },
            )
        } else {
            let omitted = point_x | point_y;
            (
                (Vec3 { x: 0i64, y: 0i64, z: 0i64 }),
                if omitted == 3 {
                    (Vec3 { x: 1i64, y: 1i64, z: -1i64 })
                } else if omitted == 4 {
                    (Vec3 { x: 1i64, y: -1i64, z: 1i64 })
                } else {
                    (Vec3 { x: -1i64, y: 1i64, z: 1i64 })
                },
            )
        }
    } else {
        let c1 = if further_x { point_x } else { point_y };
        let c2 = if further_x { point_y } else { point_x };
        (
            if c1 == 3 {
                (Vec3 { x: 1i64, y: 1i64, z: -1i64 })
            } else if c1 == 5 {
                (Vec3 { x: 1i64, y: -1i64, z: 1i64 })
            } else {
                (Vec3 { x: -1i64, y: 1i64, z: 1i64 })
            },
            if c2 == 1 {
                (Vec3 { x: 2i64, y: 0i64, z: 0i64 })
            } else if c2 == 2 {
                (Vec3 { x: 0i64, y: 2i64, z: 0i64 })
            } else {
                (Vec3 { x: 0i64, y: 0i64, z: 2i64 })
            },
        )
    }
}

impl OpenSimplexNoise3D {
    /// Chained lookup selecting the gradient index of a lattice point.
    pub fn get_grad_table_index(grid: Vec3<i64>, perm: &Vec<i64>) -> (index: usize)
        requires
            is_perm_table(perm@),
        ensures
            index as int == spec_grad_index_3d(perm@, grid.x as int, grid.y as int, grid.z as int),
            index < 24,
    {
        let p0 = chain_lookup(perm, 0, grid.x);
        let p1 = chain_lookup(perm, p0, grid.y);
        let p2 = chain_lookup(perm, p1, grid.z);
        (p2 % 24) as usize
    }

    /// The gradient direction stored at `index`.
    pub fn grad_table_entry(index: usize) -> (g: Vec3<i64>)
        requires
            index < 24,
        ensures
            g == spec_grad_table_3d(index as int),
    {
        match index {
            0 => Vec3 { x: -11, y: 4, z: 4 },
            1 => Vec3 { x: -4, y: 11, z: 4 },
            2 => Vec3 { x: -4, y: 4, z: 11 },
            3 => Vec3 { x: 11, y: 4, z: 4 },
            4 => Vec3 { x: 4, y: 11, z: 4 },
            5 => Vec3 { x: 4, y: 4, z: 11 },
            6 => Vec3 { x: -11, y: -4, z: 4 },
            7 => Vec3 { x: -4, y: -11, z: 4 },
            8 => Vec3 { x: -4, y: -4, z: 11 },
            9 => Vec3 { x: 11, y: -4, z: 4 },
            10 => Vec3 { x: 4, y: -11, z: 4 },
            11 => Vec3 { x: 4, y: -4, z: 11 },
            12 => Vec3 { x: -11, y: 4, z: -4 },
            13 => Vec3 { x: -4, y: 11, z: -4 },
            14 => Vec3 { x: -4, y: 4, z: -11 },
            15 => Vec3 { x: 11, y: 4, z: -4 },
            16 => Vec3 { x: 4, y: 11, z: -4 },
            17 => Vec3 { x: 4, y: 4, z: -11 },
            18 => Vec3 { x: -11, y: -4, z: -4 },
            19 => Vec3 { x: -4, y: -11, z: -4 },
            20 => Vec3 { x: -4, y: -4, z: -11 },
            21 => Vec3 { x: 11, y: -4, z: -4 },
            22 => Vec3 { x: 4, y: -11, z: -4 },
            _ => Vec3 { x: 4, y: -4, z: -11 },
        }
    }


    /// Axis-code bookkeeping of the two opening decisions of the octahedral
    /// region: each flag picks between a two-axis code on the far side and
    /// the complementary code on the near side.
    pub fn decide_between_points(first_further: bool, second_further: bool) -> (r: (
        (i64, bool),
        (i64, bool),
    ))
        ensures
            r.0 == (if first_further { (3i64, true) } else { (4i64, false) }),
            r.1 == (if second_further { (5i64, true) } else { (2i64, false) }),
    {
        let first = if first_further { (3i64, true) } else { (4i64, false) };
        let second = if second_further { (5i64, true) } else { (2i64, false) };
        (first, second)
    }

    /// Axis-code bookkeeping of the tetrahedral regions' closest-vertex
    /// choice: the first flag replaces the second code, else the second flag
    /// replaces the first.
    pub fn determine_closest_point(
        point_x: i64,
        point_y: i64,
        factor_x: i64,
        factor_y: i64,
        first: bool,
        second: bool,
    ) -> (r: (i64, i64))
        ensures
            r == (if first {
                (point_x, factor_y)
            } else if second {
                (factor_x, point_y)
            } else {
                (point_x, point_y)
            }),
    {
        if first {
            (point_x, factor_y)
        } else if second {
            (factor_x, point_y)
        } else {
            (point_x, point_y)
        }
    }

    /// Axis-code bookkeeping of the octahedral region's replacement step:
    /// the closer of the remaining pair of vertices replaces the further of
    /// the two codes chosen so far, when it beats it.
    pub fn determine_further_side(
        point_x: i64,
        point_y: i64,
        further_x: bool,
        further_y: bool,
        replacement_further: bool,
        x_not_greater: bool,
        x_beaten: bool,
        y_beaten: bool,
    ) -> (r: ((i64, i64), (bool, bool)))
        ensures
            r == (if x_not_greater && x_beaten {
                (
                    (if replacement_further { 6i64 } else { 1i64 }, point_y),
                    (replacement_further, further_y),
                )
            } else if !x_not_greater && y_beaten {
                (
                    (point_x, if replacement_further { 6i64 } else { 1i64 }),
                    (further_x, replacement_further),
                )
            } else {
                ((point_x, point_y), (further_x, further_y))
            }),
    {
        let code: i64 = if replacement_further { 6 } else { 1 };
        if x_not_greater && x_beaten {
            ((code, point_y), (replacement_further, further_y))
        } else if !x_not_greater && y_beaten {
            ((point_x, code), (further_x, replacement_further))
        } else {
            ((point_x, point_y), (further_x, further_y))
        }
    }

    /// The two lattice points contributed beyond the corners of the
    /// tetrahedron anchored at the origin.
    pub fn determine_lattice_points_including_0_0_0(origin_is_closest: bool, closest: i64) -> (r: (
        Vec3<i64>,
        Vec3<i64>,
    ))
        ensures
            r == spec_lattice_points_at_origin(origin_is_closest, closest),
    {
        if origin_is_closest {
            match closest {
                1 => (Vec3 { x: 1, y: -1, z: 0 }, Vec3 { x: 1, y: 0, z: -1 }),
                2 => (Vec3 { x: -1, y: 1, z: 0 }, Vec3 { x: 0, y: 1, z: -1 }),
                _ => (Vec3 { x: -1, y: 0, z: 1 }, Vec3 { x: 0, y: -1, z: 1 }),
            }
        } else {
            match closest {
                3 => (Vec3 { x: 1, y: 1, z: 0 }, Vec3 { x: 1, y: 1, z: -1 }),
                5 => (Vec3 { x: 1, y: 0, z: 1 }, Vec3 { x: 1, y: -1, z: 1 }),
                _ => (Vec3 { x: 0, y: 1, z: 1 }, Vec3 { x: -1, y: 1, z: 1 }),
            }
        }
    }

    /// The two lattice points contributed beyond the corners of the
    /// tetrahedron anchored at `(1, 1, 1)`.
    pub fn determine_lattice_points_including_1_1_1(ones_is_closest: bool, closest: i64) -> (r: (
        Vec3<i64>,
        Vec3<i64>,
    ))
        ensures
            r == spec_lattice_points_at_ones(ones_is_closest, closest),
    {
        if ones_is_closest {
            match closest {
                3 => (Vec3 { x: 2, y: 1, z: 0 }, Vec3 { x: 1, y: 2, z: 0 }),
                5 => (Vec3 { x: 2, y: 0, z: 1 }, Vec3 { x: 1, y: 0, z: 2 }),
                _ => (Vec3 { x: 0, y: 2, z: 1 }, Vec3 { x: 0, y: 1, z: 2 }),
            }
        } else {
            match closest {
                1 => (Vec3 { x: 1, y: 0, z: 0 }, Vec3 { x: 2, y: 0, z: 0 }),
                2 => (Vec3 { x: 0, y: 1, z: 0 }, Vec3 { x: 0, y: 2, z: 0 }),
                _ => (Vec3 { x: 0, y: 0, z: 1 }, Vec3 { x: 0, y: 0, z: 2 }),
            }
        }
    }

    /// The two lattice points contributed beyond the edge midpoints of the
    /// octahedral region.
    pub fn octahedron_extra_points(
        further_x: bool,
        further_y: bool,
        point_x: i64,
        point_y: i64,
    ) -> (r: (Vec3<i64>, Vec3<i64>))
        ensures
            r == spec_octahedron_extra_points(further_x, further_y, point_x, point_y),
    {
        if further_x == further_y {
            if further_x {
                let shared = point_x & point_y;
                let second = match shared {
                    1 => Vec3 { x: 2, y: 0, z: 0 },
                    2 => Vec3 { x: 0, y: 2, z: 0 },
                    _ => Vec3 { x: 0, y: 0, z: 2 },
                };
                (Vec3 { x: 1, y: 1, z: 1 }, second)
            } else {
                let omitted = point_x | point_y;
                let second = match omitted {
                    3 => Vec3 { x: 1, y: 1, z: -1 },
                    4 => Vec3 { x: 1, y: -1, z: 1 },
                    _ => Vec3 { x: -1, y: 1, z: 1 },
                };
                (Vec3 { x: 0, y: 0, z: 0 }, second)
            }
        } else {
            let c1 = if further_x { point_x } else { point_y };
            let c2 = if further_x { point_y } else { point_x };
            let first = match c1 {
                3 => Vec3 { x: 1, y: 1, z: -1 },
                5 => Vec3 { x: 1, y: -1, z: 1 },
                _ => Vec3 { x: -1, y: 1, z: 1 },
            };
            let second = match c2 {
                1 => Vec3 { x: 2, y: 0, z: 0 },
                2 => Vec3 { x: 0, y: 2, z: 0 },
                _ => Vec3 { x: 0, y: 0, z: 2 },
            };
            (first, second)
        }
    }
}

} // verus!
