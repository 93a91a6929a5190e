use vstd::prelude::*;
use crate::is_perm_table;
use crate::utils::{chain_index, chain_lookup};
use crate::vector::vec4::Vec4;

verus! {

/// The four-dimensional evaluator's integer core: gradient selection through
/// the permutation table and the lattice-point tables of the two pentachoron
/// regions and the two rectified dispentachoron regions in between.
pub struct OpenSimplexNoise4D {}

/// A four-component lattice offset.
pub open spec fn quad(x: i64, y: i64, z: i64, w: i64) -> Vec4<i64> {
    Vec4 { x, y, z, w }
}

/// The sixty-four four-dimensional gradient directions.
pub open spec fn spec_grad_table_4d(index: int) -> Vec4<i64> {
    if index == 0 {
        quad(3i64, 1i64, 1i64, 1i64)
    } else if index == 1 {
        quad(1i64, 3i64, 1i64, 1i64)
    } else if index == 2 {
        quad(1i64, 1i64, 3i64, 1i64)
    } else if index == 3 {
        quad(1i64, 1i64, 1i64, 3i64)
    } else if index == 4 {
        quad(-3i64, 1i64, 1i64, 1i64)
    } else if index == 5 {
        quad(-1i64, 3i64, 1i64, 1i64)
    } else if index == 6 {
        quad(-1i64, 1i64, 3i64, 1i64)
    } else if index == 7 {
        quad(-1i64, 1i64, 1i64, 3i64)
    } else if index == 8 {
        quad(3i64, -1i64, 1i64, 1i64)
    } else if index == 9 {
        quad(1i64, -3i64, 1i64, 1i64)
    } else if index == 10 {
        quad(1i64, -1i64, 3i64, 1i64)
    } else if index == 11 {
        quad(1i64, -1i64, 1i64, 3i64)
    } else if index == 12 {
        quad(-3i64, -1i64, 1i64, 1i64)
    } else if index == 13 {
        quad(-1i64, -3i64, 1i64, 1i64)
    } else if index == 14 {
        quad(-1i64, -1i64, 3i64, 1i64)
    } else if index == 15 {
        quad(-1i64, -1i64, 1i64, 3i64)
    } else if index == 16 {
        quad(3i64, 1i64, -1i64, 1i64)
    } else if index == 17 {
        quad(1i64, 3i64, -1i64, 1i64)
    } else if index == 18 {
        quad(1i64, 1i64, -3i64, 1i64)
    } else if index == 19 {
        quad(1i64, 1i64, -1i64, 3i64)
    } else if index == 20 {
        quad(-3i64, 1i64, -1i64, 1i64)
    } else if index == 21 {
        quad(-1i64, 3i64, -1i64, 1i64)
    } else if index == 22 {
        quad(-1i64, 1i64, -3i64, 1i64)
    } else if index == 23 {
        quad(-1i64, 1i64, -1i64, 3i64)
    } else if index == 24 {
        quad(3i64, -1i64, -1i64, 1i64)
    } else if index == 25 {
        quad(1i64, -3i64, -1i64, 1i64)
    } else if index == 26 {
        quad(1i64, -1i64, -3i64, 1i64)
    } else if index == 27 {
        quad(1i64, -1i64, -1i64, 3i64)
    } else if index == 28 {
        quad(-3i64, -1i64, -1i64, 1i64)
    } else if index == 29 {
        quad(-1i64, -3i64, -1i64, 1i64)
    } else if index == 30 {
        quad(-1i64, -1i64, -3i64, 1i64)
    } else if index == 31 {
        quad(-1i64, -1i64, -1i64, 3i64)
    } else if index == 32 {
        quad(3i64, 1i64, 1i64, -1i64)
    } else if index == 33 {
        quad(1i64, 3i64, 1i64, -1i64)
    } else if index == 34 {
        quad(1i64, 1i64, 3i64, -1i64)
    } else if index == 35 {
        quad(1i64, 1i64, 1i64, -3i64)
    } else if index == 36 {
        quad(-3i64, 1i64, 1i64, -1i64)
    } else if index == 37 {
        quad(-1i64, 3i64, 1i64, -1i64)
    } else if index == 38 {
        quad(-1i64, 1i64, 3i64, -1i64)
    } else if index == 39 {
        quad(-1i64, 1i64, 1i64, -3i64)
    } else if index == 40 {
        quad(3i64, -1i64, 1i64, -1i64)
    } else if index == 41 {
        quad(1i64, -3i64, 1i64, -1i64)
    } else if index == 42 {
        quad(1i64, -1i64, 3i64, -1i64)
    } else if index == 43 {
        quad(1i64, -1i64, 1i64, -3i64)
    } else if index == 44 {
        quad(-3i64, -1i64, 1i64, -1i64)
    } else if index == 45 {
        quad(-1i64, -3i64, 1i64, -1i64)
    } else if index == 46 {
        quad(-1i64, -1i64, 3i64, -1i64)
    } else if index == 47 {
        quad(-1i64, -1i64, 1i64, -3i64)
    } else if index == 48 {
        quad(3i64, 1i64, -1i64, -1i64)
    } else if index == 49 {
        quad(1i64, 3i64, -1i64, -1i64)
    } else if index == 50 {
        quad(1i64, 1i64, -3i64, -1i64)
    } else if index == 51 {
        quad(1i64, 1i64, -1i64, -3i64)
    } else if index == 52 {
        quad(-3i64, 1i64, -1i64, -1i64)
    } else if index == 53 {
        quad(-1i64, 3i64, -1i64, -1i64)
    } else if index == 54 {
        quad(-1i64, 1i64, -3i64, -1i64)
    } else if index == 55 {
        quad(-1i64, 1i64, -1i64, -3i64)
    } else if index == 56 {
        quad(3i64, -1i64, -1i64, -1i64)
    } else if index == 57 {
        quad(1i64, -3i64, -1i64, -1i64)
    } else if index == 58 {
        quad(1i64, -1i64, -3i64, -1i64)
    } else if index == 59 {
        quad(1i64, -1i64, -1i64, -3i64)
    } else if index == 60 {
        quad(-3i64, -1i64, -1i64, -1i64)
    } else if index == 61 {
        quad(-1i64, -3i64, -1i64, -1i64)
    } else if index == 62 {
        quad(-1i64, -1i64, -3i64, -1i64)
    } else {
        quad(-1i64, -1i64, -1i64, -3i64)
    }
}

/// Gradient index for a lattice point: four chained table lookups keyed by
/// the coordinates modulo 256, with bits two to seven of the final entry
/// picking one of the sixty-four directions.
pub open spec fn spec_grad_index_4d(perm: Seq<i64>, gx: int, gy: int, gz: int, gw: int) -> int {
    let p0 = perm[gx % 256];
    let p1 = perm[chain_index(p0 as int, gy)];
    let p2 = perm[chain_index(p1 as int, gz)];
    let p3 = perm[chain_index(p2 as int, gw)];
    ((p3 as int) % 256) / 4
}

/// The three lattice points contributed beyond the five corners of the
/// pentachoron anchored at the origin. `origin_is_closest` says whether the
/// origin is one of the two closest pentachoron vertices; `closest` is the
/// axis bit of the other closest vertex when it is, else the combined axis
/// bits of the two closest vertices.
pub open spec fn spec_pentachoron_points_at_origin(origin_is_closest: bool, closest: i64) -> (
    Vec4<i64>,
    Vec4<i64>,
    Vec4<i64>,
) {
    if origin_is_closest {
        if closest == 1 {
            (quad(1i64, -1i64, 0i64, 0i64), quad(1i64, 0i64, -1i64, 0i64), quad(1i64, 0i64, 0i64, -1i64))
        } else if closest == 2 {
            (quad(-1i64, 1i64, 0i64, 0i64), quad(0i64, 1i64, -1i64, 0i64), quad(0i64, 1i64, 0i64, -1i64))
        } else if closest == 4 {
            (quad(-1i64, 0i64, 1i64, 0i64), quad(0i64, -1i64, 1i64, 0i64), quad(0i64, 0i64, 1i64, -1i64))
        } else {
            (quad(-1i64, 0i64, 0i64, 1i64), quad(0i64, -1i64, 0i64, 1i64), quad(0i64, 0i64, -1i64, 1i64))
        }
    } else {
        if closest == 3 {
            (quad(1i64, 1i64, 0i64, 0i64), quad(1i64, 1i64, -1i64, 0i64), quad(1i64, 1i64, 0i64, -1i64))
        } else if closest == 5 {
            (quad(1i64, 0i64, 1i64, 0i64), quad(1i64, -1i64, 1i64, 0i64), quad(1i64, 0i64, 1i64, -1i64))
        } else if closest == 6 {
            (quad(0i64, 1i64, 1i64, 0i64), quad(-1i64, 1i64, 1i64, 0i64), quad(0i64, 1i64, 1i64, -1i64))
        } else if closest == 9 {
            (quad(1i64, 0i64, 0i64, 1i64), quad(1i64, -1i64, 0i64, 1i64), quad(1i64, 0i64, -1i64, 1i64))
        } else if closest == 10 {
            (quad(0i64, 1i64, 0i64, 1i64), quad(-1i64, 1i64, 0i64, 1i64), quad(0i64, 1i64, -1i64, 1i64))
        } else {
            (quad(0i64, 0i64, 1i64, 1i64), quad(-1i64, 0i64, 1i64, 1i64), quad(0i64, -1i64, 1i64, 1i64))
        }
    }
}

/// The three lattice points contributed beyond the five corners of the
/// pentachoron anchored at `(1, 1, 1, 1)`, under the same encoding as the
/// origin-side table.
pub open spec fn spec_pentachoron_points_at_ones(ones_is_closest: bool, closest: i64) -> (
    Vec4<i64>,
    Vec4<i64>,
    Vec4<i64>,
) {
    if ones_is_closest {
        if closest == 7 {
            (quad(2i64, 1i64, 1i64, 0i64), quad(1i64, 2i64, 1i64, 0i64), quad(1i64, 1i64, 2i64, 0i64))
        } else if closest == 11 {
            (quad(2i64, 1i64, 0i64, 1i64), quad(1i64, 2i64, 0i64, 1i64), quad(1i64, 1i64, 0i64, 2i64))
        } else if closest == 13 {
            (quad(2i64, 0i64, 1i64, 1i64), quad(1i64, 0i64, 2i64, 1i64), quad(1i64, 0i64, 1i64, 2i64))
        } else {
            (quad(0i64, 2i64, 1i64, 1i64), quad(0i64, 1i64, 2i64, 1i64), quad(0i64, 1i64, 1i64, 2i64))
        }
    } else {
        if closest == 3 {
            (quad(1i64, 1i64, 0i64, 0i64), quad(2i64, 1i64, 0i64, 0i64), quad(1i64, 2i64, 0i64, 0i64))
        } else if closest == 5 {
            (quad(1i64, 0i64, 1i64, 0i64), quad(2i64, 0i64, 1i64, 0i64), quad(1i64, 0i64, 2i64, 0i64))
        } else if closest == 6 {
            (quad(0i64, 1i64, 1i64, 0i64), quad(0i64, 2i64, 1i64, 0i64), quad(0i64, 1i64, 2i64, 0i64))
        } else if closest == 9 {
            (quad(1i64, 0i64, 0i64, 1i64), quad(2i64, 0i64, 0i64, 1i64), quad(1i64, 0i64, 0i64, 2i64))
        } else if closest == 10 {
            (quad(0i64, 1i64, 0i64, 1i64), quad(0i64, 2i64, 0i64, 1i64), quad(0i64, 1i64, 0i64, 2i64))
        } else {
            (quad(0i64, 0i64, 1i64, 1i64), quad(0i64, 0i64, 2i64, 1i64), quad(0i64, 0i64, 1i64, 2i64))
        }
    }
}

/// The two points of the first dispentachoron's bigger side named by the
/// combined axis bits: the three-axis corner and its reflection past it.
pub open spec fn spec_disp1_high_pair(c: i64) -> Seq<Vec4<i64>> {
    if c == 7 {
        seq![quad(1i64, 1i64, 1i64, 0i64), quad(1i64, 1i64, 1i64, -1i64)]
    } else if c == 11 {
        seq![quad(1i64, 1i64, 0i64, 1i64), quad(1i64, 1i64, -1i64, 1i64)]
    } else if c == 13 {
        seq![quad(1i64, 0i64, 1i64, 1i64), quad(1i64, -1i64, 1i64, 1i64)]
    } else {
        seq![quad(0i64, 1i64, 1i64, 1i64), quad(-1i64, 1i64, 1i64, 1i64)]
    }
}

/// The two-axis point named by `c` with each zero axis pushed to `-1`,
/// one axis at a time.
pub open spec fn spec_disp1_low_pair(c: i64, others_full: bool) -> Seq<Vec4<i64>> {
    if c == 3 {
        seq![quad(1i64, 1i64, -1i64, 0i64), quad(1i64, 1i64, 0i64, -1i64)]
    } else if c == 5 {
        seq![quad(1i64, -1i64, 1i64, 0i64), quad(1i64, 0i64, 1i64, -1i64)]
    } else if c == 6 {
        seq![quad(-1i64, 1i64, 1i64, 0i64), quad(0i64, 1i64, 1i64, -1i64)]
    } else if c == 9 {
        seq![quad(1i64, -1i64, 0i64, 1i64), quad(1i64, 0i64, -1i64, 1i64)]
    } else if c == 10 {
        seq![quad(-1i64, 1i64, 0i64, 1i64), quad(0i64, 1i64, -1i64, 1i64)]
    } else if c == 12 || others_full {
        seq![quad(-1i64, 0i64, 1i64, 1i64), quad(0i64, -1i64, 1i64, 1i64)]
    } else {
        Seq::empty()
    }
}

/// The double-step along the single axis named by `c`.
pub open spec fn spec_axis_double(c: i64) -> Vec4<i64> {
    if c == 1 {
        quad(2i64, 0i64, 0i64, 0i64)
    } else if c == 2 {
        quad(0i64, 2i64, 0i64, 0i64)
    } else if c == 4 {
        quad(0i64, 0i64, 2i64, 0i64)
    } else {
        quad(0i64, 0i64, 0i64, 2i64)
    }
}

/// The extra lattice points of the first rectified dispentachoron, in
/// contribution order. The flags say, for each of the two closest points,
/// whether it lies on the bigger side; the codes carry their axis bits.
pub open spec fn spec_first_dispentachoron_extras(
    bigger_x: bool,
    bigger_y: bool,
    point_x: i64,
    point_y: i64,
) -> Seq<Vec4<i64>> {
    if bigger_x == bigger_y {
        if bigger_x {
            spec_disp1_high_pair(point_x | point_y).push(spec_axis_double(point_x & point_y))
        } else {
            seq![quad(0i64, 0i64, 0i64, 0i64)] + spec_disp1_low_pair(point_x | point_y, true)
        }
    } else {
        let c1 = if bigger_x {
            point_x
        } else {
            point_y
        };
        let c2 = if bigger_x {
            point_y
        } else {
            point_x
        };
        spec_disp1_low_pair(c1, false).push(spec_axis_double(c2))
    }
}

/// The two points stepping along and doubling the axes of the two-axis point
/// named by `c`.
pub open spec fn spec_disp2_two_pair(c: i64, others_full: bool) -> Seq<Vec4<i64>> {
    if c == 3 {
        seq![quad(2i64, 1i64, 0i64, 0i64), quad(1i64, 2i64, 0i64, 0i64)]
    } else if c == 5 {
        seq![quad(2i64, 0i64, 1i64, 0i64), quad(1i64, 0i64, 2i64, 0i64)]
    } else if c == 6 {
        seq![quad(0i64, 2i64, 1i64, 0i64), quad(0i64, 1i64, 2i64, 0i64)]
    } else if c == 9 {
        seq![quad(2i64, 0i64, 0i64, 1i64), quad(1i64, 0i64, 0i64, 2i64)]
    } else if c == 10 {
        seq![quad(0i64, 2i64, 0i64, 1i64), quad(0i64, 1i64, 0i64, 2i64)]
    } else if c == 12 || others_full {
        seq![quad(0i64, 0i64, 2i64, 1i64), quad(0i64, 0i64, 1i64, 2i64)]
    } else {
        Seq::empty()
    }
}

/// The single unit step and double step along the axis shared by two
/// bigger-side points.
pub open spec fn spec_disp2_axis_pair(c: i64) -> Seq<Vec4<i64>> {
    if c == 1 {
        seq![quad(1i64, 0i64, 0i64, 0i64), quad(2i64, 0i64, 0i64, 0i64)]
    } else if c == 2 {
        seq![quad(0i64, 1i64, 0i64, 0i64), quad(0i64, 2i64, 0i64, 0i64)]
    } else if c == 4 {
        seq![quad(0i64, 0i64, 1i64, 0i64), quad(0i64, 0i64, 2i64, 0i64)]
    } else {
        seq![quad(0i64, 0i64, 0i64, 1i64), quad(0i64, 0i64, 0i64, 2i64)]
    }
}

/// The all-ones corner reflected along the one axis missing from `c`.
pub open spec fn spec_disp2_reflected(c: i64) -> Vec4<i64> {
    if c & 1 == 0 {
        quad(-1i64, 1i64, 1i64, 1i64)
    } else if c & 2 == 0 {
        quad(1i64, -1i64, 1i64, 1i64)
    } else if c & 4 == 0 {
        quad(1i64, 1i64, -1i64, 1i64)
    } else {
        quad(1i64, 1i64, 1i64, -1i64)
    }
}

/// The all-ones corner reflected along the one axis missing from the
/// three-axis point named by `c`.
pub open spec fn spec_disp2_small_single(c: i64) -> Vec4<i64> {
    if c == 7 {
        quad(1i64, 1i64, 1i64, -1i64)
    } else if c == 11 {
        quad(1i64, 1i64, -1i64, 1i64)
    } else if c == 13 {
        quad(1i64, -1i64, 1i64, 1i64)
    } else {
        quad(-1i64, 1i64, 1i64, 1i64)
    }
}

/// The extra lattice points of the second rectified dispentachoron, in
/// contribution order, under the same encoding as the first.
pub open spec fn spec_second_dispentachoron_extras(
    bigger_x: bool,
    bigger_y: bool,
    point_x: i64,
    point_y: i64,
) -> Seq<Vec4<i64>> {
    if bigger_x == bigger_y {
        if bigger_x {
            spec_disp2_axis_pair(point_x & point_y).push(spec_disp2_reflected(point_x | point_y))
        } else {
            seq![quad(1i64, 1i64, 1i64, 1i64)] + spec_disp2_two_pair(point_x & point_y, true)
        }
    } else {
        let c1 = if bigger_x {
            point_x
        } else {
            point_y
        };
        let c2 = if bigger_x {
            point_y
        } else {
            point_x
        };
        spec_disp2_two_pair(c1, false).push(spec_disp2_small_single(c2))
    }
}

impl OpenSimplexNoise4D {
    /// Chained lookup selecting the gradient index of a lattice point.
    pub fn get_grad_table_index(grid: Vec4<i64>, perm: &Vec<i64>) -> (index: usize)
        requires
            is_perm_table(perm@),
        ensures
            index as int == spec_grad_index_4d(
                perm@,
                grid.x as int,
                grid.y as int,
                grid.z as int,
                grid.w as int,
            ),
            index < 64,
    {
        let p0 = chain_lookup(perm, 0, grid.x);
        let p1 = chain_lookup(perm, p0, grid.y);
        let p2 = chain_lookup(perm, p1, grid.z);
        let p3 = chain_lookup(perm, p2, grid.w);
        ((p3 % 256) / 4) as usize
    }

    /// The gradient direction stored at `index`.
    pub fn grad_table_entry(index: usize) -> (g: Vec4<i64>)
        requires
            index < 64,
        ensures
            g == spec_grad_table_4d(index as int),
    {
        match index {
            0 => Vec4::new(3, 1, 1, 1),
            1 => Vec4::new(1, 3, 1, 1),
            2 => Vec4::new(1, 1, 3, 1),
            3 => Vec4::new(1, 1, 1, 3),
            4 => Vec4::new(-3, 1, 1, 1),
            5 => Vec4::new(-1, 3, 1, 1),
            6 => Vec4::new(-1, 1, 3, 1),
            7 => Vec4::new(-1, 1, 1, 3),
            8 => Vec4::new(3, -1, 1, 1),
            9 => Vec4::new(1, -3, 1, 1),
            10 => Vec4::new(1, -1, 3, 1),
            11 => Vec4::new(1, -1, 1, 3),
            12 => Vec4::new(-3, -1, 1, 1),
            13 => Vec4::new(-1, -3, 1, 1),
            14 => Vec4::new(-1, -1, 3, 1),
            15 => Vec4::new(-1, -1, 1, 3),
            16 => Vec4::new(3, 1, -1, 1),
            17 => Vec4::new(1, 3, -1, 1),
            18 => Vec4::new(1, 1, -3, 1),
            19 => Vec4::new(1, 1, -1, 3),
            20 => Vec4::new(-3, 1, -1, 1),
            21 => Vec4::new(-1, 3, -1, 1),
            22 => Vec4::new(-1, 1, -3, 1),
            23 => Vec4::new(-1, 1, -1, 3),
            24 => Vec4::new(3, -1, -1, 1),
            25 => Vec4::new(1, -3, -1, 1),
            26 => Vec4::new(1, -1, -3, 1),
            27 => Vec4::new(1, -1, -1, 3),
            28 => Vec4::new(-3, -1, -1, 1),
            29 => Vec4::new(-1, -3, -1, 1),
            30 => Vec4::new(-1, -1, -3, 1),
            31 => Vec4::new(-1, -1, -1, 3),
            32 => Vec4::new(3, 1, 1, -1),
            33 => Vec4::new(1, 3, 1, -1),
            34 => Vec4::new(1, 1, 3, -1),
            35 => Vec4::new(1, 1, 1, -3),
            36 => Vec4::new(-3, 1, 1, -1),
            37 => Vec4::new(-1, 3, 1, -1),
            38 => Vec4::new(-1, 1, 3, -1),
            39 => Vec4::new(-1, 1, 1, -3),
            40 => Vec4::new(3, -1, 1, -1),
            41 => Vec4::new(1, -3, 1, -1),
            42 => Vec4::new(1, -1, 3, -1),
            43 => Vec4::new(1, -1, 1, -3),
            44 => Vec4::new(-3, -1, 1, -1),
            45 => Vec4::new(-1, -3, 1, -1),
            46 => Vec4::new(-1, -1, 3, -1),
            47 => Vec4::new(-1, -1, 1, -3),
            48 => Vec4::new(3, 1, -1, -1),
            49 => Vec4::new(1, 3, -1, -1),
            50 => Vec4::new(1, 1, -3, -1),
            51 => Vec4::new(1, 1, -1, -3),
            52 => Vec4::new(-3, 1, -1, -1),
            53 => Vec4::new(-1, 3, -1, -1),
            54 => Vec4::new(-1, 1, -3, -1),
            55 => Vec4::new(-1, 1, -1, -3),
            56 => Vec4::new(3, -1, -1, -1),
            57 => Vec4::new(1, -3, -1, -1),
            58 => Vec4::new(1, -1, -3, -1),
            59 => Vec4::new(1, -1, -1, -3),
            60 => Vec4::new(-3, -1, -1, -1),
            61 => Vec4::new(-1, -3, -1, -1),
            62 => Vec4::new(-1, -1, -3, -1),
            _ => Vec4::new(-1, -1, -1, -3),
        }
    }

    /// The three lattice points contributed beyond the corners of the
    /// pentachoron anchored at the origin.
    pub fn pentachoron_points_at_0_0_0_0(origin_is_closest: bool, closest: i64) -> (r: (
        Vec4<i64>,
        Vec4<i64>,
        Vec4<i64>,
    ))
        ensures
            r == spec_pentachoron_points_at_origin(origin_is_closest, closest),
    {
        if origin_is_closest {
            match closest {
                1 => (Vec4::new(1, -1, 0, 0), Vec4::new(1, 0, -1, 0), Vec4::new(1, 0, 0, -1)),
                2 => (Vec4::new(-1, 1, 0, 0), Vec4::new(0, 1, -1, 0), Vec4::new(0, 1, 0, -1)),
                4 => (Vec4::new(-1, 0, 1, 0), Vec4::new(0, -1, 1, 0), Vec4::new(0, 0, 1, -1)),
                _ => (Vec4::new(-1, 0, 0, 1), Vec4::new(0, -1, 0, 1), Vec4::new(0, 0, -1, 1)),
            }
        } else {
            match closest {
                3 => (Vec4::new(1, 1, 0, 0), Vec4::new(1, 1, -1, 0), Vec4::new(1, 1, 0, -1)),
                5 => (Vec4::new(1, 0, 1, 0), Vec4::new(1, -1, 1, 0), Vec4::new(1, 0, 1, -1)),
                6 => (Vec4::new(0, 1, 1, 0), Vec4::new(-1, 1, 1, 0), Vec4::new(0, 1, 1, -1)),
                9 => (Vec4::new(1, 0, 0, 1), Vec4::new(1, -1, 0, 1), Vec4::new(1, 0, -1, 1)),
                10 => (Vec4::new(0, 1, 0, 1), Vec4::new(-1, 1, 0, 1), Vec4::new(0, 1, -1, 1)),
                _ => (Vec4::new(0, 0, 1, 1), Vec4::new(-1, 0, 1, 1), Vec4::new(0, -1, 1, 1)),
            }
        }
    }

    /// The three lattice points contributed beyond the corners of the
    /// pentachoron anchored at `(1, 1, 1, 1)`.
    pub fn pentachoron_points_at_1_1_1_1(ones_is_closest: bool, closest: i64) -> (r: (
        Vec4<i64>,
        Vec4<i64>,
        Vec4<i64>,
    ))
        ensures
            r == spec_pentachoron_points_at_ones(ones_is_closest, closest),
    {
        if ones_is_closest {
            match closest {
                7 => (Vec4::new(2, 1, 1, 0), Vec4::new(1, 2, 1, 0), Vec4::new(1, 1, 2, 0)),
                11 => (Vec4::new(2, 1, 0, 1), Vec4::new(1, 2, 0, 1), Vec4::new(1, 1, 0, 2)),
                13 => (Vec4::new(2, 0, 1, 1), Vec4::new(1, 0, 2, 1), Vec4::new(1, 0, 1, 2)),
                _ => (Vec4::new(0, 2, 1, 1), Vec4::new(0, 1, 2, 1), Vec4::new(0, 1, 1, 2)),
            }
        } else {
            match closest {
                3 => (Vec4::new(1, 1, 0, 0), Vec4::new(2, 1, 0, 0), Vec4::new(1, 2, 0, 0)),
                5 => (Vec4::new(1, 0, 1, 0), Vec4::new(2, 0, 1, 0), Vec4::new(1, 0, 2, 0)),
                6 => (Vec4::new(0, 1, 1, 0), Vec4::new(0, 2, 1, 0), Vec4::new(0, 1, 2, 0)),
                9 => (Vec4::new(1, 0, 0, 1), Vec4::new(2, 0, 0, 1), Vec4::new(1, 0, 0, 2)),
                10 => (Vec4::new(0, 1, 0, 1), Vec4::new(0, 2, 0, 1), Vec4::new(0, 1, 0, 2)),
                _ => (Vec4::new(0, 0, 1, 1), Vec4::new(0, 0, 2, 1), Vec4::new(0, 0, 1, 2)),
            }
        }
    }

    /// The extra lattice points of the first rectified dispentachoron, in
    /// contribution order.
    pub fn first_dispentachoron_extra_points(
        bigger_x: bool,
        bigger_y: bool,
        point_x: i64,
        point_y: i64,
    ) -> (r: Vec<Vec4<i64>>)
        ensures
            r@ == spec_first_dispentachoron_extras(bigger_x, bigger_y, point_x, point_y),
            r@.len() == 3 || r@.len() == 1,
            bigger_x == bigger_y ==> r@.len() == 3,
    {
        let mut r: Vec<Vec4<i64>> = Vec::new();
        if bigger_x == bigger_y {
            if bigger_x {
                let c1 = point_x | point_y;
                if c1 == 7 {
                    r.push(Vec4::new(1, 1, 1, 0));
                    r.push(Vec4::new(1, 1, 1, -1));
                } else if c1 == 11 {
                    r.push(Vec4::new(1, 1, 0, 1));
                    r.push(Vec4::new(1, 1, -1, 1));
                } else if c1 == 13 {
                    r.push(Vec4::new(1, 0, 1, 1));
                    r.push(Vec4::new(1, -1, 1, 1));
                } else {
                    r.push(Vec4::new(0, 1, 1, 1));
                    r.push(Vec4::new(-1, 1, 1, 1));
                }
                let c2 = point_x & point_y;
                if c2 == 1 {
                    r.push(Vec4::new(2, 0, 0, 0));
                } else if c2 == 2 {
                    r.push(Vec4::new(0, 2, 0, 0));
                } else if c2 == 4 {
                    r.push(Vec4::new(0, 0, 2, 0));
                } else {
                    r.push(Vec4::new(0, 0, 0, 2));
                }
            } else {
                r.push(Vec4::new(0, 0, 0, 0));
                let c = point_x | point_y;
                if c == 3 {
                    r.push(Vec4::new(1, 1, -1, 0));
                    r.push(Vec4::new(1, 1, 0, -1));
                } else if c == 5 {
                    r.push(Vec4::new(1, -1, 1, 0));
                    r.push(Vec4::new(1, 0, 1, -1));
                } else if c == 6 {
                    r.push(Vec4::new(-1, 1, 1, 0));
                    r.push(Vec4::new(0, 1, 1, -1));
                } else if c == 9 {
                    r.push(Vec4::new(1, -1, 0, 1));
                    r.push(Vec4::new(1, 0, -1, 1));
                } else if c == 10 {
                    r.push(Vec4::new(-1, 1, 0, 1));
                    r.push(Vec4::new(0, 1, -1, 1));
                } else {
                    r.push(Vec4::new(-1, 0, 1, 1));
                    r.push(Vec4::new(0, -1, 1, 1));
                }
            }
        } else {
            let c1 = if bigger_x {
                point_x
            } else {
                point_y
            };
            let c2 = if bigger_x {
                point_y
            } else {
                point_x
            };
            if c1 == 3 {
                r.push(Vec4::new(1, 1, -1, 0));
                r.push(Vec4::new(1, 1, 0, -1));
            } else if c1 == 5 {
                r.push(Vec4::new(1, -1, 1, 0));
                r.push(Vec4::new(1, 0, 1, -1));
            } else if c1 == 6 {
                r.push(Vec4::new(-1, 1, 1, 0));
                r.push(Vec4::new(0, 1, 1, -1));
            } else if c1 == 9 {
                r.push(Vec4::new(1, -1, 0, 1));
                r.push(Vec4::new(1, 0, -1, 1));
            } else if c1 == 10 {
                r.push(Vec4::new(-1, 1, 0, 1));
                r.push(Vec4::new(0, 1, -1, 1));
            } else if c1 == 12 {
                r.push(Vec4::new(-1, 0, 1, 1));
                r.push(Vec4::new(0, -1, 1, 1));
            }
            if c2 == 1 {
                r.push(Vec4::new(2, 0, 0, 0));
            } else if c2 == 2 {
                r.push(Vec4::new(0, 2, 0, 0));
            } else if c2 == 4 {
                r.push(Vec4::new(0, 0, 2, 0));
            } else {
                r.push(Vec4::new(0, 0, 0, 2));
            }
        }
        proof {
            assert(r@ =~= spec_first_dispentachoron_extras(bigger_x, bigger_y, point_x, point_y));
        }
        r
    }

    /// The extra lattice points of the second rectified dispentachoron, in
    /// contribution order.
    pub fn second_dispentachoron_extra_points(
        bigger_x: bool,
        bigger_y: bool,
        point_x: i64,
        point_y: i64,
    ) -> (r: Vec<Vec4<i64>>)
        ensures
            r@ == spec_second_dispentachoron_extras(bigger_x, bigger_y, point_x, point_y),
            r@.len() == 3 || r@.len() == 1,
            bigger_x == bigger_y ==> r@.len() == 3,
    {
        let mut r: Vec<Vec4<i64>> = Vec::new();
        if bigger_x == bigger_y {
            if bigger_x {
                let c1 = point_x & point_y;
                if c1 == 1 {
                    r.push(Vec4::new(1, 0, 0, 0));
                    r.push(Vec4::new(2, 0, 0, 0));
                } else if c1 == 2 {
                    r.push(Vec4::new(0, 1, 0, 0));
                    r.push(Vec4::new(0, 2, 0, 0));
                } else if c1 == 4 {
                    r.push(Vec4::new(0, 0, 1, 0));
                    r.push(Vec4::new(0, 0, 2, 0));
                } else {
                    r.push(Vec4::new(0, 0, 0, 1));
                    r.push(Vec4::new(0, 0, 0, 2));
                }
                let c2 = point_x | point_y;
                if c2 & 1 == 0 {
                    r.push(Vec4::new(-1, 1, 1, 1));
                } else if c2 & 2 == 0 {
                    r.push(Vec4::new(1, -1, 1, 1));
                } else if c2 & 4 == 0 {
                    r.push(Vec4::new(1, 1, -1, 1));
                } else {
                    r.push(Vec4::new(1, 1, 1, -1));
                }
            } else {
                r.push(Vec4::new(1, 1, 1, 1));
                let c = point_x & point_y;
                if c == 3 {
                    r.push(Vec4::new(2, 1, 0, 0));
                    r.push(Vec4::new(1, 2, 0, 0));
                } else if c == 5 {
                    r.push(Vec4::new(2, 0, 1, 0));
                    r.push(Vec4::new(1, 0, 2, 0));
                } else if c == 6 {
                    r.push(Vec4::new(0, 2, 1, 0));
                    r.push(Vec4::new(0, 1, 2, 0));
                } else if c == 9 {
                    r.push(Vec4::new(2, 0, 0, 1));
                    r.push(Vec4::new(1, 0, 0, 2));
                } else if c == 10 {
                    r.push(Vec4::new(0, 2, 0, 1));
                    r.push(Vec4::new(0, 1, 0, 2));
                } else {
                    r.push(Vec4::new(0, 0, 2, 1));
                    r.push(Vec4::new(0, 0, 1, 2));
                }
            }
        } else {
            let c1 = if bigger_x {
                point_x
            } else {
                point_y
            };
            let c2 = if bigger_x {
                point_y
            } else {
                point_x
            };
            if c1 == 3 {
                r.push(Vec4::new(2, 1, 0, 0));
                r.push(Vec4::new(1, 2, 0, 0));
            } else if c1 == 5 {
                r.push(Vec4::new(2, 0, 1, 0));
                r.push(Vec4::new(1, 0, 2, 0));
            } else if c1 == 6 {
                r.push(Vec4::new(0, 2, 1, 0));
                r.push(Vec4::new(0, 1, 2, 0));
            } else if c1 == 9 {
                r.push(Vec4::new(2, 0, 0, 1));
                r.push(Vec4::new(1, 0, 0, 2));
            } else if c1 == 10 {
                r.push(Vec4::new(0, 2, 0, 1));
                r.push(Vec4::new(0, 1, 0, 2));
            } else if c1 == 12 {
                r.push(Vec4::new(0, 0, 2, 1));
                r.push(Vec4::new(0, 0, 1, 2));
            }
            if c2 == 7 {
                r.push(Vec4::new(1, 1, 1, -1));
            } else if c2 == 11 {
                r.push(Vec4::new(1, 1, -1, 1));
            } else if c2 == 13 {
                r.push(Vec4::new(1, -1, 1, 1));
            } else {
                r.push(Vec4::new(-1, 1, 1, 1));
            }
        }
        proof {
            assert(r@ =~= spec_second_dispentachoron_extras(bigger_x, bigger_y, point_x, point_y));
        }
        r
    }
}

} // verus!
