use vstd::prelude::*;
use crate::is_perm_table;
use crate::utils::{chain_index, chain_lookup};
use crate::vector::vec2::Vec2;

verus! {

/// The two-dimensional evaluator's integer core: gradient selection through
/// the permutation table and the triangular region's lattice-point tables.
pub struct OpenSimplexNoise2D {}

/// The eight two-dimensional gradient directions.
pub open spec fn spec_grad_table_2d(index: int) -> Vec2<i64> {
    if index == 0 {
        (Vec2 { x: 5i64, y: 2i64 })
    } else if index == 1 {
        (Vec2 { x: 2i64, y: 5i64 })
    } else if index == 2 {
        (Vec2 { x: -5i64, y: 2i64 })
    } else if index == 3 {
        (Vec2 { x: -2i64, y: 5i64 })
    } else if index == 4 {
        (Vec2 { x: 5i64, y: -2i64 })
    } else if index == 5 {
        (Vec2 { x: 2i64, y: -5i64 })
    } else if index == 6 {
        (Vec2 { x: -5i64, y: -2i64 })
    } else {
        (Vec2 { x: -2i64, y: -5i64 })
    }
}

/// Gradient index for a lattice point: two chained table lookups keyed by the
/// coordinates modulo 256, with the low half-byte of the final entry picking
/// one of the eight directions.
pub open spec fn spec_grad_index_2d(perm: Seq<i64>, gx: int, gy: int) -> int {
    let p0 = perm[gx % 256];
    let p1 = perm[chain_index(p0 as int, gy)];
    ((p1 as int) % 16) / 2
}

impl OpenSimplexNoise2D {
    /// Chained lookup selecting the gradient index of a lattice point.
    pub fn get_grad_table_index(grid: Vec2<i64>, perm: &Vec<i64>) -> (index: usize)
        requires
            is_perm_table(perm@),
        ensures
            index as int == spec_grad_index_2d(perm@, grid.x as int, grid.y as int),
            index < 8,
    {
        let p0 = chain_lookup(perm, 0, grid.x);
        let p1 = chain_lookup(perm, p0, grid.y);
        ((p1 % 16) / 2) as usize
    }

    /// The gradient direction stored at `index`.
    pub fn grad_table_entry(index: usize) -> (g: Vec2<i64>)
        requires
            index < 8,
        ensures
            g == spec_grad_table_2d(index as int),
    {
        match index {
            0 => Vec2 { x: 5, y: 2 },
            1 => Vec2 { x: 2, y: 5 },
            2 => Vec2 { x: -5, y: 2 },
            3 => Vec2 { x: -2, y: 5 },
            4 => Vec2 { x: 5, y: -2 },
            5 => Vec2 { x: 2, y: -5 },
            6 => Vec2 { x: -5, y: -2 },
            _ => Vec2 { x: -2, y: -5 },
        }
    }

    /// The two lattice points contributed beyond the fixed corners `(1, 0)`
    /// and `(0, 1)`: the region's anchor `(factor, factor)`, and one
    /// correction point chosen by which triangle vertices lie closest.
    /// `anchor_is_close` says whether the anchor beats at least one of the
    /// fractional offsets; `x_gt_y` orders those offsets.
    pub fn triangle_lattice_points(factor: i64, anchor_is_close: bool, x_gt_y: bool) -> (r: (
        Vec2<i64>,
        Vec2<i64>,
    ))
        requires
            factor == 0 || factor == 1,
        ensures
            r.0 == (Vec2 { x: factor, y: factor }),
            r.1 == spec_triangle_correction(factor, anchor_is_close, x_gt_y),
    {
        let correction = if anchor_is_close {
            if x_gt_y {
                Vec2 { x: 1 + factor, y: -1 + factor }
            } else {
                Vec2 { x: -1 + factor, y: 1 + factor }
            }
        } else {
            Vec2 { x: 1 - factor, y: 1 - factor }
        };
        (Vec2 { x: factor, y: factor }, correction)
    }
}

/// The correction point of the triangular region: a diagonal neighbour when
/// the region's anchor is one of the two closest vertices, else the opposite
/// corner of the surrounding square.
pub open spec fn spec_triangle_correction(factor: i64, anchor_is_close: bool, x_gt_y: bool) -> Vec2<
    i64,
> {
    if anchor_is_close {
        if x_gt_y {
            (Vec2 { x: (1 + factor) as i64, y: (-1 + factor) as i64 })
        } else {
            (Vec2 { x: (-1 + factor) as i64, y: (1 + factor) as i64 })
        }
    } else {
        (Vec2 { x: (1 - factor) as i64, y: (1 - factor) as i64 })
    }
}

} // verus!
