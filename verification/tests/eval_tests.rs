// These tests rebuild the floating-point evaluators around the library's
// verified permutation table, gradient selection, and region lattice-point
// tables: the library itself stays within integer arithmetic, so the
// floating-point transforms and contribution sums are exercised here.
use opensimplex_noise::open_simplex_noise_2d::OpenSimplexNoise2D;
use opensimplex_noise::open_simplex_noise_3d::OpenSimplexNoise3D;
use opensimplex_noise::open_simplex_noise_4d::OpenSimplexNoise4D;
use opensimplex_noise::vector::vec2::Vec2;
use opensimplex_noise::vector::vec3::Vec3;
use opensimplex_noise::vector::vec4::Vec4;
use opensimplex_noise::OpenSimplexNoise;

const STRETCH_2D: f64 = -0.211_324_865_405_187;
const SQUISH_2D: f64 = 0.366_025_403_784_439;
const NORM_2D: f64 = 47.0;

const STRETCH_3D: f64 = -1.0 / 6.0;
const SQUISH_3D: f64 = 1.0 / 3.0;
const NORM_3D: f64 = 103.0;

const STRETCH_4D: f64 = -0.138_196_601_125_011;
const SQUISH_4D: f64 = 0.309_016_994_374_947;
const NORM_4D: f64 = 30.0;

fn floor64(x: f64) -> i64 {
    x.floor() as i64
}

fn contribute_2d(dx: f64, dy: f64, origin: (f64, f64), grid: (f64, f64), perm: &Vec<i64>) -> f64 {
    let squish = SQUISH_2D * (dx + dy);
    let shifted_x = origin.0 - dx - squish;
    let shifted_y = origin.1 - dy - squish;
    let attn = 2.0 - (shifted_x * shifted_x + shifted_y * shifted_y);
    if attn > 0.0 {
        let lattice = Vec2::new((grid.0 + dx) as i64, (grid.1 + dy) as i64);
        let index = OpenSimplexNoise2D::get_grad_table_index(lattice, perm);
        let g = OpenSimplexNoise2D::grad_table_entry(index);
        let extrapolated = (g.x as f64) * shifted_x + (g.y as f64) * shifted_y;
        let attn2 = attn * attn;
        attn2 * attn2 * extrapolated
    } else {
        0.0
    }
}

fn eval_2d_with(noise: &OpenSimplexNoise, x: f64, y: f64) -> f64 {
    let perm = noise.table();
    let stretch = STRETCH_2D * (x + y);
    let xs = x + stretch;
    let ys = y + stretch;
    let gx = floor64(xs) as f64;
    let gy = floor64(ys) as f64;
    let squish = SQUISH_2D * (gx + gy);
    let origin = (x - (gx + squish), y - (gy + squish));
    let ins = (xs - gx, ys - gy);
    let mut value = 0.0;
    value += contribute_2d(1.0, 0.0, origin, (gx, gy), perm);
    value += contribute_2d(0.0, 1.0, origin, (gx, gy), perm);
    let in_sum = ins.0 + ins.1;
    let factor: i64 = if in_sum <= 1.0 { 0 } else { 1 };
    let zins = 1.0 + (factor as f64) - in_sum;
    let anchor_is_close = zins > ins.0 || zins > ins.1;
    let x_gt_y = ins.0 > ins.1;
    let (p0, p1) = OpenSimplexNoise2D::triangle_lattice_points(factor, anchor_is_close, x_gt_y);
    value += contribute_2d(p0.x as f64, p0.y as f64, origin, (gx, gy), perm)
        + contribute_2d(p1.x as f64, p1.y as f64, origin, (gx, gy), perm);
    value / NORM_2D
}

fn contribute_3d(
    d: (f64, f64, f64),
    origin: (f64, f64, f64),
    grid: (f64, f64, f64),
    perm: &Vec<i64>,
) -> f64 {
    let squish = SQUISH_3D * (d.0 + d.1 + d.2);
    let shx = origin.0 - d.0 - squish;
    let shy = origin.1 - d.1 - squish;
    let shz = origin.2 - d.2 - squish;
    let attn = 2.0 - (shx * shx + shy * shy + shz * shz);
    if attn > 0.0 {
        let lattice = Vec3::new(
            (grid.0 + d.0) as i64,
            (grid.1 + d.1) as i64,
            (grid.2 + d.2) as i64,
        );
        let index = OpenSimplexNoise3D::get_grad_table_index(lattice, perm);
        let g = OpenSimplexNoise3D::grad_table_entry(index);
        let extrapolated = (g.x as f64) * shx + (g.y as f64) * shy + (g.z as f64) * shz;
        let attn2 = attn * attn;
        attn2 * attn2 * extrapolated
    } else {
        0.0
    }
}

fn eval_3d_with(noise: &OpenSimplexNoise, x: f64, y: f64, z: f64) -> f64 {
    let perm = noise.table();
    let stretch = STRETCH_3D * (x + y + z);
    let xs = x + stretch;
    let ys = y + stretch;
    let zs = z + stretch;
    let gx = floor64(xs) as f64;
    let gy = floor64(ys) as f64;
    let gz = floor64(zs) as f64;
    let squish = SQUISH_3D * (gx + gy + gz);
    let origin = (x - (gx + squish), y - (gy + squish), z - (gz + squish));
    let ins = (xs - gx, ys - gy, zs - gz);
    let grid = (gx, gy, gz);
    let in_sum = ins.0 + ins.1 + ins.2;
    let value = if in_sum <= 1.0 {
        let first = ins.0 >= ins.1 && ins.2 > ins.1;
        let second = ins.0 < ins.1 && ins.2 > ins.0;
        let point = OpenSimplexNoise3D::determine_closest_point(1, 2, 4, 4, first, second);
        let score = (
            if second { ins.2 } else { ins.0 },
            if first { ins.2 } else { ins.1 },
        );
        let wins = 1.0 - in_sum;
        let origin_is_closest = wins > score.0 || wins > score.1;
        let closest = if origin_is_closest {
            if score.1 > score.0 { point.1 } else { point.0 }
        } else {
            point.0 | point.1
        };
        let (e1, e2) =
            OpenSimplexNoise3D::determine_lattice_points_including_0_0_0(origin_is_closest, closest);
        let mut value = contribute_3d((e1.x as f64, e1.y as f64, e1.z as f64), origin, grid, perm)
            + contribute_3d((e2.x as f64, e2.y as f64, e2.z as f64), origin, grid, perm);
        value = value
            + contribute_3d((0.0, 0.0, 0.0), origin, grid, perm)
            + contribute_3d((1.0, 0.0, 0.0), origin, grid, perm)
            + contribute_3d((0.0, 1.0, 0.0), origin, grid, perm)
            + contribute_3d((0.0, 0.0, 1.0), origin, grid, perm);
        value
    } else if in_sum >= 2.0 {
        let first = ins.0 >= ins.1 && ins.2 > ins.1;
        let second = ins.0 < ins.1 && ins.2 > ins.0;
        let point = OpenSimplexNoise3D::determine_closest_point(6, 5, 3, 3, first, second);
        let score = (
            if second { ins.2 } else { ins.0 },
            if first { ins.2 } else { ins.1 },
        );
        let wins = 3.0 - in_sum;
        let ones_is_closest = wins < score.0 || wins < score.1;
        let closest = if ones_is_closest {
            if score.1 < score.0 { point.1 } else { point.0 }
        } else {
            point.0 & point.1
        };
        let (e1, e2) =
            OpenSimplexNoise3D::determine_lattice_points_including_1_1_1(ones_is_closest, closest);
        let mut value = contribute_3d((e1.x as f64, e1.y as f64, e1.z as f64), origin, grid, perm)
            + contribute_3d((e2.x as f64, e2.y as f64, e2.z as f64), origin, grid, perm);
        value = value
            + contribute_3d((1.0, 1.0, 0.0), origin, grid, perm)
            + contribute_3d((1.0, 0.0, 1.0), origin, grid, perm)
            + contribute_3d((0.0, 1.0, 1.0), origin, grid, perm)
            + contribute_3d((1.0, 1.0, 1.0), origin, grid, perm);
        value
    } else {
        let p_xy = ins.0 + ins.1;
        let p_xz = ins.0 + ins.2;
        let ((point_x, further_x), (point_y, further_y)) =
            OpenSimplexNoise3D::decide_between_points(p_xy > 1.0, p_xz > 1.0);
        let score = (
            if p_xy > 1.0 { p_xy - 1.0 } else { 1.0 - p_xy },
            if p_xz > 1.0 { p_xz - 1.0 } else { 1.0 - p_xz },
        );
        let p = ins.1 + ins.2;
        let (score_value, replacement_further) =
            if p > 1.0 { (p - 1.0, true) } else { (1.0 - p, false) };
        let (point, further) = OpenSimplexNoise3D::determine_further_side(
            point_x,
            point_y,
            further_x,
            further_y,
            replacement_further,
            score.0 <= score.1,
            score.0 < score_value,
            score.1 < score_value,
        );
        let (e1, e2) =
            OpenSimplexNoise3D::octahedron_extra_points(further.0, further.1, point.0, point.1);
        let mut value = contribute_3d((e1.x as f64, e1.y as f64, e1.z as f64), origin, grid, perm)
            + contribute_3d((e2.x as f64, e2.y as f64, e2.z as f64), origin, grid, perm);
        value = value
            + contribute_3d((1.0, 0.0, 0.0), origin, grid, perm)
            + contribute_3d((0.0, 1.0, 0.0), origin, grid, perm)
            + contribute_3d((0.0, 0.0, 1.0), origin, grid, perm)
            + contribute_3d((1.0, 1.0, 0.0), origin, grid, perm)
            + contribute_3d((1.0, 0.0, 1.0), origin, grid, perm)
            + contribute_3d((0.0, 1.0, 1.0), origin, grid, perm);
        value
    };
    value / NORM_3D
}

fn contribute_4d(
    d: (f64, f64, f64, f64),
    origin: (f64, f64, f64, f64),
    grid: (f64, f64, f64, f64),
    perm: &Vec<i64>,
) -> f64 {
    let squish = SQUISH_4D * (d.0 + d.1 + d.2 + d.3);
    let shx = origin.0 - d.0 - squish;
    let shy = origin.1 - d.1 - squish;
    let shz = origin.2 - d.2 - squish;
    let shw = origin.3 - d.3 - squish;
    let attn = 2.0 - (shx * shx + shy * shy + shz * shz + shw * shw);
    if attn > 0.0 {
        let lattice = Vec4::new(
            (grid.0 + d.0) as i64,
            (grid.1 + d.1) as i64,
            (grid.2 + d.2) as i64,
            (grid.3 + d.3) as i64,
        );
        let index = OpenSimplexNoise4D::get_grad_table_index(lattice, perm);
        let g = OpenSimplexNoise4D::grad_table_entry(index);
        let extrapolated =
            (g.x as f64) * shx + (g.y as f64) * shy + (g.z as f64) * shz + (g.w as f64) * shw;
        let attn2 = attn * attn;
        attn2 * attn2 * extrapolated
    } else {
        0.0
    }
}

fn c4(v: &Vec4<i64>) -> (f64, f64, f64, f64) {
    (v.x as f64, v.y as f64, v.z as f64, v.w as f64)
}

fn eval_4d_with(noise: &OpenSimplexNoise, x: f64, y: f64, z: f64, w: f64) -> f64 {
    let perm = noise.table();
    let stretch = STRETCH_4D * (x + y + z + w);
    let xs = x + stretch;
    let ys = y + stretch;
    let zs = z + stretch;
    let ws = w + stretch;
    let gx = floor64(xs) as f64;
    let gy = floor64(ys) as f64;
    let gz = floor64(zs) as f64;
    let gw = floor64(ws) as f64;
    let squish = SQUISH_4D * (gx + gy + gz + gw);
    let origin = (
        x - (gx + squish),
        y - (gy + squish),
        z - (gz + squish),
        w - (gw + squish),
    );
    let ins = (xs - gx, ys - gy, zs - gz, ws - gw);
    let grid = (gx, gy, gz, gw);
    let in_sum = ins.0 + ins.1 + ins.2 + ins.3;
    let value = if in_sum <= 1.0 {
        let mut point: (i64, i64) = (1, 2);
        let mut score = (ins.0, ins.1);
        if score.0 >= score.1 && ins.2 > score.1 {
            score.1 = ins.2;
            point.1 = 4;
        } else if score.0 < score.1 && ins.2 > score.0 {
            score.0 = ins.2;
            point.0 = 4;
        }
        if score.0 >= score.1 && ins.3 > score.1 {
            score.1 = ins.3;
            point.1 = 8;
        } else if score.0 < score.1 && ins.3 > score.0 {
            score.0 = ins.3;
            point.0 = 8;
        }
        let uins = 1.0 - in_sum;
        let origin_is_closest = uins > score.0 || uins > score.1;
        let closest = if origin_is_closest {
            if score.1 > score.0 { point.1 } else { point.0 }
        } else {
            point.0 | point.1
        };
        let (e1, e2, e3) =
            OpenSimplexNoise4D::pentachoron_points_at_0_0_0_0(origin_is_closest, closest);
        let mut value = contribute_4d(c4(&e1), origin, grid, perm)
            + contribute_4d(c4(&e2), origin, grid, perm)
            + contribute_4d(c4(&e3), origin, grid, perm);
        value = value
            + contribute_4d((0.0, 0.0, 0.0, 0.0), origin, grid, perm)
            + contribute_4d((1.0, 0.0, 0.0, 0.0), origin, grid, perm)
            + contribute_4d((0.0, 1.0, 0.0, 0.0), origin, grid, perm)
            + contribute_4d((0.0, 0.0, 1.0, 0.0), origin, grid, perm)
            + contribute_4d((0.0, 0.0, 0.0, 1.0), origin, grid, perm);
        value
    } else if in_sum >= 3.0 {
        let mut point: (i64, i64) = (14, 13);
        let mut score = (ins.0, ins.1);
        if score.0 <= score.1 && ins.2 < score.1 {
            score.1 = ins.2;
            point.1 = 11;
        } else if score.0 > score.1 && ins.2 < score.0 {
            score.0 = ins.2;
            point.0 = 11;
        }
        if score.0 <= score.1 && ins.3 < score.1 {
            score.1 = ins.3;
            point.1 = 7;
        } else if score.0 > score.1 && ins.3 < score.0 {
            score.0 = ins.3;
            point.0 = 7;
        }
        let uins = 1.0 - in_sum;
        let ones_is_closest = uins < score.0 || uins > score.1;
        let closest = if ones_is_closest {
            if score.1 < score.0 { point.1 } else { point.0 }
        } else {
            point.0 & point.1
        };
        let (e1, e2, e3) =
            OpenSimplexNoise4D::pentachoron_points_at_1_1_1_1(ones_is_closest, closest);
        let mut value = contribute_4d(c4(&e1), origin, grid, perm)
            + contribute_4d(c4(&e2), origin, grid, perm)
            + contribute_4d(c4(&e3), origin, grid, perm);
        value = value
            + contribute_4d((1.0, 1.0, 1.0, 0.0), origin, grid, perm)
            + contribute_4d((1.0, 1.0, 0.0, 1.0), origin, grid, perm)
            + contribute_4d((1.0, 0.0, 1.0, 1.0), origin, grid, perm)
            + contribute_4d((0.0, 1.0, 1.0, 1.0), origin, grid, perm)
            + contribute_4d((1.0, 1.0, 1.0, 1.0), origin, grid, perm);
        value
    } else if in_sum <= 2.0 {
        let mut score = (0.0f64, 0.0f64);
        let mut point: (i64, i64) = (0, 0);
        let mut bigger = (true, true);
        if ins.0 + ins.1 > ins.2 + ins.3 {
            score.0 = ins.0 + ins.1;
            point.0 = 0x03;
        } else {
            score.0 = ins.2 + ins.3;
            point.0 = 0x0C;
        }
        if ins.0 + ins.2 > ins.1 + ins.3 {
            score.1 = ins.0 + ins.2;
            point.1 = 0x05;
        } else {
            score.1 = ins.1 + ins.3;
            point.1 = 0x0A;
        }
        if ins.0 + ins.3 > ins.1 + ins.2 {
            let score_value = ins.0 + ins.3;
            if score.0 >= score.1 && score_value > score.1 {
                score.1 = score_value;
                point.1 = 0x09;
            } else if score.0 < score.1 && score_value > score.0 {
                score.0 = score_value;
                point.0 = 0x09;
            }
        } else {
            let score_value = ins.1 + ins.2;
            if score.0 >= score.1 && score_value > score.1 {
                score.1 = score_value;
                point.1 = 0x06;
            } else if score.0 < score.1 && score_value > score.0 {
                score.0 = score_value;
                point.0 = 0x06;
            }
        }
        let p1 = 2.0 - in_sum + ins.0;
        if score.0 >= score.1 && p1 > score.1 {
            score.1 = p1;
            point.1 = 0x01;
            bigger.1 = false;
        } else if score.0 < score.1 && p1 > score.0 {
            score.0 = p1;
            point.0 = 0x01;
            bigger.0 = false;
        }
        let p2 = 2.0 - in_sum + ins.1;
        if score.0 >= score.1 && p2 > score.1 {
            score.1 = p2;
            point.1 = 0x02;
            bigger.1 = false;
        } else if score.0 < score.1 && p2 > score.0 {
            score.0 = p2;
            point.0 = 0x02;
            bigger.0 = false;
        }
        let p3 = 2.0 - in_sum + ins.2;
        if score.0 >= score.1 && p3 > score.1 {
            score.1 = p3;
            point.1 = 0x04;
            bigger.1 = false;
        } else if score.0 < score.1 && p3 > score.0 {
            score.0 = p3;
            point.0 = 0x04;
            bigger.0 = false;
        }
        let p4 = 2.0 - in_sum + ins.3;
        if score.0 >= score.1 && p4 > score.1 {
            point.1 = 0x08;
            bigger.1 = false;
        } else if score.0 < score.1 && p4 > score.0 {
            point.0 = 0x08;
            bigger.0 = false;
        }
        let extras = OpenSimplexNoise4D::first_dispentachoron_extra_points(
            bigger.0, bigger.1, point.0, point.1,
        );
        let mut value = 0.0;
        if bigger.0 == bigger.1 {
            if bigger.0 {
                value += contribute_4d(c4(&extras[0]), origin, grid, perm)
                    + contribute_4d(c4(&extras[1]), origin, grid, perm);
                value += contribute_4d(c4(&extras[2]), origin, grid, perm);
            } else {
                value += contribute_4d(c4(&extras[0]), origin, grid, perm);
                value += contribute_4d(c4(&extras[1]), origin, grid, perm)
                    + contribute_4d(c4(&extras[2]), origin, grid, perm);
            }
        } else {
            if extras.len() == 3 {
                value += contribute_4d(c4(&extras[0]), origin, grid, perm)
                    + contribute_4d(c4(&extras[1]), origin, grid, perm);
                value += contribute_4d(c4(&extras[2]), origin, grid, perm);
            } else {
                value += contribute_4d(c4(&extras[0]), origin, grid, perm);
            }
        }
        value = value
            + contribute_4d((1.0, 0.0, 0.0, 0.0), origin, grid, perm)
            + contribute_4d((0.0, 1.0, 0.0, 0.0), origin, grid, perm)
            + contribute_4d((0.0, 0.0, 1.0, 0.0), origin, grid, perm)
            + contribute_4d((0.0, 0.0, 0.0, 1.0), origin, grid, perm)
            + contribute_4d((1.0, 1.0, 0.0, 0.0), origin, grid, perm)
            + contribute_4d((1.0, 0.0, 1.0, 0.0), origin, grid, perm)
            + contribute_4d((1.0, 0.0, 0.0, 1.0), origin, grid, perm)
            + contribute_4d((0.0, 1.0, 1.0, 0.0), origin, grid, perm)
            + contribute_4d((0.0, 1.0, 0.0, 1.0), origin, grid, perm)
            + contribute_4d((0.0, 0.0, 1.0, 1.0), origin, grid, perm);
        value
    } else {
        let mut score = (0.0f64, 0.0f64);
        let mut point: (i64, i64) = (0, 0);
        let mut bigger = (true, true);
        if ins.0 + ins.1 < ins.2 + ins.3 {
            score.0 = ins.0 + ins.1;
            point.0 = 0x0C;
        } else {
            score.0 = ins.2 + ins.3;
            point.0 = 0x03;
        }
        if ins.0 + ins.2 < ins.1 + ins.3 {
            score.1 = ins.0 + ins.2;
            point.1 = 0x0A;
        } else {
            score.1 = ins.1 + ins.3;
            point.1 = 0x05;
        }
        if ins.0 + ins.3 < ins.1 + ins.2 {
            let score_value = ins.0 + ins.3;
            if score.0 <= score.1 && score_value < score.1 {
                score.1 = score_value;
                point.1 = 0x06;
            } else if score.0 > score.1 && score_value < score.0 {
                score.0 = score_value;
                point.0 = 0x06;
            }
        } else {
            let score_value = ins.1 + ins.2;
            if score.0 <= score.1 && score_value < score.1 {
                score.1 = score_value;
                point.1 = 0x09;
            } else if score.0 > score.1 && score_value < score.0 {
                score.0 = score_value;
                point.0 = 0x09;
            }
        }
        let p1 = 3.0 - in_sum + ins.0;
        if score.0 <= score.1 && p1 < score.1 {
            score.1 = p1;
            point.1 = 0x0E;
            bigger.1 = false;
        } else if score.0 > score.1 && p1 < score.0 {
            score.0 = p1;
            point.0 = 0x0E;
            bigger.0 = false;
        }
        let p2 = 3.0 - in_sum + ins.1;
        if score.0 <= score.1 && p2 < score.1 {
            score.1 = p2;
            point.1 = 0x0D;
            bigger.1 = false;
        } else if score.0 > score.1 && p2 < score.0 {
            score.0 = p2;
            point.0 = 0x0D;
            bigger.0 = false;
        }
        let p3 = 3.0 - in_sum + ins.2;
        if score.0 <= score.1 && p3 < score.1 {
            score.1 = p3;
            point.1 = 0x0B;
            bigger.1 = false;
        } else if score.0 > score.1 && p3 < score.0 {
            score.0 = p3;
            point.0 = 0x0B;
            bigger.0 = false;
        }
        let p4 = 3.0 - in_sum + ins.3;
        if score.0 <= score.1 && p4 < score.1 {
            point.1 = 0x07;
            bigger.1 = false;
        } else if score.0 > score.1 && p4 < score.0 {
            point.0 = 0x07;
            bigger.0 = false;
        }
        let extras = OpenSimplexNoise4D::second_dispentachoron_extra_points(
            bigger.0, bigger.1, point.0, point.1,
        );
        let mut value = 0.0;
        if bigger.0 == bigger.1 {
            if bigger.0 {
                value += contribute_4d(c4(&extras[0]), origin, grid, perm)
                    + contribute_4d(c4(&extras[1]), origin, grid, perm);
                value += contribute_4d(c4(&extras[2]), origin, grid, perm);
            } else {
                value += contribute_4d(c4(&extras[0]), origin, grid, perm);
                value += contribute_4d(c4(&extras[1]), origin, grid, perm)
                    + contribute_4d(c4(&extras[2]), origin, grid, perm);
            }
        } else {
            if extras.len() == 3 {
                value += contribute_4d(c4(&extras[0]), origin, grid, perm)
                    + contribute_4d(c4(&extras[1]), origin, grid, perm);
                value += contribute_4d(c4(&extras[2]), origin, grid, perm);
            } else {
                value += contribute_4d(c4(&extras[0]), origin, grid, perm);
            }
        }
        value = value
            + contribute_4d((1.0, 1.0, 1.0, 0.0), origin, grid, perm)
            + contribute_4d((1.0, 1.0, 0.0, 1.0), origin, grid, perm)
            + contribute_4d((1.0, 0.0, 1.0, 1.0), origin, grid, perm)
            + contribute_4d((0.0, 1.0, 1.0, 1.0), origin, grid, perm)
            + contribute_4d((1.0, 1.0, 0.0, 0.0), origin, grid, perm)
            + contribute_4d((1.0, 0.0, 1.0, 0.0), origin, grid, perm)
            + contribute_4d((1.0, 0.0, 0.0, 1.0), origin, grid, perm)
            + contribute_4d((0.0, 1.0, 1.0, 0.0), origin, grid, perm)
            + contribute_4d((0.0, 1.0, 0.0, 1.0), origin, grid, perm)
            + contribute_4d((0.0, 0.0, 1.0, 1.0), origin, grid, perm);
        value
    };
    value / NORM_4D
}

#[test]
fn evaluations_are_deterministic() {
    let a = OpenSimplexNoise::new(Some(42));
    let b = OpenSimplexNoise::new(Some(42));
    let mut x = -7.3f64;
    while x < 7.0 {
        let y = x * 0.7 + 0.2;
        assert_eq!(eval_2d_with(&a, x, y).to_bits(), eval_2d_with(&b, x, y).to_bits());
        assert_eq!(eval_3d_with(&a, x, y, 0.3 * x).to_bits(), eval_3d_with(&b, x, y, 0.3 * x).to_bits());
        assert_eq!(
            eval_4d_with(&a, x, y, 0.3 * x, -y).to_bits(),
            eval_4d_with(&b, x, y, 0.3 * x, -y).to_bits()
        );
        x += 0.75;
    }
}

#[test]
fn grid_point_value_at_origin() {
    let noise = OpenSimplexNoise::new(None);
    assert_eq!(eval_2d_with(&noise, 0.0, 0.0), 0.0);
}

#[test]
fn scenario_seeded_reference_value() {
    let noise = OpenSimplexNoise::new(Some(883279212983182319));
    let value = eval_2d_with(&noise, 0.044 * 10.0, 0.044 * 10.0);
    assert!((value - (-0.560578092205607)).abs() < 1e-9);
}

#[test]
fn regression_values_seed_zero() {
    let noise = OpenSimplexNoise::new(Some(0));
    assert!((eval_2d_with(&noise, 0.5, 0.5) - 0.3349161723470271).abs() < 1e-12);
    assert!((eval_2d_with(&noise, 12.3, -45.6) - 0.4268311259603636).abs() < 1e-12);
    assert!((eval_3d_with(&noise, 0.5, 0.5, 0.5) - 0.505663430420712).abs() < 1e-12);
    assert!((eval_3d_with(&noise, -7.25, 3.75, 12.5) - (-0.5983246738470878)).abs() < 1e-12);
    assert!((eval_4d_with(&noise, 0.5, 0.5, 0.5, 0.5) - 0.09277662933423077).abs() < 1e-12);
    assert!((eval_4d_with(&noise, 1.3, -2.1, 0.7, 4.9) - (-0.023790247735486617)).abs() < 1e-12);
}

#[test]
fn regression_values_seed_forty_two() {
    let noise = OpenSimplexNoise::new(Some(42));
    assert!((eval_2d_with(&noise, 3.25, -1.75) - (-0.2650515552462129)).abs() < 1e-12);
    assert!((eval_3d_with(&noise, 3.25, -1.75, 0.5) - 0.28229843469466026).abs() < 1e-12);
    assert!((eval_4d_with(&noise, 3.25, -1.75, 0.5, -0.25) - 0.06613187828841526).abs() < 1e-12);
}

#[test]
fn eval_2d_stays_bounded_on_grid() {
    let noise = OpenSimplexNoise::new(Some(0));
    let mut xi = -200i64;
    while xi <= 200 {
        let mut yi = -200i64;
        while yi <= 200 {
            let v = eval_2d_with(&noise, xi as f64 * 0.5, yi as f64 * 0.5);
            assert!(v.abs() <= 1.0, "eval_2d out of range at ({}, {}): {}", xi, yi, v);
            yi += 1;
        }
        xi += 1;
    }
}

#[test]
fn eval_3d_stays_bounded_on_grid() {
    let noise = OpenSimplexNoise::new(Some(-5));
    let mut xi = -30i64;
    while xi <= 30 {
        let mut yi = -30i64;
        while yi <= 30 {
            let mut zi = -10i64;
            while zi <= 10 {
                let v = eval_3d_with(&noise, xi as f64 * 0.7, yi as f64 * 0.7, zi as f64 * 0.7);
                assert!(v.abs() <= 1.0, "eval_3d out of range: {}", v);
                zi += 1;
            }
            yi += 1;
        }
        xi += 1;
    }
}

#[test]
fn eval_4d_stays_bounded_on_grid() {
    let noise = OpenSimplexNoise::new(Some(1234567));
    let mut xi = -8i64;
    while xi <= 8 {
        let mut yi = -8i64;
        while yi <= 8 {
            let mut zi = -8i64;
            while zi <= 8 {
                let mut wi = -4i64;
                while wi <= 4 {
                    let v = eval_4d_with(
                        &noise,
                        xi as f64 * 0.6,
                        yi as f64 * 0.6,
                        zi as f64 * 0.6,
                        wi as f64 * 0.6,
                    );
                    assert!(v.abs() <= 1.0, "eval_4d out of range: {}", v);
                    wi += 1;
                }
                zi += 1;
            }
            yi += 1;
        }
        xi += 1;
    }
}

#[test]
fn eval_2d_is_continuous_in_small_steps() {
    let noise = OpenSimplexNoise::new(Some(9));
    let bases: [(f64, f64); 6] =
        [(0.0, 0.0), (0.9999, 0.5), (1.0001, 0.5), (-3.7, 2.2), (10.51, -10.43), (0.3333, 0.6667)];
    let eps = 1e-5;
    for (x, y) in bases {
        let v = eval_2d_with(&noise, x, y);
        let vx = eval_2d_with(&noise, x + eps, y);
        let vy = eval_2d_with(&noise, x, y + eps);
        assert!((vx - v).abs() < 1e-3, "jump in x at ({}, {})", x, y);
        assert!((vy - v).abs() < 1e-3, "jump in y at ({}, {})", x, y);
    }
}

#[test]
fn eval_2d_is_continuous_along_path() {
    let noise = OpenSimplexNoise::new(Some(-77));
    let mut previous = eval_2d_with(&noise, -5.0, 3.1);
    let mut i = 1i64;
    while i <= 2000 {
        let x = -5.0 + i as f64 * 0.005;
        let v = eval_2d_with(&noise, x, 3.1);
        assert!((v - previous).abs() < 0.05, "discontinuity near x = {}", x);
        previous = v;
        i += 1;
    }
}

#[test]
fn eval_3d_differs_from_eval_2d() {
    let noise = OpenSimplexNoise::new(Some(0));
    let mut differing = 0;
    let mut total = 0;
    let mut i = 0i64;
    while i < 100 {
        let x = i as f64 * 0.173 - 8.0;
        let y = i as f64 * 0.091 + 1.5;
        if eval_3d_with(&noise, x, y, 0.0) != eval_2d_with(&noise, x, y) {
            differing += 1;
        }
        total += 1;
        i += 1;
    }
    assert!(differing >= total - 5, "2D and 3D evaluators nearly coincide: {}/{}", differing, total);
}
