//! Integer geometry for the collision checks: world positions in thousandths
//! of a map unit, axis-aligned boxes around entities, and overlap tests.
use vstd::prelude::*;

verus! {

/// Largest coordinate magnitude the analyzer stores, in thousandths of a map
/// unit; decoded positions are clamped to this range so that box arithmetic
/// stays far from the integer limits.
pub const COORD_LIMIT: i64 = 1_000_000_000;

/// Largest half-extent of any collision box, in thousandths of a unit.
pub const HALF_LIMIT: i64 = 1_000_000;

/// A world position or displacement, in thousandths of a map unit.
#[derive(Clone, Copy, Debug, PartialEq, Eq, Structural)]
pub struct Vec3i {
    pub x: i64,
    pub y: i64,
    pub z: i64,
}

/// The origin point.
pub open spec fn spec_vec3_zero() -> Vec3i {
    Vec3i { x: 0, y: 0, z: 0 }
}

impl Vec3i {
    /// The origin point.
    pub fn zero() -> (r: Vec3i)
        ensures
            r == spec_vec3_zero(),
    {
        Vec3i { x: 0, y: 0, z: 0 }
    }
}

/// True when every coordinate is within the stored range.
pub open spec fn spec_vec3_bounded(v: Vec3i) -> bool {
    &&& -COORD_LIMIT <= v.x <= COORD_LIMIT
    &&& -COORD_LIMIT <= v.y <= COORD_LIMIT
    &&& -COORD_LIMIT <= v.z <= COORD_LIMIT
}

/// `x` clamped into the stored coordinate range.
pub open spec fn spec_clamp_coord(x: i64) -> i64 {
    if x < -COORD_LIMIT {
        (-COORD_LIMIT) as i64
    } else if x > COORD_LIMIT {
        COORD_LIMIT
    } else {
        x
    }
}

/// Executable twin of [`spec_clamp_coord`].
pub fn clamp_coord(x: i64) -> (r: i64)
    ensures
        r == spec_clamp_coord(x),
        -COORD_LIMIT <= r <= COORD_LIMIT,
{
    if x < -COORD_LIMIT {
        -COORD_LIMIT
    } else if x > COORD_LIMIT {
        COORD_LIMIT
    } else {
        x
    }
}

/// Clamps every coordinate into the stored range.
pub open spec fn spec_clamp_vec3(v: Vec3i) -> Vec3i {
    Vec3i { x: spec_clamp_coord(v.x), y: spec_clamp_coord(v.y), z: spec_clamp_coord(v.z) }
}

/// Executable twin of [`spec_clamp_vec3`].
pub fn clamp_vec3(v: Vec3i) -> (r: Vec3i)
    ensures
        r == spec_clamp_vec3(v),
        spec_vec3_bounded(r),
{
    Vec3i { x: clamp_coord(v.x), y: clamp_coord(v.y), z: clamp_coord(v.z) }
}

/// An axis-aligned box, inclusive on both ends.
#[derive(Clone, Copy, Debug, PartialEq, Eq, Structural)]
pub struct Aabb {
    pub min: Vec3i,
    pub max: Vec3i,
}

/// The box of half-extents `(hx, hy, hz)` centred on `c`.
pub open spec fn spec_aabb_around(c: Vec3i, hx: int, hy: int, hz: int) -> Aabb {
    Aabb {
        min: Vec3i { x: (c.x - hx) as i64, y: (c.y - hy) as i64, z: (c.z - hz) as i64 },
        max: Vec3i { x: (c.x + hx) as i64, y: (c.y + hy) as i64, z: (c.z + hz) as i64 },
    }
}

/// Executable twin of [`spec_aabb_around`]; the bounds keep the arithmetic
/// exact.
pub fn aabb_around(c: Vec3i, hx: i64, hy: i64, hz: i64) -> (r: Aabb)
    requires
        -4 * COORD_LIMIT <= c.x <= 4 * COORD_LIMIT,
        -4 * COORD_LIMIT <= c.y <= 4 * COORD_LIMIT,
        -4 * COORD_LIMIT <= c.z <= 4 * COORD_LIMIT,
        0 <= hx <= HALF_LIMIT,
        0 <= hy <= HALF_LIMIT,
        0 <= hz <= HALF_LIMIT,
    ensures
        r == spec_aabb_around(c, hx as int, hy as int, hz as int),
{
    Aabb {
        min: Vec3i { x: c.x - hx, y: c.y - hy, z: c.z - hz },
        max: Vec3i { x: c.x + hx, y: c.y + hy, z: c.z + hz },
    }
}

/// True when the two boxes overlap, boundaries included.
pub open spec fn spec_aabb_intersects(a: Aabb, b: Aabb) -> bool {
    &&& a.min.x <= b.max.x && b.min.x <= a.max.x
    &&& a.min.y <= b.max.y && b.min.y <= a.max.y
    &&& a.min.z <= b.max.z && b.min.z <= a.max.z
}

/// Executable twin of [`spec_aabb_intersects`].
pub fn aabb_intersects(a: &Aabb, b: &Aabb) -> (r: bool)
    ensures
        r == spec_aabb_intersects(*a, *b),
{
    a.min.x <= b.max.x && b.min.x <= a.max.x && a.min.y <= b.max.y && b.min.y <= a.max.y
        && a.min.z <= b.max.z && b.min.z <= a.max.z
}

/// True when the point lies in the box, boundaries included.
pub open spec fn spec_aabb_contains(a: Aabb, p: Vec3i) -> bool {
    &&& a.min.x <= p.x <= a.max.x
    &&& a.min.y <= p.y <= a.max.y
    &&& a.min.z <= p.z <= a.max.z
}

/// Executable twin of [`spec_aabb_contains`].
pub fn aabb_contains(a: &Aabb, p: Vec3i) -> (r: bool)
    ensures
        r == spec_aabb_contains(*a, p),
{
    a.min.x <= p.x && p.x <= a.max.x && a.min.y <= p.y && p.y <= a.max.y && a.min.z <= p.z
        && p.z <= a.max.z
}

/// Componentwise sum.
pub open spec fn spec_vec3_add(a: Vec3i, b: Vec3i) -> Vec3i {
    Vec3i { x: (a.x + b.x) as i64, y: (a.y + b.y) as i64, z: (a.z + b.z) as i64 }
}

/// Executable twin of [`spec_vec3_add`] under bounds that keep it exact.
pub fn vec3_add(a: Vec3i, b: Vec3i) -> (r: Vec3i)
    requires
        -2 * COORD_LIMIT <= a.x <= 2 * COORD_LIMIT,
        -2 * COORD_LIMIT <= a.y <= 2 * COORD_LIMIT,
        -2 * COORD_LIMIT <= a.z <= 2 * COORD_LIMIT,
        -2 * COORD_LIMIT <= b.x <= 2 * COORD_LIMIT,
        -2 * COORD_LIMIT <= b.y <= 2 * COORD_LIMIT,
        -2 * COORD_LIMIT <= b.z <= 2 * COORD_LIMIT,
    ensures
        r == spec_vec3_add(a, b),
{
    Vec3i { x: a.x + b.x, y: a.y + b.y, z: a.z + b.z }
}

/// Componentwise difference.
pub open spec fn spec_vec3_sub(a: Vec3i, b: Vec3i) -> Vec3i {
    Vec3i { x: (a.x - b.x) as i64, y: (a.y - b.y) as i64, z: (a.z - b.z) as i64 }
}

/// Executable twin of [`spec_vec3_sub`] under bounds that keep it exact.
pub fn vec3_sub(a: Vec3i, b: Vec3i) -> (r: Vec3i)
    requires
        spec_vec3_bounded(a),
        spec_vec3_bounded(b),
    ensures
        r == spec_vec3_sub(a, b),
{
    Vec3i { x: a.x - b.x, y: a.y - b.y, z: a.z - b.z }
}

/// Half of `d`, rounded toward zero.
pub open spec fn spec_half_toward_zero(d: int) -> int {
    if d >= 0 {
        d / 2
    } else {
        -((-d) / 2)
    }
}

/// Executable twin of [`spec_half_toward_zero`] for bounded displacements.
pub fn half_toward_zero(d: i64) -> (r: i64)
    requires
        -4 * COORD_LIMIT <= d <= 4 * COORD_LIMIT,
    ensures
        r == spec_half_toward_zero(d as int),
{
    if d >= 0 {
        let h: u64 = (d as u64) / 2;
        h as i64
    } else {
        let h: u64 = ((-d) as u64) / 2;
        -(h as i64)
    }
}

/// Half of a displacement, componentwise toward zero.
pub open spec fn spec_vec3_half(v: Vec3i) -> Vec3i {
    Vec3i {
        x: spec_half_toward_zero(v.x as int) as i64,
        y: spec_half_toward_zero(v.y as int) as i64,
        z: spec_half_toward_zero(v.z as int) as i64,
    }
}

/// Executable twin of [`spec_vec3_half`].
pub fn vec3_half(v: Vec3i) -> (r: Vec3i)
    requires
        -4 * COORD_LIMIT <= v.x <= 4 * COORD_LIMIT,
        -4 * COORD_LIMIT <= v.y <= 4 * COORD_LIMIT,
        -4 * COORD_LIMIT <= v.z <= 4 * COORD_LIMIT,
    ensures
        r == spec_vec3_half(v),
{
    Vec3i { x: half_toward_zero(v.x), y: half_toward_zero(v.y), z: half_toward_zero(v.z) }
}

/// Half-extent of a player's hit box along x, in thousandths of a unit.
pub const PLAYER_HALF_X: i64 = 49_000;

/// Half-extent of a player's hit box along y, in thousandths of a unit.
pub const PLAYER_HALF_Y: i64 = 49_000;

/// Half-extent of a player's hit box along z, in thousandths of a unit.
pub const PLAYER_HALF_Z: i64 = 83_000;

/// Half-extent of the box kept for sentries, dispensers and teleporters.
pub const BUILDING_HALF_X: i64 = 49_000;

/// Half-extent of the box kept for sentries, dispensers and teleporters.
pub const BUILDING_HALF_Y: i64 = 49_000;

/// Half-extent of the box kept for sentries, dispensers and teleporters.
pub const BUILDING_HALF_Z: i64 = 83_000;

/// Half-extent of the box kept for a projectile in flight.
pub const PROJECTILE_HALF: i64 = 10_000;

/// Half-extent of the swept hit box of an arrow-like projectile.
pub const ARROW_HIT_HALF: i64 = 2_000;

/// Half-extent of the swept hit box of an energy orb or ring.
pub const ORB_HIT_HALF: i64 = 100_000;

/// The player hit box centred on `origin`.
pub open spec fn spec_player_box(origin: Vec3i) -> Aabb {
    spec_aabb_around(origin, PLAYER_HALF_X as int, PLAYER_HALF_Y as int, PLAYER_HALF_Z as int)
}

/// Executable twin of [`spec_player_box`].
pub fn player_box(origin: Vec3i) -> (r: Aabb)
    requires
        spec_vec3_bounded(origin),
    ensures
        r == spec_player_box(origin),
{
    aabb_around(origin, PLAYER_HALF_X, PLAYER_HALF_Y, PLAYER_HALF_Z)
}

} // verus!
