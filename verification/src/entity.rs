//! The polymorphic entity world: one tagged variant per entity kind, with
//! per-kind decode-patch-apply logic in the submodules.
pub mod buildings;
pub mod player;
pub mod projectile;
pub mod shield;
pub mod weapon;

use crate::collide::{Vec3i, BUILDING_HALF_X, BUILDING_HALF_Y, BUILDING_HALF_Z, PROJECTILE_HALF};
use vstd::prelude::*;

verus! {

/// The kind tag of an entity slot.
#[derive(Clone, Copy, Debug, PartialEq, Eq, Structural)]
pub enum EntityClass {
    Projectile,
    Sentry,
    Dispenser,
    Teleporter,
    Weapon,
    Shield,
    Player,
    PlayerResource,
    Unknown,
}

/// An entity the analyzer keeps no state for; the slot stays occupied so a
/// later update still finds it.
#[derive(Clone, Copy, Debug, PartialEq, Eq, Structural)]
pub struct Unknown {
}

/// One slot's entity: exactly one typed state per occupied slot.
#[derive(Debug)]
pub enum Entity {
    Player(player::Player),
    Weapon(weapon::Weapon),
    Projectile(projectile::Projectile),
    Sentry(buildings::Sentry),
    Dispenser(buildings::Dispenser),
    Teleporter(buildings::Teleporter),
    Shield(shield::Shield),
    Unknown(Unknown),
}

/// The kind tag of an entity.
pub open spec fn spec_entity_class(e: &Entity) -> EntityClass {
    match e {
        Entity::Player(_) => EntityClass::Player,
        Entity::Weapon(_) => EntityClass::Weapon,
        Entity::Projectile(_) => EntityClass::Projectile,
        Entity::Sentry(_) => EntityClass::Sentry,
        Entity::Dispenser(_) => EntityClass::Dispenser,
        Entity::Teleporter(_) => EntityClass::Teleporter,
        Entity::Shield(_) => EntityClass::Shield,
        Entity::Unknown(_) => EntityClass::Unknown,
    }
}

/// The cross-reference handle an entity carries, where its kind has one.
pub open spec fn spec_entity_handle(e: &Entity) -> Option<u32> {
    match e {
        Entity::Player(p) => Some(p.handle),
        Entity::Weapon(w) => Some(w.handle),
        Entity::Shield(s) => Some(s.handle),
        _ => None,
    }
}

/// The owner handle an entity carries, where its kind has one.
pub open spec fn spec_entity_owner(e: &Entity) -> Option<u32> {
    match e {
        Entity::Weapon(w) => Some(w.owner),
        Entity::Projectile(p) => Some(p.owner),
        Entity::Sentry(s) => Some(s.owner),
        Entity::Dispenser(d) => Some(d.owner),
        Entity::Teleporter(t) => Some(t.owner),
        Entity::Shield(s) => Some(s.owner),
        _ => None,
    }
}

/// The collision footprint of an entity: its centre and half-extents, for
/// the kinds that take part in collision queries.
pub open spec fn spec_entity_collider(e: &Entity) -> Option<(Vec3i, (i64, i64, i64))> {
    match e {
        Entity::Sentry(s) => Some(
            (s.origin, (BUILDING_HALF_X, BUILDING_HALF_Y, BUILDING_HALF_Z)),
        ),
        Entity::Dispenser(d) => Some(
            (d.origin, (BUILDING_HALF_X, BUILDING_HALF_Y, BUILDING_HALF_Z)),
        ),
        Entity::Teleporter(t) => Some(
            (t.origin, (BUILDING_HALF_X, BUILDING_HALF_Y, BUILDING_HALF_Z)),
        ),
        Entity::Projectile(p) => Some((p.origin, (PROJECTILE_HALF, PROJECTILE_HALF, PROJECTILE_HALF))),
        _ => None,
    }
}

impl Entity {
    /// The kind tag of this entity.
    pub fn class(&self) -> (r: EntityClass)
        ensures
            r == spec_entity_class(self),
    {
        match self {
            Entity::Player(_) => EntityClass::Player,
            Entity::Weapon(_) => EntityClass::Weapon,
            Entity::Projectile(_) => EntityClass::Projectile,
            Entity::Sentry(_) => EntityClass::Sentry,
            Entity::Dispenser(_) => EntityClass::Dispenser,
            Entity::Teleporter(_) => EntityClass::Teleporter,
            Entity::Shield(_) => EntityClass::Shield,
            Entity::Unknown(_) => EntityClass::Unknown,
        }
    }

    /// The cross-reference handle this entity carries, if its kind has one.
    pub fn handle(&self) -> (r: Option<u32>)
        ensures
            r == spec_entity_handle(self),
    {
        match self {
            Entity::Player(p) => Some(p.handle),
            Entity::Weapon(w) => Some(w.handle),
            Entity::Shield(s) => Some(s.handle),
            _ => None,
        }
    }

    /// The owner handle this entity carries, if its kind has one.
    pub fn owner(&self) -> (r: Option<u32>)
        ensures
            r == spec_entity_owner(self),
    {
        match self {
            Entity::Weapon(w) => Some(w.owner),
            Entity::Projectile(p) => Some(p.owner),
            Entity::Sentry(s) => Some(s.owner),
            Entity::Dispenser(d) => Some(d.owner),
            Entity::Teleporter(t) => Some(t.owner),
            Entity::Shield(s) => Some(s.owner),
            _ => None,
        }
    }

    /// The collision footprint of this entity, if its kind has one.
    pub fn collider(&self) -> (r: Option<(Vec3i, (i64, i64, i64))>)
        ensures
            r == spec_entity_collider(self),
    {
        match self {
            Entity::Sentry(s) => Some(
                (s.origin, (BUILDING_HALF_X, BUILDING_HALF_Y, BUILDING_HALF_Z)),
            ),
            Entity::Dispenser(d) => Some(
                (d.origin, (BUILDING_HALF_X, BUILDING_HALF_Y, BUILDING_HALF_Z)),
            ),
            Entity::Teleporter(t) => Some(
                (t.origin, (BUILDING_HALF_X, BUILDING_HALF_Y, BUILDING_HALF_Z)),
            ),
            Entity::Projectile(p) => Some(
                (p.origin, (PROJECTILE_HALF, PROJECTILE_HALF, PROJECTILE_HALF)),
            ),
            _ => None,
        }
    }
}

} // verus!
