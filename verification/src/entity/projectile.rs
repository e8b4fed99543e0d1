//! Projectile entities: birth-time kind resolution from class name and
//! launcher schema item, flight state with a computed velocity, and the
//! swept hit test used when attributing non-blast damage.
use crate::collide::{
    aabb_around, aabb_intersects, clamp_vec3, spec_aabb_around, spec_aabb_intersects,
    spec_clamp_vec3, spec_vec3_add, spec_vec3_bounded, spec_vec3_half, vec3_add, vec3_half, Aabb,
    Vec3i, ARROW_HIT_HALF, COORD_LIMIT, ORB_HIT_HALF,
};
use crate::game::{GrenadeType, Team};
use crate::props::{clamp_u32_from_i64, spec_clamp_u32_from_i64, Prop, PropIds, PropValue};
use crate::game::{spec_team_from, team_from_u8, INVALID_HANDLE};
use vstd::prelude::*;

verus! {

/// The resolved kind of a projectile.
#[derive(Clone, Copy, Debug, PartialEq, Eq, Structural)]
pub enum ProjectileType {
    EnergyRing,
    HealingBolt,
    Rocket,
    Sandman,
    ShortCircuit,
    SentryRocket,
    MadMilk,
    DragonsFuryFire,
    RescueRanger,
    HuntsmanArrow,
    Flare,
    DetonatorFlare,
    ManmelterFlare,
    ScorchShotFlare,
    Cleaver,
    Jarate,
    GasPasser,
    QuickieBomb,
    ScottishResistance,
    StickyBomb,
    StickyBombJumper,
    IronBomber,
    Pipe,
    LochNLoad,
    LooseCannon,
    WrapAssassin,
    CowMangler,
    Unknown,
}

/// True of the sticky-bomb family, which detonates on command.
pub open spec fn spec_is_sticky(kind: ProjectileType) -> bool {
    ||| kind == ProjectileType::StickyBomb
    ||| kind == ProjectileType::StickyBombJumper
    ||| kind == ProjectileType::ScottishResistance
    ||| kind == ProjectileType::QuickieBomb
}

/// True of the sticky-bomb family, which detonates on command.
pub fn is_sticky(kind: ProjectileType) -> (r: bool)
    ensures
        r == spec_is_sticky(kind),
{
    match kind {
        ProjectileType::StickyBomb
        | ProjectileType::StickyBombJumper
        | ProjectileType::ScottishResistance
        | ProjectileType::QuickieBomb => true,
        _ => false,
    }
}

/// True of the arrow family, which hits by contact.
pub open spec fn spec_is_arrow(kind: ProjectileType) -> bool {
    ||| kind == ProjectileType::HealingBolt
    ||| kind == ProjectileType::HuntsmanArrow
    ||| kind == ProjectileType::RescueRanger
}

/// True of the arrow family, which hits by contact.
pub fn is_arrow(kind: ProjectileType) -> (r: bool)
    ensures
        r == spec_is_arrow(kind),
{
    match kind {
        ProjectileType::HealingBolt | ProjectileType::HuntsmanArrow | ProjectileType::RescueRanger
            => true,
        _ => false,
    }
}

/// True of the kinds that damage a player without exploding, so every
/// update of theirs is recorded as a potential hit.
pub open spec fn spec_can_hurt_without_exploding(kind: ProjectileType) -> bool {
    ||| kind == ProjectileType::HuntsmanArrow
    ||| kind == ProjectileType::ShortCircuit
    ||| kind == ProjectileType::EnergyRing
    ||| kind == ProjectileType::ScorchShotFlare
}

/// True of the kinds that damage a player without exploding, so every
/// update of theirs is recorded as a potential hit.
pub fn can_hurt_without_exploding(kind: ProjectileType) -> (r: bool)
    ensures
        r == spec_can_hurt_without_exploding(kind),
{
    match kind {
        ProjectileType::HuntsmanArrow
        | ProjectileType::ShortCircuit
        | ProjectileType::EnergyRing
        | ProjectileType::ScorchShotFlare => true,
        _ => false,
    }
}

/// A projectile in flight.
#[derive(Debug)]
pub struct Projectile {
    pub class_name: String,
    pub launcher_schema_id: Option<u32>,
    pub is_sentry: bool,
    pub origin: Vec3i,
    pub velocity: Vec3i,
    pub original_owner: u32,
    pub owner: u32,
    pub is_reflected: bool,
    pub original_team: Team,
    pub team: Team,
    pub original_launcher_handle: u32,
    pub grenade_type: Option<GrenadeType>,
    pub model_id: Option<u32>,
    pub kind: ProjectileType,
    pub effects: u32,
}

/// All-optional update to a [`Projectile`].
#[derive(Clone, Copy, Debug, PartialEq, Eq, Structural)]
pub struct ProjectilePatch {
    pub origin: Option<Vec3i>,
    pub is_reflected: Option<bool>,
    pub owner: Option<u32>,
    pub original_launcher: Option<u32>,
    pub team: Option<Team>,
    pub grenade_type: Option<GrenadeType>,
    pub model_id: Option<u32>,
    pub effects: Option<u32>,
}

/// The patch with nothing set.
pub open spec fn spec_projectile_patch_empty() -> ProjectilePatch {
    ProjectilePatch {
        origin: None,
        is_reflected: None,
        owner: None,
        original_launcher: None,
        team: None,
        grenade_type: None,
        model_id: None,
        effects: None,
    }
}

/// How one network property changes a pending projectile patch. An owner or
/// launcher handle equal to the invalid sentinel is ignored; the grenade
/// subtype is read only for the pipe-bomb entity class; team values outside
/// the known range are ignored.
pub open spec fn spec_projectile_prop(
    p: ProjectilePatch,
    prop: Prop,
    ids: PropIds,
    is_pipebomb_class: bool,
) -> ProjectilePatch {
    match prop.value {
        PropValue::Vec3(o) => {
            if prop.ident == ids.origin || prop.ident == ids.rocket_origin || prop.ident
                == ids.grenade_origin {
                ProjectilePatch { origin: Some(spec_clamp_vec3(o)), ..p }
            } else {
                p
            }
        },
        PropValue::Int(v) => {
            if prop.ident == ids.rocket_deflected || prop.ident == ids.grenade_deflected {
                ProjectilePatch { is_reflected: Some(v > 0), ..p }
            } else if prop.ident == ids.owner || prop.ident == ids.deflect_owner {
                if crate::game::spec_valid_handle(spec_clamp_u32_from_i64(v)) {
                    ProjectilePatch { owner: Some(spec_clamp_u32_from_i64(v)), ..p }
                } else {
                    p
                }
            } else if prop.ident == ids.original_launcher {
                if crate::game::spec_valid_handle(spec_clamp_u32_from_i64(v)) {
                    ProjectilePatch { original_launcher: Some(spec_clamp_u32_from_i64(v)), ..p }
                } else {
                    p
                }
            } else if prop.ident == ids.team {
                if 0 <= v <= 3 {
                    ProjectilePatch { team: Some(spec_team_from(v as u8)), ..p }
                } else {
                    p
                }
            } else if prop.ident == ids.pipe_type {
                if is_pipebomb_class && 0 <= v <= 3 {
                    ProjectilePatch {
                        grenade_type: Some(crate::game::spec_grenade_type_from(v as u16)),
                        ..p
                    }
                } else {
                    p
                }
            } else if prop.ident == ids.model {
                ProjectilePatch { model_id: Some(spec_clamp_u32_from_i64(v)), ..p }
            } else if prop.ident == ids.effects {
                ProjectilePatch { effects: Some(spec_clamp_u32_from_i64(v)), ..p }
            } else {
                p
            }
        },
        _ => p,
    }
}

/// The patch decoded from a property list, first to last.
pub open spec fn spec_projectile_parse(
    props: Seq<Prop>,
    ids: PropIds,
    is_pipebomb_class: bool,
) -> ProjectilePatch
    decreases props.len(),
{
    if props.len() == 0 {
        spec_projectile_patch_empty()
    } else {
        spec_projectile_prop(
            spec_projectile_parse(props.drop_last(), ids, is_pipebomb_class),
            props.last(),
            ids,
            is_pipebomb_class,
        )
    }
}

impl ProjectilePatch {
    /// The patch with nothing set.
    pub fn empty() -> (r: ProjectilePatch)
        ensures
            r == spec_projectile_patch_empty(),
    {
        ProjectilePatch {
            origin: None,
            is_reflected: None,
            owner: None,
            original_launcher: None,
            team: None,
            grenade_type: None,
            model_id: None,
            effects: None,
        }
    }
}

impl Projectile {
    /// Decodes a projectile update from a property list; exactly
    /// [`spec_projectile_parse`].
    pub fn parse(props: &Vec<Prop>, ids: &PropIds, is_pipebomb_class: bool) -> (patch:
        ProjectilePatch)
        ensures
            patch == spec_projectile_parse(props@, *ids, is_pipebomb_class),
    {
        let mut patch = ProjectilePatch::empty();
        let mut i: usize = 0;
        proof {
            assert(props@.take(0) =~= Seq::<Prop>::empty());
        }
        while i < props.len()
            invariant
                i <= props.len(),
                patch == spec_projectile_parse(props@.take(i as int), *ids, is_pipebomb_class),
            decreases props.len() - i,
        {
            let p = &props[i];
            match &p.value {
                PropValue::Vec3(o) => {
                    if p.ident == ids.origin || p.ident == ids.rocket_origin || p.ident
                        == ids.grenade_origin {
                        patch.origin = Some(clamp_vec3(*o));
                    }
                },
                PropValue::Int(v) => {
                    if p.ident == ids.rocket_deflected || p.ident == ids.grenade_deflected {
                        patch.is_reflected = Some(*v > 0);
                    } else if p.ident == ids.owner || p.ident == ids.deflect_owner {
                        let h = clamp_u32_from_i64(*v);
                        if crate::game::valid_handle(h) {
                            patch.owner = Some(h);
                        }
                    } else if p.ident == ids.original_launcher {
                        let h = clamp_u32_from_i64(*v);
                        if crate::game::valid_handle(h) {
                            patch.original_launcher = Some(h);
                        }
                    } else if p.ident == ids.team {
                        if 0 <= *v && *v <= 3 {
                            patch.team = Some(team_from_u8(*v as u8));
                        }
                    } else if p.ident == ids.pipe_type {
                        if is_pipebomb_class && 0 <= *v && *v <= 3 {
                            patch.grenade_type = Some(crate::game::grenade_type_from_u16(*v as u16));
                        }
                    } else if p.ident == ids.model {
                        patch.model_id = Some(clamp_u32_from_i64(*v));
                    } else if p.ident == ids.effects {
                        patch.effects = Some(clamp_u32_from_i64(*v));
                    }
                },
                _ => {},
            }
            proof {
                assert(props@.take(i + 1).drop_last() =~= props@.take(i as int));
                assert(props@.take(i + 1).last() == props@[i as int]);
            }
            i = i + 1;
        }
        proof {
            assert(props@.take(props@.len() as int) =~= props@);
        }
        patch
    }

    /// Applies a patch: present fields override, absent fields are retained.
    /// A new origin also sets the velocity to the difference of consecutive
    /// origins.
    #[verifier::rlimit(100)]
    #[verifier::spinoff_prover]
    pub fn apply(&mut self, patch: ProjectilePatch)
        requires
            spec_vec3_bounded(old(self).origin),
        ensures
            *final(self) == spec_projectile_apply(*old(self), patch),
            final(self).class_name == old(self).class_name,
            final(self).launcher_schema_id == old(self).launcher_schema_id,
            final(self).is_sentry == old(self).is_sentry,
            final(self).original_owner == old(self).original_owner,
            final(self).original_team == old(self).original_team,
            final(self).kind == old(self).kind,
            final(self).origin == (match patch.origin {
                Some(o) => spec_clamp_vec3(o),
                None => old(self).origin,
            }),
            spec_vec3_bounded(final(self).origin),
            (match patch.origin {
                Some(_) => -2 * COORD_LIMIT <= final(self).velocity.x <= 2 * COORD_LIMIT && -2
                    * COORD_LIMIT <= final(self).velocity.y <= 2 * COORD_LIMIT && -2 * COORD_LIMIT
                    <= final(self).velocity.z <= 2 * COORD_LIMIT,
                None => final(self).velocity == old(self).velocity,
            }),
            final(self).velocity == (match patch.origin {
                Some(o) => spec_vec3_sub_of(o, old(self).origin),
                None => old(self).velocity,
            }),
            final(self).is_reflected == (match patch.is_reflected {
                Some(v) => v,
                None => old(self).is_reflected,
            }),
            final(self).owner == (match patch.owner {
                Some(v) => v,
                None => old(self).owner,
            }),
            final(self).original_launcher_handle == (match patch.original_launcher {
                Some(v) => v,
                None => old(self).original_launcher_handle,
            }),
            final(self).team == (match patch.team {
                Some(v) => v,
                None => old(self).team,
            }),
            final(self).grenade_type == (match patch.grenade_type {
                Some(v) => Some(v),
                None => old(self).grenade_type,
            }),
            final(self).model_id == (match patch.model_id {
                Some(v) => Some(v),
                None => old(self).model_id,
            }),
            final(self).effects == (match patch.effects {
                Some(v) => v,
                None => old(self).effects,
            }),
    {
        if let Some(o) = patch.origin {
            let o2 = clamp_vec3(o);
            self.velocity = crate::collide::vec3_sub(o2, self.origin);
            self.origin = o2;
        }
        if let Some(v) = patch.is_reflected {
            self.is_reflected = v;
        }
        if let Some(v) = patch.owner {
            self.owner = v;
        }
        if let Some(v) = patch.original_launcher {
            self.original_launcher_handle = v;
        }
        if let Some(v) = patch.team {
            self.team = v;
        }
        if let Some(v) = patch.grenade_type {
            self.grenade_type = Some(v);
        }
        if let Some(v) = patch.model_id {
            self.model_id = Some(v);
        }
        if let Some(v) = patch.effects {
            self.effects = v;
        }
    }
}

/// The projectile after a patch: present fields override, a new origin
/// also sets the velocity to the difference of consecutive origins.
pub open spec fn spec_projectile_apply(s: Projectile, p: ProjectilePatch) -> Projectile {
    Projectile {
        origin: match p.origin {
            Some(o) => spec_clamp_vec3(o),
            None => s.origin,
        },
        velocity: match p.origin {
            Some(o) => spec_vec3_sub_of(o, s.origin),
            None => s.velocity,
        },
        is_reflected: match p.is_reflected {
            Some(v) => v,
            None => s.is_reflected,
        },
        owner: match p.owner {
            Some(v) => v,
            None => s.owner,
        },
        original_launcher_handle: match p.original_launcher {
            Some(v) => v,
            None => s.original_launcher_handle,
        },
        team: match p.team {
            Some(v) => v,
            None => s.team,
        },
        grenade_type: match p.grenade_type {
            Some(v) => Some(v),
            None => s.grenade_type,
        },
        model_id: match p.model_id {
            Some(v) => Some(v),
            None => s.model_id,
        },
        effects: match p.effects {
            Some(v) => v,
            None => s.effects,
        },
        ..s
    }
}

/// The clamped difference `a - b`, the velocity rule for a new origin.
pub open spec fn spec_vec3_sub_of(a: Vec3i, b: Vec3i) -> Vec3i {
    crate::collide::spec_vec3_sub(spec_clamp_vec3(a), b)
}

/// The swept hit volume test: arrow-like and orb-like projectiles sweep a
/// kind-sized box from the origin over half and full velocity; everything
/// else checks a blast cube of the given radius at the origin.
pub open spec fn spec_check_hit(
    kind: ProjectileType,
    origin: Vec3i,
    velocity: Vec3i,
    radius: i64,
    volume: Aabb,
) -> bool {
    if spec_is_arrow(kind) || kind == ProjectileType::ShortCircuit || kind
        == ProjectileType::EnergyRing {
        let half = if spec_is_arrow(kind) {
            ARROW_HIT_HALF
        } else {
            ORB_HIT_HALF
        };
        ||| spec_aabb_intersects(
            spec_aabb_around(origin, half as int, half as int, half as int),
            volume,
        )
        ||| spec_aabb_intersects(
            spec_aabb_around(
                spec_vec3_add(origin, spec_vec3_half(velocity)),
                half as int,
                half as int,
                half as int,
            ),
            volume,
        )
        ||| spec_aabb_intersects(
            spec_aabb_around(
                spec_vec3_add(origin, velocity),
                half as int,
                half as int,
                half as int,
            ),
            volume,
        )
    } else {
        spec_aabb_intersects(
            spec_aabb_around(origin, radius as int, radius as int, radius as int),
            volume,
        )
    }
}

impl Projectile {
    /// Whether this projectile's swept volume overlaps the given box, with
    /// the blast radius already resolved from its entity class; exactly
    /// [`spec_check_hit`].
    pub fn check_hit(&self, radius: i64, volume: &Aabb) -> (r: bool)
        requires
            spec_vec3_bounded(self.origin),
            -2 * COORD_LIMIT <= self.velocity.x <= 2 * COORD_LIMIT,
            -2 * COORD_LIMIT <= self.velocity.y <= 2 * COORD_LIMIT,
            -2 * COORD_LIMIT <= self.velocity.z <= 2 * COORD_LIMIT,
            0 <= radius <= crate::collide::HALF_LIMIT,
        ensures
            r == spec_check_hit(self.kind, self.origin, self.velocity, radius, *volume),
    {
        let arrow = is_arrow(self.kind);
        if arrow || self.kind == ProjectileType::ShortCircuit || self.kind
            == ProjectileType::EnergyRing {
            let half: i64 = if arrow {
                ARROW_HIT_HALF
            } else {
                ORB_HIT_HALF
            };
            let b0 = aabb_around(self.origin, half, half, half);
            let mid = vec3_add(self.origin, vec3_half(self.velocity));
            let b1 = aabb_around(mid, half, half, half);
            let end = vec3_add(self.origin, self.velocity);
            let b2 = aabb_around(end, half, half, half);
            aabb_intersects(&b0, volume) || aabb_intersects(&b1, volume) || aabb_intersects(
                &b2,
                volume,
            )
        } else {
            let b = aabb_around(self.origin, radius, radius, radius);
            aabb_intersects(&b, volume)
        }
    }
}

impl Projectile {
    /// A copy of this projectile whose fields equal this one's.
    pub fn duplicate(&self) -> (r: Projectile)
        ensures
            r == *self,
    {
        Projectile {
            class_name: self.class_name.clone(),
            launcher_schema_id: self.launcher_schema_id,
            is_sentry: self.is_sentry,
            origin: self.origin,
            velocity: self.velocity,
            original_owner: self.original_owner,
            owner: self.owner,
            is_reflected: self.is_reflected,
            original_team: self.original_team,
            team: self.team,
            original_launcher_handle: self.original_launcher_handle,
            grenade_type: self.grenade_type,
            model_id: self.model_id,
            kind: self.kind,
            effects: self.effects,
        }
    }
}

/// Every handle a decoded projectile patch carries is a valid handle, and
/// every origin it carries is bounded.
pub proof fn lemma_projectile_patch_valid(props: Seq<Prop>, ids: PropIds, is_pipebomb_class: bool)
    ensures
        ({
            let p = spec_projectile_parse(props, ids, is_pipebomb_class);
            &&& (match p.owner {
                Some(o) => crate::game::spec_valid_handle(o),
                None => true,
            })
            &&& (match p.original_launcher {
                Some(l) => crate::game::spec_valid_handle(l),
                None => true,
            })
            &&& (match p.origin {
                Some(o) => spec_vec3_bounded(o),
                None => true,
            })
        }),
    decreases props.len(),
{
    if props.len() > 0 {
        lemma_projectile_patch_valid(props.drop_last(), ids, is_pipebomb_class);
    }
}

} // verus!
