//! Engineer buildings: sentries, dispensers and teleporters share one decode
//! shape — origin, builder handle, upgrade level, and for sentries the
//! mini-sentry detection by maximum health.
use crate::collide::{clamp_vec3, spec_clamp_vec3, Vec3i};
use crate::props::{clamp_u32_from_i64, spec_clamp_u32_from_i64, Prop, PropIds, PropValue};
use vstd::prelude::*;

verus! {

/// A sentry gun.
#[derive(Clone, Copy, Debug, PartialEq, Eq, Structural)]
pub struct Sentry {
    pub origin: Vec3i,
    pub owner: u32,
    pub owner_entity: u32,
    pub level: u32,
    pub is_mini: bool,
}

/// A dispenser.
#[derive(Clone, Copy, Debug, PartialEq, Eq, Structural)]
pub struct Dispenser {
    pub origin: Vec3i,
    pub owner: u32,
    pub owner_entity: u32,
    pub level: u32,
}

/// A teleporter end.
#[derive(Clone, Copy, Debug, PartialEq, Eq, Structural)]
pub struct Teleporter {
    pub origin: Vec3i,
    pub owner: u32,
    pub owner_entity: u32,
    pub level: u32,
}

/// All-optional update to a building; `is_mini` is decoded for sentries and
/// ignored by the other kinds.
#[derive(Clone, Copy, Debug, PartialEq, Eq, Structural)]
pub struct BuildingPatch {
    pub origin: Option<Vec3i>,
    pub owner: Option<u32>,
    pub level: Option<u32>,
    pub is_mini: Option<bool>,
}

/// The patch with nothing set.
pub open spec fn spec_building_patch_empty() -> BuildingPatch {
    BuildingPatch { origin: None, owner: None, level: None, is_mini: None }
}

/// How one network property changes a pending building patch; a maximum
/// health of exactly 100 marks a mini sentry.
pub open spec fn spec_building_prop(p: BuildingPatch, prop: Prop, ids: PropIds) -> BuildingPatch {
    match prop.value {
        PropValue::Vec3(o) => {
            if prop.ident == ids.origin {
                BuildingPatch { origin: Some(spec_clamp_vec3(o)), ..p }
            } else {
                p
            }
        },
        PropValue::Int(v) => {
            if prop.ident == ids.builder {
                BuildingPatch { owner: Some(spec_clamp_u32_from_i64(v)), ..p }
            } else if prop.ident == ids.upgrade_level {
                BuildingPatch { level: Some(spec_clamp_u32_from_i64(v)), ..p }
            } else if prop.ident == ids.object_max_health {
                BuildingPatch { is_mini: Some(v == 100), ..p }
            } else {
                p
            }
        },
        _ => p,
    }
}

/// The patch decoded from a property list, first to last.
pub open spec fn spec_building_parse(props: Seq<Prop>, ids: PropIds) -> BuildingPatch
    decreases props.len(),
{
    if props.len() == 0 {
        spec_building_patch_empty()
    } else {
        spec_building_prop(spec_building_parse(props.drop_last(), ids), props.last(), ids)
    }
}

impl BuildingPatch {
    /// The patch with nothing set.
    pub fn empty() -> (r: BuildingPatch)
        ensures
            r == spec_building_patch_empty(),
    {
        BuildingPatch { origin: None, owner: None, level: None, is_mini: None }
    }

    /// Decodes a building update from a property list; exactly
    /// [`spec_building_parse`].
    pub fn parse(props: &Vec<Prop>, ids: &PropIds) -> (patch: BuildingPatch)
        ensures
            patch == spec_building_parse(props@, *ids),
    {
        let mut patch = BuildingPatch::empty();
        let mut i: usize = 0;
        proof {
            assert(props@.take(0) =~= Seq::<Prop>::empty());
        }
        while i < props.len()
            invariant
                i <= props.len(),
                patch == spec_building_parse(props@.take(i as int), *ids),
            decreases props.len() - i,
        {
            let p = &props[i];
            match &p.value {
                PropValue::Vec3(o) => {
                    if p.ident == ids.origin {
                        patch.origin = Some(clamp_vec3(*o));
                    }
                },
                PropValue::Int(v) => {
                    if p.ident == ids.builder {
                        patch.owner = Some(clamp_u32_from_i64(*v));
                    } else if p.ident == ids.upgrade_level {
                        patch.level = Some(clamp_u32_from_i64(*v));
                    } else if p.ident == ids.object_max_health {
                        patch.is_mini = Some(*v == 100);
                    }
                },
                _ => {},
            }
            proof {
                assert(props@.take(i + 1).drop_last() =~= props@.take(i as int));
                assert(props@.take(i + 1).last() == props@[i as int]);
            }
            i = i + 1;
        }
        proof {
            assert(props@.take(props@.len() as int) =~= props@);
        }
        patch
    }
}

/// A sentry after a patch and a resolved builder entity.
pub open spec fn spec_sentry_apply(s: Sentry, p: BuildingPatch, oe: Option<u32>) -> Sentry {
    Sentry {
        origin: match p.origin {
            Some(v) => v,
            None => s.origin,
        },
        owner: match p.owner {
            Some(v) => v,
            None => s.owner,
        },
        owner_entity: match oe {
            Some(v) => v,
            None => s.owner_entity,
        },
        level: match p.level {
            Some(v) => v,
            None => s.level,
        },
        is_mini: match p.is_mini {
            Some(v) => v,
            None => s.is_mini,
        },
    }
}

/// A dispenser after a patch and a resolved builder entity.
pub open spec fn spec_dispenser_apply(s: Dispenser, p: BuildingPatch, oe: Option<u32>) -> Dispenser {
    Dispenser {
        origin: match p.origin {
            Some(v) => v,
            None => s.origin,
        },
        owner: match p.owner {
            Some(v) => v,
            None => s.owner,
        },
        owner_entity: match oe {
            Some(v) => v,
            None => s.owner_entity,
        },
        level: match p.level {
            Some(v) => v,
            None => s.level,
        },
    }
}

/// A teleporter after a patch and a resolved builder entity.
pub open spec fn spec_teleporter_apply(
    s: Teleporter,
    p: BuildingPatch,
    oe: Option<u32>,
) -> Teleporter {
    Teleporter {
        origin: match p.origin {
            Some(v) => v,
            None => s.origin,
        },
        owner: match p.owner {
            Some(v) => v,
            None => s.owner,
        },
        owner_entity: match oe {
            Some(v) => v,
            None => s.owner_entity,
        },
        level: match p.level {
            Some(v) => v,
            None => s.level,
        },
    }
}

impl Sentry {
    /// Applies a patch: present fields override, absent fields are retained;
    /// the resolved builder entity is passed alongside.
    pub fn apply(&mut self, patch: BuildingPatch, owner_entity: Option<u32>)
        ensures
            *final(self) == spec_sentry_apply(*old(self), patch, owner_entity),
            final(self).origin == (match patch.origin {
                Some(v) => v,
                None => old(self).origin,
            }),
            final(self).owner == (match patch.owner {
                Some(v) => v,
                None => old(self).owner,
            }),
            final(self).level == (match patch.level {
                Some(v) => v,
                None => old(self).level,
            }),
            final(self).is_mini == (match patch.is_mini {
                Some(v) => v,
                None => old(self).is_mini,
            }),
            final(self).owner_entity == (match owner_entity {
                Some(v) => v,
                None => old(self).owner_entity,
            }),
    {
        if let Some(v) = patch.origin {
            self.origin = v;
        }
        if let Some(v) = patch.owner {
            self.owner = v;
        }
        if let Some(v) = patch.level {
            self.level = v;
        }
        if let Some(v) = patch.is_mini {
            self.is_mini = v;
        }
        if let Some(v) = owner_entity {
            self.owner_entity = v;
        }
    }
}

impl Dispenser {
    /// Applies a patch, as [`Sentry::apply`] does, without mini detection.
    pub fn apply(&mut self, patch: BuildingPatch, owner_entity: Option<u32>)
        ensures
            *final(self) == spec_dispenser_apply(*old(self), patch, owner_entity),
            final(self).origin == (match patch.origin {
                Some(v) => v,
                None => old(self).origin,
            }),
            final(self).owner == (match patch.owner {
                Some(v) => v,
                None => old(self).owner,
            }),
            final(self).level == (match patch.level {
                Some(v) => v,
                None => old(self).level,
            }),
            final(self).owner_entity == (match owner_entity {
                Some(v) => v,
                None => old(self).owner_entity,
            }),
    {
        if let Some(v) = patch.origin {
            self.origin = v;
        }
        if let Some(v) = patch.owner {
            self.owner = v;
        }
        if let Some(v) = patch.level {
            self.level = v;
        }
        if let Some(v) = owner_entity {
            self.owner_entity = v;
        }
    }
}

impl Teleporter {
    /// Applies a patch, as [`Sentry::apply`] does, without mini detection.
    pub fn apply(&mut self, patch: BuildingPatch, owner_entity: Option<u32>)
        ensures
            *final(self) == spec_teleporter_apply(*old(self), patch, owner_entity),
            final(self).origin == (match patch.origin {
                Some(v) => v,
                None => old(self).origin,
            }),
            final(self).owner == (match patch.owner {
                Some(v) => v,
                None => old(self).owner,
            }),
            final(self).level == (match patch.level {
                Some(v) => v,
                None => old(self).level,
            }),
            final(self).owner_entity == (match owner_entity {
                Some(v) => v,
                None => old(self).owner_entity,
            }),
    {
        if let Some(v) = patch.origin {
            self.origin = v;
        }
        if let Some(v) = patch.owner {
            self.owner = v;
        }
        if let Some(v) = patch.level {
            self.level = v;
        }
        if let Some(v) = owner_entity {
            self.owner_entity = v;
        }
    }
}

/// Every origin a decoded building patch carries is bounded.
pub proof fn lemma_building_patch_bounded(props: Seq<Prop>, ids: PropIds)
    ensures
        (match spec_building_parse(props, ids).origin {
            Some(o) => crate::collide::spec_vec3_bounded(o),
            None => true,
        }),
    decreases props.len(),
{
    if props.len() > 0 {
        lemma_building_patch_bounded(props.drop_last(), ids);
    }
}

} // verus!
