//! Player entities: the per-player networked state the analyzer keeps —
//! class, team, position, condition words, weapon and cosmetic slots, and
//! the handles used for cross-entity references.
use crate::collide::{clamp_coord, spec_clamp_coord, Vec3i};
use crate::game::{
    class_from_u8, spec_class_from, spec_team_from, team_from_u8, Class, Team, INVALID_HANDLE,
};
use crate::props::{clamp_u32_from_i64, spec_clamp_u32_from_i64, Prop, PropIds, PropValue};
use vstd::prelude::*;

verus! {

/// The value of an optional patch field, or the current value.
pub open spec fn spec_patched<T>(p: Option<T>, cur: T) -> T {
    match p {
        Some(v) => v,
        None => cur,
    }
}

/// Executable twin of [`spec_patched`].
pub fn patched<T: Copy>(p: Option<T>, cur: T) -> (r: T)
    ensures
        r == spec_patched(p, cur),
{
    match p {
        Some(v) => v,
        None => cur,
    }
}

/// A player entity.
#[derive(Clone, Copy, Debug, PartialEq, Eq, Structural)]
pub struct Player {
    pub class: Class,
    pub team: Team,
    pub user_id: u32,
    pub health: u32,
    pub kritzed: bool,
    pub sim_time: u32,
    pub origin: Vec3i,
    pub eye_x: i64,
    pub eye_y: i64,
    pub cond_0: u32,
    pub cond_1: u32,
    pub cond_2: u32,
    pub cond_3: u32,
    pub condition_source: u32,
    pub last_active_weapon_handle: u32,
    pub active_weapon_handle: u32,
    pub wep_0: u32,
    pub wep_1: u32,
    pub wep_2: u32,
    pub wep_3: u32,
    pub wep_4: u32,
    pub wep_5: u32,
    pub wep_6: u32,
    pub cosmetic_0: u32,
    pub cosmetic_1: u32,
    pub cosmetic_2: u32,
    pub cosmetic_3: u32,
    pub cosmetic_4: u32,
    pub cosmetic_5: u32,
    pub cosmetic_6: u32,
    pub cosmetic_7: u32,
    pub handle: u32,
}

/// All-optional update to a [`Player`]; the scoreboard counters, flag word
/// and cosmetic count are routed to the player's summary rather than the
/// entity.
#[derive(Clone, Copy, Debug, PartialEq, Eq, Structural)]
pub struct PlayerPatch {
    pub scoreboard_kills: Option<u32>,
    pub scoreboard_assists: Option<u32>,
    pub scoreboard_deaths: Option<u32>,
    pub flags: Option<u32>,
    pub class: Option<Class>,
    pub team: Option<Team>,
    pub health: Option<u32>,
    pub sim_time: Option<u32>,
    pub origin_x: Option<i64>,
    pub origin_y: Option<i64>,
    pub origin_z: Option<i64>,
    pub eye_x: Option<i64>,
    pub eye_y: Option<i64>,
    pub handle: Option<u32>,
    pub kritzed: Option<bool>,
    pub active_weapon_handle: Option<u32>,
    pub condition_source: Option<u32>,
    pub cond_0: Option<u32>,
    pub cond_1: Option<u32>,
    pub cond_2: Option<u32>,
    pub cond_3: Option<u32>,
    pub wep_0: Option<u32>,
    pub wep_1: Option<u32>,
    pub wep_2: Option<u32>,
    pub wep_3: Option<u32>,
    pub wep_4: Option<u32>,
    pub wep_5: Option<u32>,
    pub wep_6: Option<u32>,
    pub num_cosmetics: Option<u32>,
    pub cosmetic_0: Option<u32>,
    pub cosmetic_1: Option<u32>,
    pub cosmetic_2: Option<u32>,
    pub cosmetic_3: Option<u32>,
    pub cosmetic_4: Option<u32>,
    pub cosmetic_5: Option<u32>,
    pub cosmetic_6: Option<u32>,
    pub cosmetic_7: Option<u32>,
}

/// The patch with nothing set.
pub open spec fn spec_player_patch_empty() -> PlayerPatch {
    PlayerPatch {
        scoreboard_kills: None,
        scoreboard_assists: None,
        scoreboard_deaths: None,
        flags: None,
        class: None,
        team: None,
        health: None,
        sim_time: None,
        origin_x: None,
        origin_y: None,
        origin_z: None,
        eye_x: None,
        eye_y: None,
        handle: None,
        kritzed: None,
        active_weapon_handle: None,
        condition_source: None,
        cond_0: None,
        cond_1: None,
        cond_2: None,
        cond_3: None,
        wep_0: None,
        wep_1: None,
        wep_2: None,
        wep_3: None,
        wep_4: None,
        wep_5: None,
        wep_6: None,
        num_cosmetics: None,
        cosmetic_0: None,
        cosmetic_1: None,
        cosmetic_2: None,
        cosmetic_3: None,
        cosmetic_4: None,
        cosmetic_5: None,
        cosmetic_6: None,
        cosmetic_7: None,
    }
}

/// How one network property changes a pending player patch. Class and team
/// values outside their ranges are ignored; the separate condition word sets
/// the kritz flag only for its two known values; coordinates are clamped.
pub open spec fn spec_player_prop(p: PlayerPatch, prop: Prop, ids: PropIds) -> PlayerPatch {
    match prop.value {
        PropValue::VecXY(x, y) => {
            if prop.ident == ids.origin_xy {
                PlayerPatch {
                    origin_x: Some(spec_clamp_coord(x)),
                    origin_y: Some(spec_clamp_coord(y)),
                    ..p
                }
            } else {
                p
            }
        },
        PropValue::Milli(z) => {
            if prop.ident == ids.origin_z {
                PlayerPatch { origin_z: Some(spec_clamp_coord(z)), ..p }
            } else if prop.ident == ids.eye_x {
                PlayerPatch { eye_x: Some(spec_clamp_coord(z)), ..p }
            } else if prop.ident == ids.eye_y {
                PlayerPatch { eye_y: Some(spec_clamp_coord(z)), ..p }
            } else {
                p
            }
        },
        PropValue::Int(v) => {
            if prop.ident == ids.player_class {
                if 0 <= v <= 9 {
                    PlayerPatch { class: Some(spec_class_from(v as u8)), ..p }
                } else {
                    p
                }
            } else if prop.ident == ids.team {
                if 0 <= v <= 3 {
                    PlayerPatch { team: Some(spec_team_from(v as u8)), ..p }
                } else {
                    p
                }
            } else if prop.ident == ids.cond_bits {
                if v == 0 || v == 2048 {
                    PlayerPatch { kritzed: Some(v == 2048), ..p }
                } else {
                    p
                }
            } else if prop.ident == ids.kills {
                PlayerPatch { scoreboard_kills: Some(spec_clamp_u32_from_i64(v)), ..p }
            } else if prop.ident == ids.kill_assists {
                PlayerPatch { scoreboard_assists: Some(spec_clamp_u32_from_i64(v)), ..p }
            } else if prop.ident == ids.deaths {
                PlayerPatch { scoreboard_deaths: Some(spec_clamp_u32_from_i64(v)), ..p }
            } else if prop.ident == ids.flags {
                PlayerPatch { flags: Some(spec_clamp_u32_from_i64(v)), ..p }
            } else if prop.ident == ids.health {
                PlayerPatch { health: Some(spec_clamp_u32_from_i64(v)), ..p }
            } else if prop.ident == ids.sim_time {
                PlayerPatch { sim_time: Some(spec_clamp_u32_from_i64(v)), ..p }
            } else if prop.ident == ids.handle {
                PlayerPatch { handle: Some(spec_clamp_u32_from_i64(v)), ..p }
            } else if prop.ident == ids.cond_source {
                PlayerPatch { condition_source: Some(spec_clamp_u32_from_i64(v)), ..p }
            } else if prop.ident == ids.cond_0 {
                PlayerPatch { cond_0: Some(spec_clamp_u32_from_i64(v)), ..p }
            } else if prop.ident == ids.cond_1 {
                PlayerPatch { cond_1: Some(spec_clamp_u32_from_i64(v)), ..p }
            } else if prop.ident == ids.cond_2 {
                PlayerPatch { cond_2: Some(spec_clamp_u32_from_i64(v)), ..p }
            } else if prop.ident == ids.cond_3 {
                PlayerPatch { cond_3: Some(spec_clamp_u32_from_i64(v)), ..p }
            } else if prop.ident == ids.active_weapon_handle {
                PlayerPatch { active_weapon_handle: Some(spec_clamp_u32_from_i64(v)), ..p }
            } else if prop.ident == ids.wep_0 {
                PlayerPatch { wep_0: Some(spec_clamp_u32_from_i64(v)), ..p }
            } else if prop.ident == ids.wep_1 {
                PlayerPatch { wep_1: Some(spec_clamp_u32_from_i64(v)), ..p }
            } else if prop.ident == ids.wep_2 {
                PlayerPatch { wep_2: Some(spec_clamp_u32_from_i64(v)), ..p }
            } else if prop.ident == ids.wep_3 {
                PlayerPatch { wep_3: Some(spec_clamp_u32_from_i64(v)), ..p }
            } else if prop.ident == ids.wep_4 {
                PlayerPatch { wep_4: Some(spec_clamp_u32_from_i64(v)), ..p }
            } else if prop.ident == ids.wep_5 {
                PlayerPatch { wep_5: Some(spec_clamp_u32_from_i64(v)), ..p }
            } else if prop.ident == ids.wep_6 {
                PlayerPatch { wep_6: Some(spec_clamp_u32_from_i64(v)), ..p }
            } else if prop.ident == ids.num_cosmetics {
                PlayerPatch { num_cosmetics: Some(spec_clamp_u32_from_i64(v)), ..p }
            } else if prop.ident == ids.cosmetic_0 {
                PlayerPatch { cosmetic_0: Some(spec_clamp_u32_from_i64(v)), ..p }
            } else if prop.ident == ids.cosmetic_1 {
                PlayerPatch { cosmetic_1: Some(spec_clamp_u32_from_i64(v)), ..p }
            } else if prop.ident == ids.cosmetic_2 {
                PlayerPatch { cosmetic_2: Some(spec_clamp_u32_from_i64(v)), ..p }
            } else if prop.ident == ids.cosmetic_3 {
                PlayerPatch { cosmetic_3: Some(spec_clamp_u32_from_i64(v)), ..p }
            } else if prop.ident == ids.cosmetic_4 {
                PlayerPatch { cosmetic_4: Some(spec_clamp_u32_from_i64(v)), ..p }
            } else if prop.ident == ids.cosmetic_5 {
                PlayerPatch { cosmetic_5: Some(spec_clamp_u32_from_i64(v)), ..p }
            } else if prop.ident == ids.cosmetic_6 {
                PlayerPatch { cosmetic_6: Some(spec_clamp_u32_from_i64(v)), ..p }
            } else if prop.ident == ids.cosmetic_7 {
                PlayerPatch { cosmetic_7: Some(spec_clamp_u32_from_i64(v)), ..p }
            } else {
                p
            }
        },
        _ => p,
    }
}

/// The patch decoded from a property list, first to last.
pub open spec fn spec_player_parse(props: Seq<Prop>, ids: PropIds) -> PlayerPatch
    decreases props.len(),
{
    if props.len() == 0 {
        spec_player_patch_empty()
    } else {
        spec_player_prop(spec_player_parse(props.drop_last(), ids), props.last(), ids)
    }
}

impl PlayerPatch {
    /// The patch with nothing set.
    pub fn empty() -> (r: PlayerPatch)
        ensures
            r == spec_player_patch_empty(),
    {
        PlayerPatch {
            scoreboard_kills: None,
            scoreboard_assists: None,
            scoreboard_deaths: None,
            flags: None,
            class: None,
            team: None,
            health: None,
            sim_time: None,
            origin_x: None,
        origin_y: None,
            origin_z: None,
            eye_x: None,
            eye_y: None,
            handle: None,
            kritzed: None,
            active_weapon_handle: None,
            condition_source: None,
            cond_0: None,
            cond_1: None,
            cond_2: None,
            cond_3: None,
            wep_0: None,
            wep_1: None,
            wep_2: None,
            wep_3: None,
            wep_4: None,
            wep_5: None,
            wep_6: None,
            num_cosmetics: None,
            cosmetic_0: None,
            cosmetic_1: None,
            cosmetic_2: None,
            cosmetic_3: None,
            cosmetic_4: None,
            cosmetic_5: None,
            cosmetic_6: None,
            cosmetic_7: None,
        }
    }
}

/// The player entity after a patch: present fields override, the origin
/// merges coordinate-wise, the condition words are replaced slice by slice,
/// and the sticky last-active-weapon handle keeps its last real value.
pub open spec fn spec_player_apply(p: Player, q: PlayerPatch) -> Player {
    Player {
        class: spec_patched(q.class, p.class),
        team: spec_patched(q.team, p.team),
        user_id: p.user_id,
        health: spec_patched(q.health, p.health),
        kritzed: spec_patched(q.kritzed, p.kritzed),
        sim_time: spec_patched(q.sim_time, p.sim_time),
        origin: Vec3i {
            x: spec_patched(q.origin_x, p.origin.x),
            y: spec_patched(q.origin_y, p.origin.y),
            z: spec_patched(q.origin_z, p.origin.z),
        },
        eye_x: spec_patched(q.eye_x, p.eye_x),
        eye_y: spec_patched(q.eye_y, p.eye_y),
        cond_0: spec_patched(q.cond_0, p.cond_0),
        cond_1: spec_patched(q.cond_1, p.cond_1),
        cond_2: spec_patched(q.cond_2, p.cond_2),
        cond_3: spec_patched(q.cond_3, p.cond_3),
        condition_source: spec_patched(q.condition_source, p.condition_source),
        last_active_weapon_handle: (match q.active_weapon_handle {
            Some(aw) => if aw != INVALID_HANDLE {
                aw
            } else {
                p.last_active_weapon_handle
            },
            None => p.last_active_weapon_handle,
        }),
        active_weapon_handle: spec_patched(q.active_weapon_handle, p.active_weapon_handle),
        wep_0: spec_patched(q.wep_0, p.wep_0),
        wep_1: spec_patched(q.wep_1, p.wep_1),
        wep_2: spec_patched(q.wep_2, p.wep_2),
        wep_3: spec_patched(q.wep_3, p.wep_3),
        wep_4: spec_patched(q.wep_4, p.wep_4),
        wep_5: spec_patched(q.wep_5, p.wep_5),
        wep_6: spec_patched(q.wep_6, p.wep_6),
        cosmetic_0: spec_patched(q.cosmetic_0, p.cosmetic_0),
        cosmetic_1: spec_patched(q.cosmetic_1, p.cosmetic_1),
        cosmetic_2: spec_patched(q.cosmetic_2, p.cosmetic_2),
        cosmetic_3: spec_patched(q.cosmetic_3, p.cosmetic_3),
        cosmetic_4: spec_patched(q.cosmetic_4, p.cosmetic_4),
        cosmetic_5: spec_patched(q.cosmetic_5, p.cosmetic_5),
        cosmetic_6: spec_patched(q.cosmetic_6, p.cosmetic_6),
        cosmetic_7: spec_patched(q.cosmetic_7, p.cosmetic_7),
        handle: spec_patched(q.handle, p.handle),
    }
}

impl Player {
    /// Decodes a player update from a property list; exactly
    /// [`spec_player_parse`].
    pub fn parse(props: &Vec<Prop>, ids: &PropIds) -> (patch: PlayerPatch)
        ensures
            patch == spec_player_parse(props@, *ids),
    {
        let mut patch = PlayerPatch::empty();
        let mut i: usize = 0;
        proof {
            assert(props@.take(0) =~= Seq::<Prop>::empty());
        }
        while i < props.len()
            invariant
                i <= props.len(),
                patch == spec_player_parse(props@.take(i as int), *ids),
            decreases props.len() - i,
        {
            let p = &props[i];
            match &p.value {
                PropValue::VecXY(x, y) => {
                    if p.ident == ids.origin_xy {
                        patch.origin_x = Some(clamp_coord(*x));
                        patch.origin_y = Some(clamp_coord(*y));
                    }
                },
                PropValue::Milli(z) => {
                    if p.ident == ids.origin_z {
                        patch.origin_z = Some(clamp_coord(*z));
                    } else if p.ident == ids.eye_x {
                        patch.eye_x = Some(clamp_coord(*z));
                    } else if p.ident == ids.eye_y {
                        patch.eye_y = Some(clamp_coord(*z));
                    }
                },
                PropValue::Int(v) => {
                    if p.ident == ids.player_class {
                        if 0 <= *v && *v <= 9 {
                            patch.class = Some(class_from_u8(*v as u8));
                        }
                    } else if p.ident == ids.team {
                        if 0 <= *v && *v <= 3 {
                            patch.team = Some(team_from_u8(*v as u8));
                        }
                    } else if p.ident == ids.cond_bits {
                        if *v == 0 || *v == 2048 {
                            patch.kritzed = Some(*v == 2048);
                        }
                    } else if p.ident == ids.kills {
                        patch.scoreboard_kills = Some(clamp_u32_from_i64(*v));
                    } else if p.ident == ids.kill_assists {
                        patch.scoreboard_assists = Some(clamp_u32_from_i64(*v));
                    } else if p.ident == ids.deaths {
                        patch.scoreboard_deaths = Some(clamp_u32_from_i64(*v));
                    } else if p.ident == ids.flags {
                        patch.flags = Some(clamp_u32_from_i64(*v));
                    } else if p.ident == ids.health {
                        patch.health = Some(clamp_u32_from_i64(*v));
                    } else if p.ident == ids.sim_time {
                        patch.sim_time = Some(clamp_u32_from_i64(*v));
                    } else if p.ident == ids.handle {
                        patch.handle = Some(clamp_u32_from_i64(*v));
                    } else if p.ident == ids.cond_source {
                        patch.condition_source = Some(clamp_u32_from_i64(*v));
                    } else if p.ident == ids.cond_0 {
                        patch.cond_0 = Some(clamp_u32_from_i64(*v));
                    } else if p.ident == ids.cond_1 {
                        patch.cond_1 = Some(clamp_u32_from_i64(*v));
                    } else if p.ident == ids.cond_2 {
                        patch.cond_2 = Some(clamp_u32_from_i64(*v));
                    } else if p.ident == ids.cond_3 {
                        patch.cond_3 = Some(clamp_u32_from_i64(*v));
                    } else if p.ident == ids.active_weapon_handle {
                        patch.active_weapon_handle = Some(clamp_u32_from_i64(*v));
                    } else if p.ident == ids.wep_0 {
                        patch.wep_0 = Some(clamp_u32_from_i64(*v));
                    } else if p.ident == ids.wep_1 {
                        patch.wep_1 = Some(clamp_u32_from_i64(*v));
                    } else if p.ident == ids.wep_2 {
                        patch.wep_2 = Some(clamp_u32_from_i64(*v));
                    } else if p.ident == ids.wep_3 {
                        patch.wep_3 = Some(clamp_u32_from_i64(*v));
                    } else if p.ident == ids.wep_4 {
                        patch.wep_4 = Some(clamp_u32_from_i64(*v));
                    } else if p.ident == ids.wep_5 {
                        patch.wep_5 = Some(clamp_u32_from_i64(*v));
                    } else if p.ident == ids.wep_6 {
                        patch.wep_6 = Some(clamp_u32_from_i64(*v));
                    } else if p.ident == ids.num_cosmetics {
                        patch.num_cosmetics = Some(clamp_u32_from_i64(*v));
                    } else if p.ident == ids.cosmetic_0 {
                        patch.cosmetic_0 = Some(clamp_u32_from_i64(*v));
                    } else if p.ident == ids.cosmetic_1 {
                        patch.cosmetic_1 = Some(clamp_u32_from_i64(*v));
                    } else if p.ident == ids.cosmetic_2 {
                        patch.cosmetic_2 = Some(clamp_u32_from_i64(*v));
                    } else if p.ident == ids.cosmetic_3 {
                        patch.cosmetic_3 = Some(clamp_u32_from_i64(*v));
                    } else if p.ident == ids.cosmetic_4 {
                        patch.cosmetic_4 = Some(clamp_u32_from_i64(*v));
                    } else if p.ident == ids.cosmetic_5 {
                        patch.cosmetic_5 = Some(clamp_u32_from_i64(*v));
                    } else if p.ident == ids.cosmetic_6 {
                        patch.cosmetic_6 = Some(clamp_u32_from_i64(*v));
                    } else if p.ident == ids.cosmetic_7 {
                        patch.cosmetic_7 = Some(clamp_u32_from_i64(*v));
                    }
                },
                _ => {},
            }
            proof {
                assert(props@.take(i + 1).drop_last() =~= props@.take(i as int));
                assert(props@.take(i + 1).last() == props@[i as int]);
            }
            i = i + 1;
        }
        proof {
            assert(props@.take(props@.len() as int) =~= props@);
        }
        patch
    }

    /// Applies a patch to the entity: present fields override and absent
    /// fields are retained; the origin merges coordinate-wise; the four
    /// condition words are replaced slice by slice; a present active-weapon
    /// handle updates the sticky last-active handle only when it is not the
    /// invalid sentinel.
    pub fn apply(&mut self, patch: PlayerPatch)
        ensures
            *final(self) == spec_player_apply(*old(self), patch),
            final(self).user_id == old(self).user_id,
            final(self).class == spec_patched(patch.class, old(self).class),
            final(self).team == spec_patched(patch.team, old(self).team),
            final(self).health == spec_patched(patch.health, old(self).health),
            final(self).kritzed == spec_patched(patch.kritzed, old(self).kritzed),
            final(self).sim_time == spec_patched(patch.sim_time, old(self).sim_time),
            final(self).handle == spec_patched(patch.handle, old(self).handle),
            final(self).condition_source == spec_patched(
                patch.condition_source,
                old(self).condition_source,
            ),
            final(self).origin.x == spec_patched(patch.origin_x, old(self).origin.x),
            final(self).origin.y == spec_patched(patch.origin_y, old(self).origin.y),
            final(self).origin.z == spec_patched(patch.origin_z, old(self).origin.z),
            final(self).eye_x == spec_patched(patch.eye_x, old(self).eye_x),
            final(self).eye_y == spec_patched(patch.eye_y, old(self).eye_y),
            final(self).cond_0 == spec_patched(patch.cond_0, old(self).cond_0),
            final(self).cond_1 == spec_patched(patch.cond_1, old(self).cond_1),
            final(self).cond_2 == spec_patched(patch.cond_2, old(self).cond_2),
            final(self).cond_3 == spec_patched(patch.cond_3, old(self).cond_3),
            final(self).active_weapon_handle == spec_patched(
                patch.active_weapon_handle,
                old(self).active_weapon_handle,
            ),
            final(self).last_active_weapon_handle == (match patch.active_weapon_handle {
                Some(aw) => if aw != INVALID_HANDLE {
                    aw
                } else {
                    old(self).last_active_weapon_handle
                },
                None => old(self).last_active_weapon_handle,
            }),
            final(self).wep_0 == spec_patched(patch.wep_0, old(self).wep_0),
            final(self).wep_1 == spec_patched(patch.wep_1, old(self).wep_1),
            final(self).wep_2 == spec_patched(patch.wep_2, old(self).wep_2),
            final(self).wep_3 == spec_patched(patch.wep_3, old(self).wep_3),
            final(self).wep_4 == spec_patched(patch.wep_4, old(self).wep_4),
            final(self).wep_5 == spec_patched(patch.wep_5, old(self).wep_5),
            final(self).wep_6 == spec_patched(patch.wep_6, old(self).wep_6),
            final(self).cosmetic_0 == spec_patched(patch.cosmetic_0, old(self).cosmetic_0),
            final(self).cosmetic_1 == spec_patched(patch.cosmetic_1, old(self).cosmetic_1),
            final(self).cosmetic_2 == spec_patched(patch.cosmetic_2, old(self).cosmetic_2),
            final(self).cosmetic_3 == spec_patched(patch.cosmetic_3, old(self).cosmetic_3),
            final(self).cosmetic_4 == spec_patched(patch.cosmetic_4, old(self).cosmetic_4),
            final(self).cosmetic_5 == spec_patched(patch.cosmetic_5, old(self).cosmetic_5),
            final(self).cosmetic_6 == spec_patched(patch.cosmetic_6, old(self).cosmetic_6),
            final(self).cosmetic_7 == spec_patched(patch.cosmetic_7, old(self).cosmetic_7),
    {
        let next = Player {
            class: patched(patch.class, self.class),
            team: patched(patch.team, self.team),
            user_id: self.user_id,
            health: patched(patch.health, self.health),
            kritzed: patched(patch.kritzed, self.kritzed),
            sim_time: patched(patch.sim_time, self.sim_time),
            origin: Vec3i {
                x: patched(patch.origin_x, self.origin.x),
                y: patched(patch.origin_y, self.origin.y),
                z: patched(patch.origin_z, self.origin.z),
            },
            eye_x: patched(patch.eye_x, self.eye_x),
            eye_y: patched(patch.eye_y, self.eye_y),
            cond_0: patched(patch.cond_0, self.cond_0),
            cond_1: patched(patch.cond_1, self.cond_1),
            cond_2: patched(patch.cond_2, self.cond_2),
            cond_3: patched(patch.cond_3, self.cond_3),
            condition_source: patched(patch.condition_source, self.condition_source),
            active_weapon_handle: patched(patch.active_weapon_handle, self.active_weapon_handle),
            last_active_weapon_handle: (match patch.active_weapon_handle {
                Some(aw) => if aw != INVALID_HANDLE {
                    aw
                } else {
                    self.last_active_weapon_handle
                },
                None => self.last_active_weapon_handle,
            }),
            wep_0: patched(patch.wep_0, self.wep_0),
            wep_1: patched(patch.wep_1, self.wep_1),
            wep_2: patched(patch.wep_2, self.wep_2),
            wep_3: patched(patch.wep_3, self.wep_3),
            wep_4: patched(patch.wep_4, self.wep_4),
            wep_5: patched(patch.wep_5, self.wep_5),
            wep_6: patched(patch.wep_6, self.wep_6),
            cosmetic_0: patched(patch.cosmetic_0, self.cosmetic_0),
            cosmetic_1: patched(patch.cosmetic_1, self.cosmetic_1),
            cosmetic_2: patched(patch.cosmetic_2, self.cosmetic_2),
            cosmetic_3: patched(patch.cosmetic_3, self.cosmetic_3),
            cosmetic_4: patched(patch.cosmetic_4, self.cosmetic_4),
            cosmetic_5: patched(patch.cosmetic_5, self.cosmetic_5),
            cosmetic_6: patched(patch.cosmetic_6, self.cosmetic_6),
            cosmetic_7: patched(patch.cosmetic_7, self.cosmetic_7),
            handle: patched(patch.handle, self.handle),
        };
        *self = next;
    }

    /// The weapon-slot handle at the given slot index, the invalid sentinel
    /// past the last slot.
    pub fn weapon_slot(&self, i: usize) -> (r: u32)
        ensures
            r == spec_weapon_slot(*self, i as int),
    {
        if i == 0 {
            self.wep_0
        } else if i == 1 {
            self.wep_1
        } else if i == 2 {
            self.wep_2
        } else if i == 3 {
            self.wep_3
        } else if i == 4 {
            self.wep_4
        } else if i == 5 {
            self.wep_5
        } else if i == 6 {
            self.wep_6
        } else {
            INVALID_HANDLE
        }
    }

    /// The cosmetic-slot handle at the given slot index, the invalid
    /// sentinel past the last slot.
    pub fn cosmetic_slot(&self, i: usize) -> (r: u32)
        ensures
            r == spec_cosmetic_slot(*self, i as int),
    {
        if i == 0 {
            self.cosmetic_0
        } else if i == 1 {
            self.cosmetic_1
        } else if i == 2 {
            self.cosmetic_2
        } else if i == 3 {
            self.cosmetic_3
        } else if i == 4 {
            self.cosmetic_4
        } else if i == 5 {
            self.cosmetic_5
        } else if i == 6 {
            self.cosmetic_6
        } else if i == 7 {
            self.cosmetic_7
        } else {
            INVALID_HANDLE
        }
    }
}

/// The weapon-slot handle at a given slot index.
pub open spec fn spec_weapon_slot(p: Player, i: int) -> u32 {
    if i == 0 {
        p.wep_0
    } else if i == 1 {
        p.wep_1
    } else if i == 2 {
        p.wep_2
    } else if i == 3 {
        p.wep_3
    } else if i == 4 {
        p.wep_4
    } else if i == 5 {
        p.wep_5
    } else if i == 6 {
        p.wep_6
    } else {
        INVALID_HANDLE
    }
}

/// The cosmetic-slot handle at a given slot index.
pub open spec fn spec_cosmetic_slot(p: Player, i: int) -> u32 {
    if i == 0 {
        p.cosmetic_0
    } else if i == 1 {
        p.cosmetic_1
    } else if i == 2 {
        p.cosmetic_2
    } else if i == 3 {
        p.cosmetic_3
    } else if i == 4 {
        p.cosmetic_4
    } else if i == 5 {
        p.cosmetic_5
    } else if i == 6 {
        p.cosmetic_6
    } else if i == 7 {
        p.cosmetic_7
    } else {
        INVALID_HANDLE
    }
}

/// A blank player entity, before any property lands.
pub open spec fn spec_player_blank(user_id: u32) -> Player {
    Player {
        class: Class::Other,
        team: Team::Other,
        user_id: user_id,
        health: 0,
        kritzed: false,
        sim_time: 0,
        origin: crate::collide::spec_vec3_zero(),
        eye_x: 0,
        eye_y: 0,
        cond_0: 0,
        cond_1: 0,
        cond_2: 0,
        cond_3: 0,
        condition_source: 0,
        last_active_weapon_handle: 0,
        active_weapon_handle: 0,
        wep_0: 0,
        wep_1: 0,
        wep_2: 0,
        wep_3: 0,
        wep_4: 0,
        wep_5: 0,
        wep_6: 0,
        cosmetic_0: 0,
        cosmetic_1: 0,
        cosmetic_2: 0,
        cosmetic_3: 0,
        cosmetic_4: 0,
        cosmetic_5: 0,
        cosmetic_6: 0,
        cosmetic_7: 0,
        handle: 0,
    }
}

impl Player {
    /// A blank player entity, before any property lands.
    pub fn blank(user_id: u32) -> (r: Player)
        ensures
            r == spec_player_blank(user_id),
    {
        Player {
            class: Class::Other,
            team: Team::Other,
            user_id: user_id,
            health: 0,
            kritzed: false,
            sim_time: 0,
            origin: Vec3i::zero(),
            eye_x: 0,
            eye_y: 0,
            cond_0: 0,
            cond_1: 0,
            cond_2: 0,
            cond_3: 0,
            condition_source: 0,
            last_active_weapon_handle: 0,
            active_weapon_handle: 0,
            wep_0: 0,
            wep_1: 0,
            wep_2: 0,
            wep_3: 0,
            wep_4: 0,
            wep_5: 0,
            wep_6: 0,
            cosmetic_0: 0,
            cosmetic_1: 0,
            cosmetic_2: 0,
            cosmetic_3: 0,
            cosmetic_4: 0,
            cosmetic_5: 0,
            cosmetic_6: 0,
            cosmetic_7: 0,
            handle: 0,
        }
    }
}

} // verus!
