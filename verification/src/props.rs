//! The closed set of network properties the analyzer reads, identified the
//! way the demo protocol identifies them: by a stable hash of the (table
//! name, property name) pair. Unknown identifiers are ignored during decode.
use crate::collide::Vec3i;
use crate::external::prop_id;
use crate::external::prop_id_of;
use vstd::prelude::*;

verus! {

/// A decoded network property value, as plain integers; scalar readings that
/// the wire carries fractionally are kept in thousandths.
#[derive(Clone, Debug)]
pub enum PropValue {
    /// An integer-valued property.
    Int(i64),
    /// A fractional scalar, in thousandths.
    Milli(i64),
    /// A three-component position, in thousandths of a unit.
    Vec3(Vec3i),
    /// A two-component position, in thousandths of a unit.
    VecXY(i64, i64),
    /// A string-valued property.
    Str(String),
}

/// One network property of a packet entity: its identifier, the (table,
/// name) pair when the demuxer knows it, and the decoded value.
#[derive(Debug)]
pub struct Prop {
    pub ident: u64,
    pub names: Option<(String, String)>,
    pub value: PropValue,
}

/// A wire integer read into an unsigned 32-bit field, clamped at the
/// field's range so that out-of-range readings cannot wrap.
pub open spec fn spec_clamp_u32_from_i64(v: i64) -> u32 {
    if v < 0 {
        0
    } else if v > u32::MAX {
        u32::MAX
    } else {
        v as u32
    }
}

/// Executable twin of [`spec_clamp_u32_from_i64`].
pub fn clamp_u32_from_i64(v: i64) -> (r: u32)
    ensures
        r == spec_clamp_u32_from_i64(v),
{
    if v < 0 {
        0
    } else if v > u32::MAX as i64 {
        u32::MAX
    } else {
        v as u32
    }
}

/// The identifiers of every property the analyzer recognizes.
pub struct PropIds {

    pub medigun_charge_level: u64,
    pub medigun_charge_released: u64,
    pub self_handle: u64,
    pub item_definition: u64,
    pub model: u64,
    pub team: u64,
    pub sim_time: u64,
    pub origin: u64,
    pub owner: u64,
    pub effects: u64,
    pub builder: u64,
    pub upgrade_level: u64,
    pub object_max_health: u64,
    pub origin_xy: u64,
    pub origin_z: u64,
    pub flags: u64,
    pub health: u64,
    pub player_class: u64,
    pub eye_x: u64,
    pub eye_y: u64,
    pub handle: u64,
    pub cond_0: u64,
    pub cond_1: u64,
    pub cond_2: u64,
    pub cond_3: u64,
    pub cond_bits: u64,
    pub cond_source: u64,
    pub active_weapon_handle: u64,
    pub kills: u64,
    pub deaths: u64,
    pub kill_assists: u64,
    pub wep_0: u64,
    pub wep_1: u64,
    pub wep_2: u64,
    pub wep_3: u64,
    pub wep_4: u64,
    pub wep_5: u64,
    pub wep_6: u64,
    pub num_cosmetics: u64,
    pub cosmetic_0: u64,
    pub cosmetic_1: u64,
    pub cosmetic_2: u64,
    pub cosmetic_3: u64,
    pub cosmetic_4: u64,
    pub cosmetic_5: u64,
    pub cosmetic_6: u64,
    pub cosmetic_7: u64,
    pub reset_parity: u64,
    pub rocket_origin: u64,
    pub rocket_deflected: u64,
    pub grenade_origin: u64,
    pub grenade_deflected: u64,
    pub weapon_owner: u64,
    pub initial_speed: u64,
    pub original_launcher: u64,
    pub pipe_type: u64,
    pub rocket_rotation: u64,
    pub grenade_rotation: u64,
    pub deflect_owner: u64,
    pub waiting_for_players: u64,
    pub round_state: u64,
    pub effect_entity: u64,
    pub anim_player: u64,
    pub anim_id: u64,
    pub fire_bullets_player: u64,
}

impl PropIds {
    /// Computes the identifier of each recognized (table, property) pair.
    pub fn new() -> (r: PropIds)
        ensures
            r.medigun_charge_level == prop_id_of("DT_TFWeaponMedigunDataNonLocal"@, "m_flChargeLevel"@),
            r.medigun_charge_released == prop_id_of("DT_WeaponMedigun"@, "m_bChargeRelease"@),
            r.self_handle == prop_id_of("DT_AttributeContainer"@, "m_hOuter"@),
            r.item_definition == prop_id_of("DT_ScriptCreatedItem"@, "m_iItemDefinitionIndex"@),
            r.model == prop_id_of("DT_BaseEntity"@, "m_nModelIndex"@),
            r.team == prop_id_of("DT_BaseEntity"@, "m_iTeamNum"@),
            r.sim_time == prop_id_of("DT_BaseEntity"@, "m_flSimulationTime"@),
            r.origin == prop_id_of("DT_BaseEntity"@, "m_vecOrigin"@),
            r.owner == prop_id_of("DT_BaseEntity"@, "m_hOwnerEntity"@),
            r.effects == prop_id_of("DT_BaseEntity"@, "m_fEffects"@),
            r.builder == prop_id_of("DT_BaseObject"@, "m_hBuilder"@),
            r.upgrade_level == prop_id_of("DT_BaseObject"@, "m_iUpgradeLevel"@),
            r.object_max_health == prop_id_of("DT_BaseObject"@, "m_iMaxHealth"@),
            r.origin_xy == prop_id_of("DT_TFNonLocalPlayerExclusive"@, "m_vecOrigin"@),
            r.origin_z == prop_id_of("DT_TFNonLocalPlayerExclusive"@, "m_vecOrigin[2]"@),
            r.flags == prop_id_of("DT_BasePlayer"@, "m_fFlags"@),
            r.health == prop_id_of("DT_BasePlayer"@, "m_iHealth"@),
            r.player_class == prop_id_of("DT_TFPlayerClassShared"@, "m_iClass"@),
            r.eye_x == prop_id_of("DT_TFNonLocalPlayerExclusive"@, "m_angEyeAngles[0]"@),
            r.eye_y == prop_id_of("DT_TFNonLocalPlayerExclusive"@, "m_angEyeAngles[1]"@),
            r.handle == prop_id_of("DT_AttributeManager"@, "m_hOuter"@),
            r.cond_0 == prop_id_of("DT_TFPlayerShared"@, "m_nPlayerCond"@),
            r.cond_1 == prop_id_of("DT_TFPlayerShared"@, "m_nPlayerCondEx"@),
            r.cond_2 == prop_id_of("DT_TFPlayerShared"@, "m_nPlayerCondEx2"@),
            r.cond_3 == prop_id_of("DT_TFPlayerShared"@, "m_nPlayerCondEx3"@),
            r.cond_bits == prop_id_of("DT_TFPlayerConditionListExclusive"@, "_condition_bits"@),
            r.cond_source == prop_id_of("DT_TFPlayerConditionSource"@, "m_pProvider"@),
            r.active_weapon_handle == prop_id_of("DT_BaseCombatCharacter"@, "m_hActiveWeapon"@),
            r.kills == prop_id_of("DT_TFPlayerScoringDataExclusive"@, "m_iKills"@),
            r.deaths == prop_id_of("DT_TFPlayerScoringDataExclusive"@, "m_iDeaths"@),
            r.kill_assists == prop_id_of("DT_TFPlayerScoringDataExclusive"@, "m_iKillAssists"@),
            r.wep_0 == prop_id_of("m_hMyWeapons"@, "000"@),
            r.wep_1 == prop_id_of("m_hMyWeapons"@, "001"@),
            r.wep_2 == prop_id_of("m_hMyWeapons"@, "002"@),
            r.wep_3 == prop_id_of("m_hMyWeapons"@, "003"@),
            r.wep_4 == prop_id_of("m_hMyWeapons"@, "004"@),
            r.wep_5 == prop_id_of("m_hMyWeapons"@, "005"@),
            r.wep_6 == prop_id_of("m_hMyWeapons"@, "006"@),
            r.num_cosmetics == prop_id_of("_LPT_m_hMyWearables_8"@, "lengthprop8"@),
            r.cosmetic_0 == prop_id_of("_ST_m_hMyWearables_8"@, "000"@),
            r.cosmetic_1 == prop_id_of("_ST_m_hMyWearables_8"@, "001"@),
            r.cosmetic_2 == prop_id_of("_ST_m_hMyWearables_8"@, "002"@),
            r.cosmetic_3 == prop_id_of("_ST_m_hMyWearables_8"@, "003"@),
            r.cosmetic_4 == prop_id_of("_ST_m_hMyWearables_8"@, "004"@),
            r.cosmetic_5 == prop_id_of("_ST_m_hMyWearables_8"@, "005"@),
            r.cosmetic_6 == prop_id_of("_ST_m_hMyWearables_8"@, "006"@),
            r.cosmetic_7 == prop_id_of("_ST_m_hMyWearables_8"@, "007"@),
            r.reset_parity == prop_id_of("DT_TFWeaponBase"@, "m_bResetParity"@),
            r.rocket_origin == prop_id_of("DT_TFBaseRocket"@, "m_vecOrigin"@),
            r.rocket_deflected == prop_id_of("DT_TFBaseRocket"@, "m_iDeflected"@),
            r.grenade_origin == prop_id_of("DT_TFWeaponBaseGrenadeProj"@, "m_vecOrigin"@),
            r.grenade_deflected == prop_id_of("DT_TFWeaponBaseGrenadeProj"@, "m_iDeflected"@),
            r.weapon_owner == prop_id_of("DT_BaseCombatWeapon"@, "m_hOwner"@),
            r.initial_speed == prop_id_of("DT_TFBaseRocket"@, "m_vInitialVelocity"@),
            r.original_launcher == prop_id_of("DT_BaseProjectile"@, "m_hOriginalLauncher"@),
            r.pipe_type == prop_id_of("DT_TFProjectile_Pipebomb"@, "m_iType"@),
            r.rocket_rotation == prop_id_of("DT_TFBaseRocket"@, "m_angRotation"@),
            r.grenade_rotation == prop_id_of("DT_TFWeaponBaseGrenadeProj"@, "m_angRotation"@),
            r.deflect_owner == prop_id_of("DT_TFWeaponBaseGrenadeProj"@, "m_hDeflectOwner"@),
            r.waiting_for_players == prop_id_of("DT_TeamplayRoundBasedRules"@, "m_bInWaitingForPlayers"@),
            r.round_state == prop_id_of("DT_TeamplayRoundBasedRules"@, "m_iRoundState"@),
            r.effect_entity == prop_id_of("DT_EffectData"@, "entindex"@),
            r.anim_player == prop_id_of("DT_TEPlayerAnimEvent"@, "m_hPlayer"@),
            r.anim_id == prop_id_of("DT_TEPlayerAnimEvent"@, "m_iEvent"@),
            r.fire_bullets_player == prop_id_of("DT_TEFireBullets"@, "m_iPlayer"@),
    {
        PropIds {
            medigun_charge_level: prop_id("DT_TFWeaponMedigunDataNonLocal", "m_flChargeLevel"),
            medigun_charge_released: prop_id("DT_WeaponMedigun", "m_bChargeRelease"),
            self_handle: prop_id("DT_AttributeContainer", "m_hOuter"),
            item_definition: prop_id("DT_ScriptCreatedItem", "m_iItemDefinitionIndex"),
            model: prop_id("DT_BaseEntity", "m_nModelIndex"),
            team: prop_id("DT_BaseEntity", "m_iTeamNum"),
            sim_time: prop_id("DT_BaseEntity", "m_flSimulationTime"),
            origin: prop_id("DT_BaseEntity", "m_vecOrigin"),
            owner: prop_id("DT_BaseEntity", "m_hOwnerEntity"),
            effects: prop_id("DT_BaseEntity", "m_fEffects"),
            builder: prop_id("DT_BaseObject", "m_hBuilder"),
            upgrade_level: prop_id("DT_BaseObject", "m_iUpgradeLevel"),
            object_max_health: prop_id("DT_BaseObject", "m_iMaxHealth"),
            origin_xy: prop_id("DT_TFNonLocalPlayerExclusive", "m_vecOrigin"),
            origin_z: prop_id("DT_TFNonLocalPlayerExclusive", "m_vecOrigin[2]"),
            flags: prop_id("DT_BasePlayer", "m_fFlags"),
            health: prop_id("DT_BasePlayer", "m_iHealth"),
            player_class: prop_id("DT_TFPlayerClassShared", "m_iClass"),
            eye_x: prop_id("DT_TFNonLocalPlayerExclusive", "m_angEyeAngles[0]"),
            eye_y: prop_id("DT_TFNonLocalPlayerExclusive", "m_angEyeAngles[1]"),
            handle: prop_id("DT_AttributeManager", "m_hOuter"),
            cond_0: prop_id("DT_TFPlayerShared", "m_nPlayerCond"),
            cond_1: prop_id("DT_TFPlayerShared", "m_nPlayerCondEx"),
            cond_2: prop_id("DT_TFPlayerShared", "m_nPlayerCondEx2"),
            cond_3: prop_id("DT_TFPlayerShared", "m_nPlayerCondEx3"),
            cond_bits: prop_id("DT_TFPlayerConditionListExclusive", "_condition_bits"),
            cond_source: prop_id("DT_TFPlayerConditionSource", "m_pProvider"),
            active_weapon_handle: prop_id("DT_BaseCombatCharacter", "m_hActiveWeapon"),
            kills: prop_id("DT_TFPlayerScoringDataExclusive", "m_iKills"),
            deaths: prop_id("DT_TFPlayerScoringDataExclusive", "m_iDeaths"),
            kill_assists: prop_id("DT_TFPlayerScoringDataExclusive", "m_iKillAssists"),
            wep_0: prop_id("m_hMyWeapons", "000"),
            wep_1: prop_id("m_hMyWeapons", "001"),
            wep_2: prop_id("m_hMyWeapons", "002"),
            wep_3: prop_id("m_hMyWeapons", "003"),
            wep_4: prop_id("m_hMyWeapons", "004"),
            wep_5: prop_id("m_hMyWeapons", "005"),
            wep_6: prop_id("m_hMyWeapons", "006"),
            num_cosmetics: prop_id("_LPT_m_hMyWearables_8", "lengthprop8"),
            cosmetic_0: prop_id("_ST_m_hMyWearables_8", "000"),
            cosmetic_1: prop_id("_ST_m_hMyWearables_8", "001"),
            cosmetic_2: prop_id("_ST_m_hMyWearables_8", "002"),
            cosmetic_3: prop_id("_ST_m_hMyWearables_8", "003"),
            cosmetic_4: prop_id("_ST_m_hMyWearables_8", "004"),
            cosmetic_5: prop_id("_ST_m_hMyWearables_8", "005"),
            cosmetic_6: prop_id("_ST_m_hMyWearables_8", "006"),
            cosmetic_7: prop_id("_ST_m_hMyWearables_8", "007"),
            reset_parity: prop_id("DT_TFWeaponBase", "m_bResetParity"),
            rocket_origin: prop_id("DT_TFBaseRocket", "m_vecOrigin"),
            rocket_deflected: prop_id("DT_TFBaseRocket", "m_iDeflected"),
            grenade_origin: prop_id("DT_TFWeaponBaseGrenadeProj", "m_vecOrigin"),
            grenade_deflected: prop_id("DT_TFWeaponBaseGrenadeProj", "m_iDeflected"),
            weapon_owner: prop_id("DT_BaseCombatWeapon", "m_hOwner"),
            initial_speed: prop_id("DT_TFBaseRocket", "m_vInitialVelocity"),
            original_launcher: prop_id("DT_BaseProjectile", "m_hOriginalLauncher"),
            pipe_type: prop_id("DT_TFProjectile_Pipebomb", "m_iType"),
            rocket_rotation: prop_id("DT_TFBaseRocket", "m_angRotation"),
            grenade_rotation: prop_id("DT_TFWeaponBaseGrenadeProj", "m_angRotation"),
            deflect_owner: prop_id("DT_TFWeaponBaseGrenadeProj", "m_hDeflectOwner"),
            waiting_for_players: prop_id("DT_TeamplayRoundBasedRules", "m_bInWaitingForPlayers"),
            round_state: prop_id("DT_TeamplayRoundBasedRules", "m_iRoundState"),
            effect_entity: prop_id("DT_EffectData", "entindex"),
            anim_player: prop_id("DT_TEPlayerAnimEvent", "m_hPlayer"),
            anim_id: prop_id("DT_TEPlayerAnimEvent", "m_iEvent"),
            fire_bullets_player: prop_id("DT_TEFireBullets", "m_iPlayer"),
        }
    }
}

/// The decimal value of a character-sequence, if it is one or more digits
/// whose value fits the entity-id range.
pub open spec fn spec_digits_val(cs: Seq<char>, acc: int) -> Option<int>
    decreases cs.len(),
{
    if cs.len() == 0 {
        Some(acc)
    } else {
        let v = (cs.first() as u32) as int;
        if 48 <= v <= 57 {
            let a2 = acc * 10 + (v - 48);
            if a2 > u32::MAX {
                None
            } else {
                spec_digits_val(cs.drop_first(), a2)
            }
        } else {
            None
        }
    }
}

/// The decimal value of a non-empty all-digit string, within `u32`.
pub open spec fn spec_parse_u32(cs: Seq<char>) -> Option<int> {
    if cs.len() == 0 {
        None
    } else {
        spec_digits_val(cs, 0)
    }
}

/// The value the standard decimal parser gives a userinfo entry's text:
/// as [`spec_parse_u32`], but an optional leading plus sign is accepted,
/// as `str::parse` accepts it for unsigned integers.
pub open spec fn spec_parse_entity_text(cs: Seq<char>) -> Option<int> {
    if cs.len() > 0 && cs.first() == '+' {
        spec_parse_u32(cs.drop_first())
    } else {
        spec_parse_u32(cs)
    }
}

/// Executable twin of [`spec_parse_entity_text`].
pub fn parse_entity_text(s: &String) -> (r: Option<u32>)
    ensures
        match r {
            Some(v) => spec_parse_entity_text(s@) == Some(v as int),
            None => spec_parse_entity_text(s@) is None,
        },
{
    let st: &str = s.as_str();
    let n = st.unicode_len();
    if n == 0 {
        return None;
    }
    let start: usize = if st.get_char(0) == '+' {
        1
    } else {
        0
    };
    if n == start {
        proof {
            if start == 1 {
                assert(s@.drop_first() =~= s@.skip(1));
                assert(s@.skip(1).len() == 0);
            }
        }
        return None;
    }
    let mut acc: u32 = 0;
    let mut i: usize = start;
    let ghost digits = s@.skip(start as int);
    proof {
        if start == 1 {
            assert(s@.drop_first() =~= s@.skip(1));
        } else {
            assert(s@.skip(0) =~= s@);
            assert(s@.first() == s@[0]);
        }
        assert(digits.skip(0) =~= digits);
        assert(spec_parse_entity_text(s@) == spec_parse_u32(digits));
    }
    while i < n
        invariant
            start <= i <= n,
            n == s@.len(),
            st@ == s@,
            start <= 1,
            digits == s@.skip(start as int),
            digits.len() == n - start,
            digits.len() > 0,
            spec_parse_entity_text(s@) == spec_parse_u32(digits),
            spec_digits_val(digits, 0) == spec_digits_val(
                digits.skip((i - start) as int),
                acc as int,
            ),
        decreases n - i,
    {
        let c = st.get_char(i);
        let v = c as u32;
        proof {
            assert(digits[(i - start) as int] == s@[i as int]);
            assert(digits.skip((i - start) as int).first() == digits[(i - start) as int]);
            assert(digits.skip((i - start) as int).drop_first() =~= digits.skip(
                (i + 1 - start) as int,
            ));
        }
        if v < 48 || v > 57 {
            return None;
        }
        let d = v - 48;
        if acc > (u32::MAX - d) / 10 {
            return None;
        }
        acc = acc * 10 + d;
        i = i + 1;
    }
    proof {
        assert(digits.skip(digits.len() as int) =~= Seq::<char>::empty());
    }
    Some(acc)
}

/// Parses a decimal `u32` from a string; exactly [`spec_parse_u32`].
pub fn parse_u32(s: &String) -> (r: Option<u32>)
    ensures
        match r {
            Some(v) => spec_parse_u32(s@) == Some(v as int),
            None => spec_parse_u32(s@) is None,
        },
{
    let st: &str = s.as_str();
    let n = st.unicode_len();
    if n == 0 {
        return None;
    }
    let mut acc: u32 = 0;
    let mut i: usize = 0;
    proof {
        assert(s@.skip(0) =~= s@);
    }
    while i < n
        invariant
            i <= n,
            n == s@.len(),
            st@ == s@,
            spec_digits_val(s@, 0) == spec_digits_val(s@.skip(i as int), acc as int),
        decreases n - i,
    {
        let c = st.get_char(i);
        let v = c as u32;
        proof {
            assert(s@.skip(i as int).first() == s@[i as int]);
            assert(s@.skip(i as int).drop_first() =~= s@.skip(i + 1));
        }
        if v < 48 || v > 57 {
            return None;
        }
        let d = v - 48;
        if acc > (u32::MAX - d) / 10 {
            return None;
        }
        acc = acc * 10 + d;
        i = i + 1;
    }
    proof {
        assert(s@.skip(s@.len() as int) =~= Seq::<char>::empty());
    }
    Some(acc)
}

} // verus!
