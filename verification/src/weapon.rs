//! Canonical weapon log-names: schema-driven naming, sentry naming by level,
//! the taunt-kill table, projectile naming with its reflect variants, and
//! the blast radii used by the hit test.
use crate::entity::projectile::{Projectile, ProjectileType};
use crate::game::{Class, DamageType, Team};
use crate::schema::Item;
use vstd::prelude::*;

verus! {

/// True when the string equals the literal.
pub fn str_is(s: &String, lit: &str) -> (r: bool)
    ensures
        r == (s@ == lit@),
{
    let t = lit.to_owned();
    s.eq(&t)
}

/// The log-name of a schema item when a player of the given class holds it:
/// the item's own log-name when it has one; the stock shotgun is named per
/// class; otherwise the item's class string, or a marker when even that is
/// missing.
pub open spec fn spec_weapon_name(
    logname: Option<Seq<char>>,
    item_class: Option<Seq<char>>,
    class: Class,
) -> Seq<char> {
    match logname {
        Some(l) => l,
        None => match item_class {
            Some(c) => if c == "tf_weapon_shotgun"@ {
                if class == Class::Soldier {
                    "shotgun_soldier"@
                } else if class == Class::Pyro {
                    "shotgun_pyro"@
                } else if class == Class::Heavy {
                    "shotgun_hwg"@
                } else {
                    "shotgun_primary"@
                }
            } else {
                c
            },
            None => "UNKNOWN"@,
        },
    }
}

/// Executable twin of [`spec_weapon_name`].
pub fn weapon_name(item: &Item, class: Class) -> (r: String)
    ensures
        r@ == spec_weapon_name(item@.item_logname, item@.item_class, class),
{
    match &item.item_logname {
        Some(l) => l.clone(),
        None => match &item.item_class {
            Some(c) => {
                if str_is(c, "tf_weapon_shotgun") {
                    if class == Class::Soldier {
                        "shotgun_soldier".to_owned()
                    } else if class == Class::Pyro {
                        "shotgun_pyro".to_owned()
                    } else if class == Class::Heavy {
                        "shotgun_hwg".to_owned()
                    } else {
                        "shotgun_primary".to_owned()
                    }
                } else {
                    c.clone()
                }
            },
            None => "UNKNOWN".to_owned(),
        },
    }
}

/// The log-name of a sentry by mini flag and upgrade level.
pub open spec fn spec_sentry_name(is_mini: bool, level: u32) -> Seq<char> {
    if is_mini {
        "obj_minisentry"@
    } else if level == 2 {
        "obj_sentrygun2"@
    } else if level == 3 {
        "obj_sentrygun3"@
    } else {
        "obj_sentrygun"@
    }
}

/// Executable twin of [`spec_sentry_name`].
pub fn sentry_name(is_mini: bool, level: u32) -> (r: String)
    ensures
        r@ == spec_sentry_name(is_mini, level),
{
    if is_mini {
        "obj_minisentry".to_owned()
    } else if level == 2 {
        "obj_sentrygun2".to_owned()
    } else if level == 3 {
        "obj_sentrygun3".to_owned()
    } else {
        "obj_sentrygun".to_owned()
    }
}

/// True of the log-names that name a sentry.
pub open spec fn spec_is_sentry_name(name: Seq<char>) -> bool {
    ||| name == "obj_minisentry"@
    ||| name == "obj_sentrygun"@
    ||| name == "obj_sentrygun2"@
    ||| name == "obj_sentrygun3"@
}

/// Executable twin of [`spec_is_sentry_name`].
pub fn is_sentry(name: &String) -> (r: bool)
    ensures
        r == spec_is_sentry_name(name@),
{
    str_is(name, "obj_minisentry") || str_is(name, "obj_sentrygun") || str_is(
        name,
        "obj_sentrygun2",
    ) || str_is(name, "obj_sentrygun3")
}

/// The fixed damage-type to log-name table for taunt kills.
pub open spec fn spec_taunt_log_name(dt: DamageType) -> Option<Seq<char>> {
    if dt == DamageType::TauntHadouken {
        Some("taunt_pyro"@)
    } else if dt == DamageType::TauntHighNoon {
        Some("taunt_heavy"@)
    } else if dt == DamageType::TauntGrandSlam {
        Some("taunt_scout"@)
    } else if dt == DamageType::TauntFencing {
        Some("taunt_spy"@)
    } else if dt == DamageType::TauntArrowStab {
        Some("taunt_sniper"@)
    } else if dt == DamageType::TauntGrenade {
        Some("taunt_soldier"@)
    } else if dt == DamageType::TauntBarbarianSwing {
        Some("taunt_demoman"@)
    } else if dt == DamageType::TauntUberslice {
        Some("taunt_medic"@)
    } else if dt == DamageType::TauntEngineerGuitarSmash {
        Some("taunt_guitar_kill"@)
    } else if dt == DamageType::TauntEngineerArmKill {
        Some("robot_arm_blender_kill"@)
    } else if dt == DamageType::TauntArmageddon {
        Some("armageddon"@)
    } else if dt == DamageType::TauntGasBlast {
        Some("gas_blast"@)
    } else if dt == DamageType::TauntAllclassGuitarRiff {
        Some("taunt_guitar_riff_kill"@)
    } else {
        None
    }
}

/// Executable twin of [`spec_taunt_log_name`].
pub fn taunt_log_name(dt: DamageType) -> (r: Option<String>)
    ensures
        match r {
            Some(s) => spec_taunt_log_name(dt) == Some(s@),
            None => spec_taunt_log_name(dt) is None,
        },
{
    if dt == DamageType::TauntHadouken {
        Some("taunt_pyro".to_owned())
    } else if dt == DamageType::TauntHighNoon {
        Some("taunt_heavy".to_owned())
    } else if dt == DamageType::TauntGrandSlam {
        Some("taunt_scout".to_owned())
    } else if dt == DamageType::TauntFencing {
        Some("taunt_spy".to_owned())
    } else if dt == DamageType::TauntArrowStab {
        Some("taunt_sniper".to_owned())
    } else if dt == DamageType::TauntGrenade {
        Some("taunt_soldier".to_owned())
    } else if dt == DamageType::TauntBarbarianSwing {
        Some("taunt_demoman".to_owned())
    } else if dt == DamageType::TauntUberslice {
        Some("taunt_medic".to_owned())
    } else if dt == DamageType::TauntEngineerGuitarSmash {
        Some("taunt_guitar_kill".to_owned())
    } else if dt == DamageType::TauntEngineerArmKill {
        Some("robot_arm_blender_kill".to_owned())
    } else if dt == DamageType::TauntArmageddon {
        Some("armageddon".to_owned())
    } else if dt == DamageType::TauntGasBlast {
        Some("gas_blast".to_owned())
    } else if dt == DamageType::TauntAllclassGuitarRiff {
        Some("taunt_guitar_riff_kill".to_owned())
    } else {
        None
    }
}

/// The deflect log-name of a reflected projectile, by kind.
pub open spec fn spec_deflect_name(kind: ProjectileType) -> Seq<char> {
    if kind == ProjectileType::Pipe || kind == ProjectileType::IronBomber || kind
        == ProjectileType::LochNLoad || kind == ProjectileType::LooseCannon {
        "deflect_promode"@
    } else if spec_is_sticky_kind(kind) {
        "deflect_sticky"@
    } else if kind == ProjectileType::HuntsmanArrow || kind == ProjectileType::HealingBolt || kind
        == ProjectileType::RescueRanger {
        "deflect_arrow"@
    } else if kind == ProjectileType::Flare || kind == ProjectileType::DetonatorFlare || kind
        == ProjectileType::ManmelterFlare || kind == ProjectileType::ScorchShotFlare {
        "deflect_flare"@
    } else if kind == ProjectileType::Sandman || kind == ProjectileType::WrapAssassin {
        "deflect_ball"@
    } else if kind == ProjectileType::Jarate {
        "deflect_jar"@
    } else if kind == ProjectileType::MadMilk {
        "deflect_milk"@
    } else if kind == ProjectileType::GasPasser {
        "deflect_jar_gas"@
    } else if kind == ProjectileType::Cleaver {
        "deflect_cleaver"@
    } else {
        "deflect_rocket"@
    }
}

/// The sticky-bomb family, repeated here so the deflect table can branch on
/// it in one place.
pub open spec fn spec_is_sticky_kind(kind: ProjectileType) -> bool {
    ||| kind == ProjectileType::StickyBomb
    ||| kind == ProjectileType::StickyBombJumper
    ||| kind == ProjectileType::ScottishResistance
    ||| kind == ProjectileType::QuickieBomb
}

/// The fallback log-name of a projectile whose launcher item is unknown.
pub open spec fn spec_projectile_default_name(kind: ProjectileType) -> Seq<char> {
    if kind == ProjectileType::Rocket || kind == ProjectileType::SentryRocket {
        "tf_projectile_rocket"@
    } else if kind == ProjectileType::Pipe {
        "tf_projectile_pipe"@
    } else if kind == ProjectileType::StickyBomb || kind == ProjectileType::StickyBombJumper
        || kind == ProjectileType::ScottishResistance {
        "tf_projectile_pipe_remote"@
    } else if kind == ProjectileType::QuickieBomb {
        "quickiebomb_launcher"@
    } else if kind == ProjectileType::IronBomber {
        "iron_bomber"@
    } else if kind == ProjectileType::LochNLoad {
        "loch_n_load"@
    } else if kind == ProjectileType::LooseCannon {
        "loose_cannon"@
    } else if kind == ProjectileType::HuntsmanArrow {
        "tf_projectile_arrow"@
    } else if kind == ProjectileType::HealingBolt {
        "crusaders_crossbow"@
    } else if kind == ProjectileType::RescueRanger {
        "rescue_ranger"@
    } else if kind == ProjectileType::Flare {
        "flaregun"@
    } else if kind == ProjectileType::DetonatorFlare {
        "detonator"@
    } else if kind == ProjectileType::ManmelterFlare {
        "manmelter"@
    } else if kind == ProjectileType::ScorchShotFlare {
        "scorch_shot"@
    } else if kind == ProjectileType::EnergyRing {
        "energy_ring"@
    } else if kind == ProjectileType::CowMangler {
        "cow_mangler"@
    } else if kind == ProjectileType::ShortCircuit {
        "short_circuit"@
    } else if kind == ProjectileType::DragonsFuryFire {
        "dragons_fury"@
    } else if kind == ProjectileType::Sandman {
        "ball"@
    } else if kind == ProjectileType::WrapAssassin {
        "wrap_assassin"@
    } else if kind == ProjectileType::Cleaver {
        "guillotine"@
    } else if kind == ProjectileType::Jarate {
        "tf_projectile_jar"@
    } else if kind == ProjectileType::MadMilk {
        "tf_projectile_jar_milk"@
    } else if kind == ProjectileType::GasPasser {
        "tf_projectile_jar_gas"@
    } else {
        "UNKNOWN"@
    }
}

/// The log-name of a projectile kill: a projectile that was reflected onto
/// the opposing team names the deflect variant of its kind; otherwise the
/// launcher item's log-name, or the kind's fallback name.
pub open spec fn spec_projectile_log_name(
    kind: ProjectileType,
    is_reflected: bool,
    owner: u32,
    original_owner: u32,
    team: Team,
    victim_team: Team,
    logname: Option<Seq<char>>,
) -> Seq<char> {
    let reflected = is_reflected || owner != original_owner;
    if reflected && team != victim_team {
        spec_deflect_name(kind)
    } else {
        match logname {
            Some(l) => l,
            None => spec_projectile_default_name(kind),
        }
    }
}

/// Executable twin of [`spec_projectile_log_name`], reading the projectile's
/// own state and the launcher item if the schema knows it.
pub fn projectile_log_name(p: &Projectile, victim_team: Team, item: Option<&Item>) -> (r: String)
    ensures
        r@ == spec_projectile_log_name(
            p.kind,
            p.is_reflected,
            p.owner,
            p.original_owner,
            p.team,
            victim_team,
            match item {
                Some(i) => i@.item_logname,
                None => None,
            },
        ),
{
    let reflected = p.is_reflected || p.owner != p.original_owner;
    if reflected && p.team != victim_team {
        deflect_name(p.kind)
    } else {
        let mut logname: Option<String> = None;
        if let Some(i) = item {
            if let Some(l) = &i.item_logname {
                logname = Some(l.clone());
            }
        }
        match logname {
            Some(l) => l,
            None => projectile_default_name(p.kind),
        }
    }
}

/// Executable twin of [`spec_deflect_name`].
pub fn deflect_name(kind: ProjectileType) -> (r: String)
    ensures
        r@ == spec_deflect_name(kind),
{
    if kind == ProjectileType::Pipe || kind == ProjectileType::IronBomber || kind
        == ProjectileType::LochNLoad || kind == ProjectileType::LooseCannon {
        "deflect_promode".to_owned()
    } else if kind == ProjectileType::StickyBomb || kind == ProjectileType::StickyBombJumper
        || kind == ProjectileType::ScottishResistance || kind == ProjectileType::QuickieBomb {
        "deflect_sticky".to_owned()
    } else if kind == ProjectileType::HuntsmanArrow || kind == ProjectileType::HealingBolt || kind
        == ProjectileType::RescueRanger {
        "deflect_arrow".to_owned()
    } else if kind == ProjectileType::Flare || kind == ProjectileType::DetonatorFlare || kind
        == ProjectileType::ManmelterFlare || kind == ProjectileType::ScorchShotFlare {
        "deflect_flare".to_owned()
    } else if kind == ProjectileType::Sandman || kind == ProjectileType::WrapAssassin {
        "deflect_ball".to_owned()
    } else if kind == ProjectileType::Jarate {
        "deflect_jar".to_owned()
    } else if kind == ProjectileType::MadMilk {
        "deflect_milk".to_owned()
    } else if kind == ProjectileType::GasPasser {
        "deflect_jar_gas".to_owned()
    } else if kind == ProjectileType::Cleaver {
        "deflect_cleaver".to_owned()
    } else {
        "deflect_rocket".to_owned()
    }
}

/// Executable twin of [`spec_projectile_default_name`].
pub fn projectile_default_name(kind: ProjectileType) -> (r: String)
    ensures
        r@ == spec_projectile_default_name(kind),
{
    if kind == ProjectileType::Rocket || kind == ProjectileType::SentryRocket {
        "tf_projectile_rocket".to_owned()
    } else if kind == ProjectileType::Pipe {
        "tf_projectile_pipe".to_owned()
    } else if kind == ProjectileType::StickyBomb || kind == ProjectileType::StickyBombJumper
        || kind == ProjectileType::ScottishResistance {
        "tf_projectile_pipe_remote".to_owned()
    } else if kind == ProjectileType::QuickieBomb {
        "quickiebomb_launcher".to_owned()
    } else if kind == ProjectileType::IronBomber {
        "iron_bomber".to_owned()
    } else if kind == ProjectileType::LochNLoad {
        "loch_n_load".to_owned()
    } else if kind == ProjectileType::LooseCannon {
        "loose_cannon".to_owned()
    } else if kind == ProjectileType::HuntsmanArrow {
        "tf_projectile_arrow".to_owned()
    } else if kind == ProjectileType::HealingBolt {
        "crusaders_crossbow".to_owned()
    } else if kind == ProjectileType::RescueRanger {
        "rescue_ranger".to_owned()
    } else if kind == ProjectileType::Flare {
        "flaregun".to_owned()
    } else if kind == ProjectileType::DetonatorFlare {
        "detonator".to_owned()
    } else if kind == ProjectileType::ManmelterFlare {
        "manmelter".to_owned()
    } else if kind == ProjectileType::ScorchShotFlare {
        "scorch_shot".to_owned()
    } else if kind == ProjectileType::EnergyRing {
        "energy_ring".to_owned()
    } else if kind == ProjectileType::CowMangler {
        "cow_mangler".to_owned()
    } else if kind == ProjectileType::ShortCircuit {
        "short_circuit".to_owned()
    } else if kind == ProjectileType::DragonsFuryFire {
        "dragons_fury".to_owned()
    } else if kind == ProjectileType::Sandman {
        "ball".to_owned()
    } else if kind == ProjectileType::WrapAssassin {
        "wrap_assassin".to_owned()
    } else if kind == ProjectileType::Cleaver {
        "guillotine".to_owned()
    } else if kind == ProjectileType::Jarate {
        "tf_projectile_jar".to_owned()
    } else if kind == ProjectileType::MadMilk {
        "tf_projectile_jar_milk".to_owned()
    } else if kind == ProjectileType::GasPasser {
        "tf_projectile_jar_gas".to_owned()
    } else {
        "UNKNOWN".to_owned()
    }
}

/// The blast radius kept for a projectile entity class, in thousandths of a
/// unit: the stock splash radius for rockets and pipe bombs, a smaller one
/// for flares and energy balls, a conservative default elsewhere.
pub open spec fn spec_projectile_explosion_radius(class_name: Seq<char>) -> i64 {
    if class_name == "CTFProjectile_Rocket"@ || class_name == "CTFProjectile_SentryRocket"@
        || class_name == "CTFGrenadePipebombProjectile"@ {
        146_000
    } else if class_name == "CTFProjectile_Flare"@ || class_name == "CTFProjectile_EnergyBall"@ {
        110_000
    } else {
        100_000
    }
}

/// Executable twin of [`spec_projectile_explosion_radius`].
pub fn projectile_explosion_radius(class_name: &String) -> (r: i64)
    ensures
        r == spec_projectile_explosion_radius(class_name@),
        0 <= r <= crate::collide::HALF_LIMIT,
{
    if str_is(class_name, "CTFProjectile_Rocket") || str_is(class_name, "CTFProjectile_SentryRocket")
        || str_is(class_name, "CTFGrenadePipebombProjectile") {
        146_000
    } else if str_is(class_name, "CTFProjectile_Flare") || str_is(
        class_name,
        "CTFProjectile_EnergyBall",
    ) {
        110_000
    } else {
        100_000
    }
}

} // verus!
