//! Game-level enumerations and flag words shared by the whole analyzer:
//! round states, damage types, weapon ids, player animations, teams and
//! classes, together with their wire decoders and the flag bit constants.
use vstd::prelude::*;

verus! {

/// Sentinel for a networked entity handle that points at nothing.
pub const INVALID_HANDLE: u32 = 0x1FFFFF;

/// True for a handle that actually names an entity.
pub open spec fn spec_valid_handle(h: u32) -> bool {
    h != 0 && h != INVALID_HANDLE
}

/// Executable twin of [`spec_valid_handle`].
pub fn valid_handle(h: u32) -> (r: bool)
    ensures
        r == spec_valid_handle(h),
{
    h != 0 && h != INVALID_HANDLE
}

/// Player flag word bit: standing on the ground.
pub const ENTITY_ON_GROUND: u32 = 1;

/// Player flag word bit: submerged in water.
pub const ENTITY_IN_WATER: u32 = 512;

/// Death flag bit: the killer started dominating the victim.
pub const DEATH_DOMINATION: u16 = 1;

/// Death flag bit: the assister started dominating the victim.
pub const DEATH_ASSISTER_DOMINATION: u16 = 2;

/// Death flag bit: the killer took revenge on the victim.
pub const DEATH_REVENGE: u16 = 4;

/// Death flag bit: the assister took revenge on the victim.
pub const DEATH_ASSISTER_REVENGE: u16 = 8;

/// Death flag bit: the death was feigned (dead ringer).
pub const DEATH_FEIGNED: u16 = 32;

/// Damage bit: blast damage.
pub const DAMAGE_BLAST: u32 = 64;

/// Damage bit: the damage carries no physics push (kill-bind suicides).
pub const DAMAGE_PREVENT_PHYSICS_FORCE: u32 = 2048;

/// Entity effects bit: the entity is no longer drawn.
pub const EFFECT_NO_DRAW: u32 = 32;

/// True when the flag word `bits` has every bit of `mask` set.
pub open spec fn spec_has_bits_u16(bits: u16, mask: u16) -> bool {
    bits & mask == mask
}

/// Executable twin of [`spec_has_bits_u16`].
pub fn has_bits_u16(bits: u16, mask: u16) -> (r: bool)
    ensures
        r == spec_has_bits_u16(bits, mask),
{
    bits & mask == mask
}

/// True when the flag word `bits` has every bit of `mask` set.
pub open spec fn spec_has_bits_u32(bits: u32, mask: u32) -> bool {
    bits & mask == mask
}

/// Executable twin of [`spec_has_bits_u32`].
pub fn has_bits_u32(bits: u32, mask: u32) -> (r: bool)
    ensures
        r == spec_has_bits_u32(bits, mask),
{
    bits & mask == mask
}


#[derive(Clone, Copy, Debug, PartialEq, Eq, Structural)]
pub enum RoundState {
    Init,
    Pregame,
    StartGame,
    PreRound,
    RoundRunning,
    TeamWin,
    Restart,
    Stalemate,
    GameOver,
    Bonus,
    BetweenRounds,
}

pub open spec fn spec_round_state_from(x: u16) -> RoundState {
    if x == 0 {
        RoundState::Init
    } else if x == 1 {
        RoundState::Pregame
    } else if x == 2 {
        RoundState::StartGame
    } else if x == 3 {
        RoundState::PreRound
    } else if x == 4 {
        RoundState::RoundRunning
    } else if x == 5 {
        RoundState::TeamWin
    } else if x == 6 {
        RoundState::Restart
    } else if x == 7 {
        RoundState::Stalemate
    } else if x == 8 {
        RoundState::GameOver
    } else if x == 9 {
        RoundState::Bonus
    } else if x == 10 {
        RoundState::BetweenRounds
    } else {
        RoundState::Init
    }
}

/// Decodes the wire value for [`RoundState`]; out-of-range values fall back to
/// `RoundState::Init`, as unknown enum values are replaced by a default.
pub fn round_state_from_u16(x: u16) -> (r: RoundState)
    ensures
        r == spec_round_state_from(x),
{
    if x == 0 {
        RoundState::Init
    } else if x == 1 {
        RoundState::Pregame
    } else if x == 2 {
        RoundState::StartGame
    } else if x == 3 {
        RoundState::PreRound
    } else if x == 4 {
        RoundState::RoundRunning
    } else if x == 5 {
        RoundState::TeamWin
    } else if x == 6 {
        RoundState::Restart
    } else if x == 7 {
        RoundState::Stalemate
    } else if x == 8 {
        RoundState::GameOver
    } else if x == 9 {
        RoundState::Bonus
    } else if x == 10 {
        RoundState::BetweenRounds
    } else {
        RoundState::Init
    }
}

#[derive(Clone, Copy, Debug, PartialEq, Eq, Structural)]
pub enum Team {
    Other,
    Spectator,
    Red,
    Blue,
}

pub open spec fn spec_team_from(x: u8) -> Team {
    if x == 0 {
        Team::Other
    } else if x == 1 {
        Team::Spectator
    } else if x == 2 {
        Team::Red
    } else if x == 3 {
        Team::Blue
    } else {
        Team::Spectator
    }
}

/// Decodes the wire value for [`Team`]; out-of-range values fall back to
/// `Team::Spectator`, as unknown enum values are replaced by a default.
pub fn team_from_u8(x: u8) -> (r: Team)
    ensures
        r == spec_team_from(x),
{
    if x == 0 {
        Team::Other
    } else if x == 1 {
        Team::Spectator
    } else if x == 2 {
        Team::Red
    } else if x == 3 {
        Team::Blue
    } else {
        Team::Spectator
    }
}

#[derive(Clone, Copy, Debug, PartialEq, Eq, Structural)]
pub enum Class {
    Other,
    Scout,
    Sniper,
    Soldier,
    Demoman,
    Medic,
    Heavy,
    Pyro,
    Spy,
    Engineer,
}

pub open spec fn spec_class_from(x: u8) -> Class {
    if x == 0 {
        Class::Other
    } else if x == 1 {
        Class::Scout
    } else if x == 2 {
        Class::Sniper
    } else if x == 3 {
        Class::Soldier
    } else if x == 4 {
        Class::Demoman
    } else if x == 5 {
        Class::Medic
    } else if x == 6 {
        Class::Heavy
    } else if x == 7 {
        Class::Pyro
    } else if x == 8 {
        Class::Spy
    } else if x == 9 {
        Class::Engineer
    } else {
        Class::Other
    }
}

/// Decodes the wire value for [`Class`]; out-of-range values fall back to
/// `Class::Other`, as unknown enum values are replaced by a default.
pub fn class_from_u8(x: u8) -> (r: Class)
    ensures
        r == spec_class_from(x),
{
    if x == 0 {
        Class::Other
    } else if x == 1 {
        Class::Scout
    } else if x == 2 {
        Class::Sniper
    } else if x == 3 {
        Class::Soldier
    } else if x == 4 {
        Class::Demoman
    } else if x == 5 {
        Class::Medic
    } else if x == 6 {
        Class::Heavy
    } else if x == 7 {
        Class::Pyro
    } else if x == 8 {
        Class::Spy
    } else if x == 9 {
        Class::Engineer
    } else {
        Class::Other
    }
}

#[derive(Clone, Copy, Debug, PartialEq, Eq, Structural)]
pub enum GrenadeType {
    Pipe,
    Sticky,
    StickyJumper,
    Cannonball,
}

pub open spec fn spec_grenade_type_from(x: u16) -> GrenadeType {
    if x == 0 {
        GrenadeType::Pipe
    } else if x == 1 {
        GrenadeType::Sticky
    } else if x == 2 {
        GrenadeType::StickyJumper
    } else if x == 3 {
        GrenadeType::Cannonball
    } else {
        GrenadeType::Pipe
    }
}

/// Decodes the wire value for [`GrenadeType`]; out-of-range values fall back to
/// `GrenadeType::Pipe`, as unknown enum values are replaced by a default.
pub fn grenade_type_from_u16(x: u16) -> (r: GrenadeType)
    ensures
        r == spec_grenade_type_from(x),
{
    if x == 0 {
        GrenadeType::Pipe
    } else if x == 1 {
        GrenadeType::Sticky
    } else if x == 2 {
        GrenadeType::StickyJumper
    } else if x == 3 {
        GrenadeType::Cannonball
    } else {
        GrenadeType::Pipe
    }
}

#[derive(Clone, Copy, Debug, PartialEq, Eq, Structural)]
pub enum DamageType {
    Normal,
    Headshot,
    Backstab,
    Burning,
    WrenchFix,
    Minigun,
    Suicide,
    TauntHadouken,
    BurningFlare,
    TauntHighNoon,
    TauntGrandSlam,
    PenetrateMyTeam,
    PenetrateAllPlayers,
    TauntFencing,
    PenetrateNonburningTeammate,
    TauntArrowStab,
    Telefrag,
    BurningArrow,
    Flyingburn,
    PumpkinBomb,
    Decapitation,
    TauntGrenade,
    Baseball,
    ChargeImpact,
    TauntBarbarianSwing,
    AirStickyBurst,
    DefensiveSticky,
    Pickaxe,
    RocketDirecthit,
    TauntUberslice,
    PlayerSentry,
    StandardSticky,
    ShotgunRevengeCrit,
    TauntEngineerGuitarSmash,
    Bleeding,
    GoldWrench,
    CarriedBuilding,
    ComboPunch,
    TauntEngineerArmKill,
    FishKill,
    TriggerHurt,
    DecapitationBoss,
    StickbombExplosion,
    AegisRound,
    FlareExplosion,
    BootsStomp,
    Plasma,
    PlasmaCharged,
    PlasmaGib,
    PracticeSticky,
    EyeballRocket,
    HeadshotDecapitation,
    TauntArmageddon,
    FlarePellet,
    Cleaver,
    CleaverCrit,
    SapperRecorderDeath,
    MerasmusPlayerBomb,
    MerasmusGrenade,
    MerasmusZap,
    MerasmusDecapitation,
    CannonballPush,
    TauntAllclassGuitarRiff,
    Throwable,
    ThrowableKill,
    SpellTeleport,
    SpellSkeleton,
    SpellMirv,
    SpellMeteor,
    SpellLightning,
    SpellFireball,
    SpellMonoculus,
    SpellBlastjump,
    SpellBats,
    SpellTiny,
    Kart,
    GiantHammer,
    RuneReflect,
    DragonsFuryIgnite,
    DragonsFuryBonusBurning,
    SlapKill,
    Croc,
    TauntGasBlast,
    AxtinguisherBoosted,
}

pub open spec fn spec_damage_type_from(x: u16) -> DamageType {
    if x == 0 {
        DamageType::Normal
    } else if x == 1 {
        DamageType::Headshot
    } else if x == 2 {
        DamageType::Backstab
    } else if x == 3 {
        DamageType::Burning
    } else if x == 4 {
        DamageType::WrenchFix
    } else if x == 5 {
        DamageType::Minigun
    } else if x == 6 {
        DamageType::Suicide
    } else if x == 7 {
        DamageType::TauntHadouken
    } else if x == 8 {
        DamageType::BurningFlare
    } else if x == 9 {
        DamageType::TauntHighNoon
    } else if x == 10 {
        DamageType::TauntGrandSlam
    } else if x == 11 {
        DamageType::PenetrateMyTeam
    } else if x == 12 {
        DamageType::PenetrateAllPlayers
    } else if x == 13 {
        DamageType::TauntFencing
    } else if x == 14 {
        DamageType::PenetrateNonburningTeammate
    } else if x == 15 {
        DamageType::TauntArrowStab
    } else if x == 16 {
        DamageType::Telefrag
    } else if x == 17 {
        DamageType::BurningArrow
    } else if x == 18 {
        DamageType::Flyingburn
    } else if x == 19 {
        DamageType::PumpkinBomb
    } else if x == 20 {
        DamageType::Decapitation
    } else if x == 21 {
        DamageType::TauntGrenade
    } else if x == 22 {
        DamageType::Baseball
    } else if x == 23 {
        DamageType::ChargeImpact
    } else if x == 24 {
        DamageType::TauntBarbarianSwing
    } else if x == 25 {
        DamageType::AirStickyBurst
    } else if x == 26 {
        DamageType::DefensiveSticky
    } else if x == 27 {
        DamageType::Pickaxe
    } else if x == 28 {
        DamageType::RocketDirecthit
    } else if x == 29 {
        DamageType::TauntUberslice
    } else if x == 30 {
        DamageType::PlayerSentry
    } else if x == 31 {
        DamageType::StandardSticky
    } else if x == 32 {
        DamageType::ShotgunRevengeCrit
    } else if x == 33 {
        DamageType::TauntEngineerGuitarSmash
    } else if x == 34 {
        DamageType::Bleeding
    } else if x == 35 {
        DamageType::GoldWrench
    } else if x == 36 {
        DamageType::CarriedBuilding
    } else if x == 37 {
        DamageType::ComboPunch
    } else if x == 38 {
        DamageType::TauntEngineerArmKill
    } else if x == 39 {
        DamageType::FishKill
    } else if x == 40 {
        DamageType::TriggerHurt
    } else if x == 41 {
        DamageType::DecapitationBoss
    } else if x == 42 {
        DamageType::StickbombExplosion
    } else if x == 43 {
        DamageType::AegisRound
    } else if x == 44 {
        DamageType::FlareExplosion
    } else if x == 45 {
        DamageType::BootsStomp
    } else if x == 46 {
        DamageType::Plasma
    } else if x == 47 {
        DamageType::PlasmaCharged
    } else if x == 48 {
        DamageType::PlasmaGib
    } else if x == 49 {
        DamageType::PracticeSticky
    } else if x == 50 {
        DamageType::EyeballRocket
    } else if x == 51 {
        DamageType::HeadshotDecapitation
    } else if x == 52 {
        DamageType::TauntArmageddon
    } else if x == 53 {
        DamageType::FlarePellet
    } else if x == 54 {
        DamageType::Cleaver
    } else if x == 55 {
        DamageType::CleaverCrit
    } else if x == 56 {
        DamageType::SapperRecorderDeath
    } else if x == 57 {
        DamageType::MerasmusPlayerBomb
    } else if x == 58 {
        DamageType::MerasmusGrenade
    } else if x == 59 {
        DamageType::MerasmusZap
    } else if x == 60 {
        DamageType::MerasmusDecapitation
    } else if x == 61 {
        DamageType::CannonballPush
    } else if x == 62 {
        DamageType::TauntAllclassGuitarRiff
    } else if x == 63 {
        DamageType::Throwable
    } else if x == 64 {
        DamageType::ThrowableKill
    } else if x == 65 {
        DamageType::SpellTeleport
    } else if x == 66 {
        DamageType::SpellSkeleton
    } else if x == 67 {
        DamageType::SpellMirv
    } else if x == 68 {
        DamageType::SpellMeteor
    } else if x == 69 {
        DamageType::SpellLightning
    } else if x == 70 {
        DamageType::SpellFireball
    } else if x == 71 {
        DamageType::SpellMonoculus
    } else if x == 72 {
        DamageType::SpellBlastjump
    } else if x == 73 {
        DamageType::SpellBats
    } else if x == 74 {
        DamageType::SpellTiny
    } else if x == 75 {
        DamageType::Kart
    } else if x == 76 {
        DamageType::GiantHammer
    } else if x == 77 {
        DamageType::RuneReflect
    } else if x == 78 {
        DamageType::DragonsFuryIgnite
    } else if x == 79 {
        DamageType::DragonsFuryBonusBurning
    } else if x == 80 {
        DamageType::SlapKill
    } else if x == 81 {
        DamageType::Croc
    } else if x == 82 {
        DamageType::TauntGasBlast
    } else if x == 83 {
        DamageType::AxtinguisherBoosted
    } else {
        DamageType::Normal
    }
}

/// Decodes the wire value for [`DamageType`]; out-of-range values fall back to
/// `DamageType::Normal`, as unknown enum values are replaced by a default.
pub fn damage_type_from_u16(x: u16) -> (r: DamageType)
    ensures
        r == spec_damage_type_from(x),
{
    if x == 0 {
        DamageType::Normal
    } else if x == 1 {
        DamageType::Headshot
    } else if x == 2 {
        DamageType::Backstab
    } else if x == 3 {
        DamageType::Burning
    } else if x == 4 {
        DamageType::WrenchFix
    } else if x == 5 {
        DamageType::Minigun
    } else if x == 6 {
        DamageType::Suicide
    } else if x == 7 {
        DamageType::TauntHadouken
    } else if x == 8 {
        DamageType::BurningFlare
    } else if x == 9 {
        DamageType::TauntHighNoon
    } else if x == 10 {
        DamageType::TauntGrandSlam
    } else if x == 11 {
        DamageType::PenetrateMyTeam
    } else if x == 12 {
        DamageType::PenetrateAllPlayers
    } else if x == 13 {
        DamageType::TauntFencing
    } else if x == 14 {
        DamageType::PenetrateNonburningTeammate
    } else if x == 15 {
        DamageType::TauntArrowStab
    } else if x == 16 {
        DamageType::Telefrag
    } else if x == 17 {
        DamageType::BurningArrow
    } else if x == 18 {
        DamageType::Flyingburn
    } else if x == 19 {
        DamageType::PumpkinBomb
    } else if x == 20 {
        DamageType::Decapitation
    } else if x == 21 {
        DamageType::TauntGrenade
    } else if x == 22 {
        DamageType::Baseball
    } else if x == 23 {
        DamageType::ChargeImpact
    } else if x == 24 {
        DamageType::TauntBarbarianSwing
    } else if x == 25 {
        DamageType::AirStickyBurst
    } else if x == 26 {
        DamageType::DefensiveSticky
    } else if x == 27 {
        DamageType::Pickaxe
    } else if x == 28 {
        DamageType::RocketDirecthit
    } else if x == 29 {
        DamageType::TauntUberslice
    } else if x == 30 {
        DamageType::PlayerSentry
    } else if x == 31 {
        DamageType::StandardSticky
    } else if x == 32 {
        DamageType::ShotgunRevengeCrit
    } else if x == 33 {
        DamageType::TauntEngineerGuitarSmash
    } else if x == 34 {
        DamageType::Bleeding
    } else if x == 35 {
        DamageType::GoldWrench
    } else if x == 36 {
        DamageType::CarriedBuilding
    } else if x == 37 {
        DamageType::ComboPunch
    } else if x == 38 {
        DamageType::TauntEngineerArmKill
    } else if x == 39 {
        DamageType::FishKill
    } else if x == 40 {
        DamageType::TriggerHurt
    } else if x == 41 {
        DamageType::DecapitationBoss
    } else if x == 42 {
        DamageType::StickbombExplosion
    } else if x == 43 {
        DamageType::AegisRound
    } else if x == 44 {
        DamageType::FlareExplosion
    } else if x == 45 {
        DamageType::BootsStomp
    } else if x == 46 {
        DamageType::Plasma
    } else if x == 47 {
        DamageType::PlasmaCharged
    } else if x == 48 {
        DamageType::PlasmaGib
    } else if x == 49 {
        DamageType::PracticeSticky
    } else if x == 50 {
        DamageType::EyeballRocket
    } else if x == 51 {
        DamageType::HeadshotDecapitation
    } else if x == 52 {
        DamageType::TauntArmageddon
    } else if x == 53 {
        DamageType::FlarePellet
    } else if x == 54 {
        DamageType::Cleaver
    } else if x == 55 {
        DamageType::CleaverCrit
    } else if x == 56 {
        DamageType::SapperRecorderDeath
    } else if x == 57 {
        DamageType::MerasmusPlayerBomb
    } else if x == 58 {
        DamageType::MerasmusGrenade
    } else if x == 59 {
        DamageType::MerasmusZap
    } else if x == 60 {
        DamageType::MerasmusDecapitation
    } else if x == 61 {
        DamageType::CannonballPush
    } else if x == 62 {
        DamageType::TauntAllclassGuitarRiff
    } else if x == 63 {
        DamageType::Throwable
    } else if x == 64 {
        DamageType::ThrowableKill
    } else if x == 65 {
        DamageType::SpellTeleport
    } else if x == 66 {
        DamageType::SpellSkeleton
    } else if x == 67 {
        DamageType::SpellMirv
    } else if x == 68 {
        DamageType::SpellMeteor
    } else if x == 69 {
        DamageType::SpellLightning
    } else if x == 70 {
        DamageType::SpellFireball
    } else if x == 71 {
        DamageType::SpellMonoculus
    } else if x == 72 {
        DamageType::SpellBlastjump
    } else if x == 73 {
        DamageType::SpellBats
    } else if x == 74 {
        DamageType::SpellTiny
    } else if x == 75 {
        DamageType::Kart
    } else if x == 76 {
        DamageType::GiantHammer
    } else if x == 77 {
        DamageType::RuneReflect
    } else if x == 78 {
        DamageType::DragonsFuryIgnite
    } else if x == 79 {
        DamageType::DragonsFuryBonusBurning
    } else if x == 80 {
        DamageType::SlapKill
    } else if x == 81 {
        DamageType::Croc
    } else if x == 82 {
        DamageType::TauntGasBlast
    } else if x == 83 {
        DamageType::AxtinguisherBoosted
    } else {
        DamageType::Normal
    }
}

#[derive(Clone, Copy, Debug, PartialEq, Eq, Structural)]
pub enum WeaponId {
    WeaponNone,
    WeaponBat,
    WeaponBatWood,
    WeaponBottle,
    WeaponFireaxe,
    WeaponClub,
    WeaponCrowbar,
    WeaponKnife,
    WeaponFists,
    WeaponShovel,
    WeaponWrench,
    WeaponBonesaw,
    WeaponShotgunPrimary,
    WeaponShotgunSoldier,
    WeaponShotgunHwg,
    WeaponShotgunPyro,
    WeaponScattergun,
    WeaponSniperrifle,
    WeaponMinigun,
    WeaponSmg,
    WeaponSyringegunMedic,
    WeaponTranq,
    WeaponRocketlauncher,
    WeaponGrenadelauncher,
    WeaponPipebomblauncher,
    WeaponFlamethrower,
    WeaponGrenadeNormal,
    WeaponGrenadeConcussion,
    WeaponGrenadeNail,
    WeaponGrenadeMirv,
    WeaponGrenadeMirvDemoman,
    WeaponGrenadeNapalm,
    WeaponGrenadeGas,
    WeaponGrenadeEmp,
    WeaponGrenadeCaltrop,
    WeaponGrenadePipebomb,
    WeaponGrenadeSmokeBomb,
    WeaponGrenadeHeal,
    WeaponGrenadeStunball,
    WeaponGrenadeJar,
    WeaponGrenadeJarMilk,
    WeaponPistol,
    WeaponPistolScout,
    WeaponRevolver,
    WeaponNailgun,
    WeaponPda,
    WeaponPdaEngineerBuild,
    WeaponPdaEngineerDestroy,
    WeaponPdaSpy,
    WeaponBuilder,
    WeaponMedigun,
    WeaponGrenadeMirvbomb,
    WeaponFlamethrowerRocket,
    WeaponGrenadeDemoman,
    WeaponSentryBullet,
    WeaponSentryRocket,
    WeaponDispenser,
    WeaponInvis,
    WeaponFlaregun,
    WeaponLunchbox,
    WeaponJar,
    WeaponCompoundBow,
    WeaponBuffItem,
    WeaponPumpkinBomb,
    WeaponSword,
    WeaponRocketlauncherDirecthit,
    WeaponLifeline,
    WeaponLaserPointer,
    WeaponDispenserGun,
    WeaponSentryRevenge,
    WeaponJarMilk,
    WeaponHandgunScoutPrimary,
    WeaponBatFish,
    WeaponCrossbow,
    WeaponStickbomb,
    WeaponHandgunScoutSecondary,
    WeaponSodaPopper,
    WeaponSniperrifleDecap,
    WeaponRaygun,
    WeaponParticleCannon,
    WeaponMechanicalArm,
    WeaponDrgPomson,
    WeaponBatGiftwrap,
    WeaponGrenadeOrnamentBall,
    WeaponFlaregunRevenge,
    WeaponPepBrawlerBlaster,
    WeaponCleaver,
    WeaponGrenadeCleaver,
    WeaponStickyBallLauncher,
    WeaponGrenadeStickyBall,
    WeaponShotgunBuildingRescue,
    WeaponCannon,
    WeaponThrowable,
    WeaponGrenadeThrowable,
    WeaponPdaSpyBuild,
    WeaponGrenadeWaterballoon,
    WeaponHarvesterSaw,
    WeaponSpellbook,
    WeaponSpellbookProjectile,
    WeaponSniperrifleClassic,
    WeaponParachute,
    WeaponGrapplinghook,
    WeaponPasstimeGun,
    WeaponSniperrifleRevolver,
    WeaponChargedSmg,
}

pub open spec fn spec_weapon_id_from(x: u16) -> WeaponId {
    if x == 0 {
        WeaponId::WeaponNone
    } else if x == 1 {
        WeaponId::WeaponBat
    } else if x == 2 {
        WeaponId::WeaponBatWood
    } else if x == 3 {
        WeaponId::WeaponBottle
    } else if x == 4 {
        WeaponId::WeaponFireaxe
    } else if x == 5 {
        WeaponId::WeaponClub
    } else if x == 6 {
        WeaponId::WeaponCrowbar
    } else if x == 7 {
        WeaponId::WeaponKnife
    } else if x == 8 {
        WeaponId::WeaponFists
    } else if x == 9 {
        WeaponId::WeaponShovel
    } else if x == 10 {
        WeaponId::WeaponWrench
    } else if x == 11 {
        WeaponId::WeaponBonesaw
    } else if x == 12 {
        WeaponId::WeaponShotgunPrimary
    } else if x == 13 {
        WeaponId::WeaponShotgunSoldier
    } else if x == 14 {
        WeaponId::WeaponShotgunHwg
    } else if x == 15 {
        WeaponId::WeaponShotgunPyro
    } else if x == 16 {
        WeaponId::WeaponScattergun
    } else if x == 17 {
        WeaponId::WeaponSniperrifle
    } else if x == 18 {
        WeaponId::WeaponMinigun
    } else if x == 19 {
        WeaponId::WeaponSmg
    } else if x == 20 {
        WeaponId::WeaponSyringegunMedic
    } else if x == 21 {
        WeaponId::WeaponTranq
    } else if x == 22 {
        WeaponId::WeaponRocketlauncher
    } else if x == 23 {
        WeaponId::WeaponGrenadelauncher
    } else if x == 24 {
        WeaponId::WeaponPipebomblauncher
    } else if x == 25 {
        WeaponId::WeaponFlamethrower
    } else if x == 26 {
        WeaponId::WeaponGrenadeNormal
    } else if x == 27 {
        WeaponId::WeaponGrenadeConcussion
    } else if x == 28 {
        WeaponId::WeaponGrenadeNail
    } else if x == 29 {
        WeaponId::WeaponGrenadeMirv
    } else if x == 30 {
        WeaponId::WeaponGrenadeMirvDemoman
    } else if x == 31 {
        WeaponId::WeaponGrenadeNapalm
    } else if x == 32 {
        WeaponId::WeaponGrenadeGas
    } else if x == 33 {
        WeaponId::WeaponGrenadeEmp
    } else if x == 34 {
        WeaponId::WeaponGrenadeCaltrop
    } else if x == 35 {
        WeaponId::WeaponGrenadePipebomb
    } else if x == 36 {
        WeaponId::WeaponGrenadeSmokeBomb
    } else if x == 37 {
        WeaponId::WeaponGrenadeHeal
    } else if x == 38 {
        WeaponId::WeaponGrenadeStunball
    } else if x == 39 {
        WeaponId::WeaponGrenadeJar
    } else if x == 40 {
        WeaponId::WeaponGrenadeJarMilk
    } else if x == 41 {
        WeaponId::WeaponPistol
    } else if x == 42 {
        WeaponId::WeaponPistolScout
    } else if x == 43 {
        WeaponId::WeaponRevolver
    } else if x == 44 {
        WeaponId::WeaponNailgun
    } else if x == 45 {
        WeaponId::WeaponPda
    } else if x == 46 {
        WeaponId::WeaponPdaEngineerBuild
    } else if x == 47 {
        WeaponId::WeaponPdaEngineerDestroy
    } else if x == 48 {
        WeaponId::WeaponPdaSpy
    } else if x == 49 {
        WeaponId::WeaponBuilder
    } else if x == 50 {
        WeaponId::WeaponMedigun
    } else if x == 51 {
        WeaponId::WeaponGrenadeMirvbomb
    } else if x == 52 {
        WeaponId::WeaponFlamethrowerRocket
    } else if x == 53 {
        WeaponId::WeaponGrenadeDemoman
    } else if x == 54 {
        WeaponId::WeaponSentryBullet
    } else if x == 55 {
        WeaponId::WeaponSentryRocket
    } else if x == 56 {
        WeaponId::WeaponDispenser
    } else if x == 57 {
        WeaponId::WeaponInvis
    } else if x == 58 {
        WeaponId::WeaponFlaregun
    } else if x == 59 {
        WeaponId::WeaponLunchbox
    } else if x == 60 {
        WeaponId::WeaponJar
    } else if x == 61 {
        WeaponId::WeaponCompoundBow
    } else if x == 62 {
        WeaponId::WeaponBuffItem
    } else if x == 63 {
        WeaponId::WeaponPumpkinBomb
    } else if x == 64 {
        WeaponId::WeaponSword
    } else if x == 65 {
        WeaponId::WeaponRocketlauncherDirecthit
    } else if x == 66 {
        WeaponId::WeaponLifeline
    } else if x == 67 {
        WeaponId::WeaponLaserPointer
    } else if x == 68 {
        WeaponId::WeaponDispenserGun
    } else if x == 69 {
        WeaponId::WeaponSentryRevenge
    } else if x == 70 {
        WeaponId::WeaponJarMilk
    } else if x == 71 {
        WeaponId::WeaponHandgunScoutPrimary
    } else if x == 72 {
        WeaponId::WeaponBatFish
    } else if x == 73 {
        WeaponId::WeaponCrossbow
    } else if x == 74 {
        WeaponId::WeaponStickbomb
    } else if x == 75 {
        WeaponId::WeaponHandgunScoutSecondary
    } else if x == 76 {
        WeaponId::WeaponSodaPopper
    } else if x == 77 {
        WeaponId::WeaponSniperrifleDecap
    } else if x == 78 {
        WeaponId::WeaponRaygun
    } else if x == 79 {
        WeaponId::WeaponParticleCannon
    } else if x == 80 {
        WeaponId::WeaponMechanicalArm
    } else if x == 81 {
        WeaponId::WeaponDrgPomson
    } else if x == 82 {
        WeaponId::WeaponBatGiftwrap
    } else if x == 83 {
        WeaponId::WeaponGrenadeOrnamentBall
    } else if x == 84 {
        WeaponId::WeaponFlaregunRevenge
    } else if x == 85 {
        WeaponId::WeaponPepBrawlerBlaster
    } else if x == 86 {
        WeaponId::WeaponCleaver
    } else if x == 87 {
        WeaponId::WeaponGrenadeCleaver
    } else if x == 88 {
        WeaponId::WeaponStickyBallLauncher
    } else if x == 89 {
        WeaponId::WeaponGrenadeStickyBall
    } else if x == 90 {
        WeaponId::WeaponShotgunBuildingRescue
    } else if x == 91 {
        WeaponId::WeaponCannon
    } else if x == 92 {
        WeaponId::WeaponThrowable
    } else if x == 93 {
        WeaponId::WeaponGrenadeThrowable
    } else if x == 94 {
        WeaponId::WeaponPdaSpyBuild
    } else if x == 95 {
        WeaponId::WeaponGrenadeWaterballoon
    } else if x == 96 {
        WeaponId::WeaponHarvesterSaw
    } else if x == 97 {
        WeaponId::WeaponSpellbook
    } else if x == 98 {
        WeaponId::WeaponSpellbookProjectile
    } else if x == 99 {
        WeaponId::WeaponSniperrifleClassic
    } else if x == 100 {
        WeaponId::WeaponParachute
    } else if x == 101 {
        WeaponId::WeaponGrapplinghook
    } else if x == 102 {
        WeaponId::WeaponPasstimeGun
    } else if x == 103 {
        WeaponId::WeaponSniperrifleRevolver
    } else if x == 104 {
        WeaponId::WeaponChargedSmg
    } else {
        WeaponId::WeaponNone
    }
}

/// Decodes the wire value for [`WeaponId`]; out-of-range values fall back to
/// `WeaponId::WeaponNone`, as unknown enum values are replaced by a default.
pub fn weapon_id_from_u16(x: u16) -> (r: WeaponId)
    ensures
        r == spec_weapon_id_from(x),
{
    if x == 0 {
        WeaponId::WeaponNone
    } else if x == 1 {
        WeaponId::WeaponBat
    } else if x == 2 {
        WeaponId::WeaponBatWood
    } else if x == 3 {
        WeaponId::WeaponBottle
    } else if x == 4 {
        WeaponId::WeaponFireaxe
    } else if x == 5 {
        WeaponId::WeaponClub
    } else if x == 6 {
        WeaponId::WeaponCrowbar
    } else if x == 7 {
        WeaponId::WeaponKnife
    } else if x == 8 {
        WeaponId::WeaponFists
    } else if x == 9 {
        WeaponId::WeaponShovel
    } else if x == 10 {
        WeaponId::WeaponWrench
    } else if x == 11 {
        WeaponId::WeaponBonesaw
    } else if x == 12 {
        WeaponId::WeaponShotgunPrimary
    } else if x == 13 {
        WeaponId::WeaponShotgunSoldier
    } else if x == 14 {
        WeaponId::WeaponShotgunHwg
    } else if x == 15 {
        WeaponId::WeaponShotgunPyro
    } else if x == 16 {
        WeaponId::WeaponScattergun
    } else if x == 17 {
        WeaponId::WeaponSniperrifle
    } else if x == 18 {
        WeaponId::WeaponMinigun
    } else if x == 19 {
        WeaponId::WeaponSmg
    } else if x == 20 {
        WeaponId::WeaponSyringegunMedic
    } else if x == 21 {
        WeaponId::WeaponTranq
    } else if x == 22 {
        WeaponId::WeaponRocketlauncher
    } else if x == 23 {
        WeaponId::WeaponGrenadelauncher
    } else if x == 24 {
        WeaponId::WeaponPipebomblauncher
    } else if x == 25 {
        WeaponId::WeaponFlamethrower
    } else if x == 26 {
        WeaponId::WeaponGrenadeNormal
    } else if x == 27 {
        WeaponId::WeaponGrenadeConcussion
    } else if x == 28 {
        WeaponId::WeaponGrenadeNail
    } else if x == 29 {
        WeaponId::WeaponGrenadeMirv
    } else if x == 30 {
        WeaponId::WeaponGrenadeMirvDemoman
    } else if x == 31 {
        WeaponId::WeaponGrenadeNapalm
    } else if x == 32 {
        WeaponId::WeaponGrenadeGas
    } else if x == 33 {
        WeaponId::WeaponGrenadeEmp
    } else if x == 34 {
        WeaponId::WeaponGrenadeCaltrop
    } else if x == 35 {
        WeaponId::WeaponGrenadePipebomb
    } else if x == 36 {
        WeaponId::WeaponGrenadeSmokeBomb
    } else if x == 37 {
        WeaponId::WeaponGrenadeHeal
    } else if x == 38 {
        WeaponId::WeaponGrenadeStunball
    } else if x == 39 {
        WeaponId::WeaponGrenadeJar
    } else if x == 40 {
        WeaponId::WeaponGrenadeJarMilk
    } else if x == 41 {
        WeaponId::WeaponPistol
    } else if x == 42 {
        WeaponId::WeaponPistolScout
    } else if x == 43 {
        WeaponId::WeaponRevolver
    } else if x == 44 {
        WeaponId::WeaponNailgun
    } else if x == 45 {
        WeaponId::WeaponPda
    } else if x == 46 {
        WeaponId::WeaponPdaEngineerBuild
    } else if x == 47 {
        WeaponId::WeaponPdaEngineerDestroy
    } else if x == 48 {
        WeaponId::WeaponPdaSpy
    } else if x == 49 {
        WeaponId::WeaponBuilder
    } else if x == 50 {
        WeaponId::WeaponMedigun
    } else if x == 51 {
        WeaponId::WeaponGrenadeMirvbomb
    } else if x == 52 {
        WeaponId::WeaponFlamethrowerRocket
    } else if x == 53 {
        WeaponId::WeaponGrenadeDemoman
    } else if x == 54 {
        WeaponId::WeaponSentryBullet
    } else if x == 55 {
        WeaponId::WeaponSentryRocket
    } else if x == 56 {
        WeaponId::WeaponDispenser
    } else if x == 57 {
        WeaponId::WeaponInvis
    } else if x == 58 {
        WeaponId::WeaponFlaregun
    } else if x == 59 {
        WeaponId::WeaponLunchbox
    } else if x == 60 {
        WeaponId::WeaponJar
    } else if x == 61 {
        WeaponId::WeaponCompoundBow
    } else if x == 62 {
        WeaponId::WeaponBuffItem
    } else if x == 63 {
        WeaponId::WeaponPumpkinBomb
    } else if x == 64 {
        WeaponId::WeaponSword
    } else if x == 65 {
        WeaponId::WeaponRocketlauncherDirecthit
    } else if x == 66 {
        WeaponId::WeaponLifeline
    } else if x == 67 {
        WeaponId::WeaponLaserPointer
    } else if x == 68 {
        WeaponId::WeaponDispenserGun
    } else if x == 69 {
        WeaponId::WeaponSentryRevenge
    } else if x == 70 {
        WeaponId::WeaponJarMilk
    } else if x == 71 {
        WeaponId::WeaponHandgunScoutPrimary
    } else if x == 72 {
        WeaponId::WeaponBatFish
    } else if x == 73 {
        WeaponId::WeaponCrossbow
    } else if x == 74 {
        WeaponId::WeaponStickbomb
    } else if x == 75 {
        WeaponId::WeaponHandgunScoutSecondary
    } else if x == 76 {
        WeaponId::WeaponSodaPopper
    } else if x == 77 {
        WeaponId::WeaponSniperrifleDecap
    } else if x == 78 {
        WeaponId::WeaponRaygun
    } else if x == 79 {
        WeaponId::WeaponParticleCannon
    } else if x == 80 {
        WeaponId::WeaponMechanicalArm
    } else if x == 81 {
        WeaponId::WeaponDrgPomson
    } else if x == 82 {
        WeaponId::WeaponBatGiftwrap
    } else if x == 83 {
        WeaponId::WeaponGrenadeOrnamentBall
    } else if x == 84 {
        WeaponId::WeaponFlaregunRevenge
    } else if x == 85 {
        WeaponId::WeaponPepBrawlerBlaster
    } else if x == 86 {
        WeaponId::WeaponCleaver
    } else if x == 87 {
        WeaponId::WeaponGrenadeCleaver
    } else if x == 88 {
        WeaponId::WeaponStickyBallLauncher
    } else if x == 89 {
        WeaponId::WeaponGrenadeStickyBall
    } else if x == 90 {
        WeaponId::WeaponShotgunBuildingRescue
    } else if x == 91 {
        WeaponId::WeaponCannon
    } else if x == 92 {
        WeaponId::WeaponThrowable
    } else if x == 93 {
        WeaponId::WeaponGrenadeThrowable
    } else if x == 94 {
        WeaponId::WeaponPdaSpyBuild
    } else if x == 95 {
        WeaponId::WeaponGrenadeWaterballoon
    } else if x == 96 {
        WeaponId::WeaponHarvesterSaw
    } else if x == 97 {
        WeaponId::WeaponSpellbook
    } else if x == 98 {
        WeaponId::WeaponSpellbookProjectile
    } else if x == 99 {
        WeaponId::WeaponSniperrifleClassic
    } else if x == 100 {
        WeaponId::WeaponParachute
    } else if x == 101 {
        WeaponId::WeaponGrapplinghook
    } else if x == 102 {
        WeaponId::WeaponPasstimeGun
    } else if x == 103 {
        WeaponId::WeaponSniperrifleRevolver
    } else if x == 104 {
        WeaponId::WeaponChargedSmg
    } else {
        WeaponId::WeaponNone
    }
}

#[derive(Clone, Copy, Debug, PartialEq, Eq, Structural)]
pub enum PlayerAnim {
    AttackPrimary,
    AttackSecondary,
    AttackGrenade,
    Reload,
    ReloadLoop,
    ReloadEnd,
    Jump,
    Swim,
    Die,
    FlinchChest,
    FlinchHead,
    FlinchLeftarm,
    FlinchRightarm,
    FlinchLeftleg,
    FlinchRightleg,
    Doublejump,
    Cancel,
    Spawn,
    SnapYaw,
    Custom,
    CustomGesture,
    CustomSequence,
    CustomGestureSequence,
    AttackPre,
    AttackPost,
    Grenade1Draw,
    Grenade2Draw,
    Grenade1Throw,
    Grenade2Throw,
    VoiceCommandGesture,
    DoublejumpCrouch,
    StunBegin,
    StunMiddle,
    StunEnd,
    PasstimeThrowBegin,
    PasstimeThrowMiddle,
    PasstimeThrowEnd,
    PasstimeThrowCancel,
    AttackPrimarySuper,
}

pub open spec fn spec_player_anim_from(x: u32) -> PlayerAnim {
    if x == 0 {
        PlayerAnim::AttackPrimary
    } else if x == 1 {
        PlayerAnim::AttackSecondary
    } else if x == 2 {
        PlayerAnim::AttackGrenade
    } else if x == 3 {
        PlayerAnim::Reload
    } else if x == 4 {
        PlayerAnim::ReloadLoop
    } else if x == 5 {
        PlayerAnim::ReloadEnd
    } else if x == 6 {
        PlayerAnim::Jump
    } else if x == 7 {
        PlayerAnim::Swim
    } else if x == 8 {
        PlayerAnim::Die
    } else if x == 9 {
        PlayerAnim::FlinchChest
    } else if x == 10 {
        PlayerAnim::FlinchHead
    } else if x == 11 {
        PlayerAnim::FlinchLeftarm
    } else if x == 12 {
        PlayerAnim::FlinchRightarm
    } else if x == 13 {
        PlayerAnim::FlinchLeftleg
    } else if x == 14 {
        PlayerAnim::FlinchRightleg
    } else if x == 15 {
        PlayerAnim::Doublejump
    } else if x == 16 {
        PlayerAnim::Cancel
    } else if x == 17 {
        PlayerAnim::Spawn
    } else if x == 18 {
        PlayerAnim::SnapYaw
    } else if x == 19 {
        PlayerAnim::Custom
    } else if x == 20 {
        PlayerAnim::CustomGesture
    } else if x == 21 {
        PlayerAnim::CustomSequence
    } else if x == 22 {
        PlayerAnim::CustomGestureSequence
    } else if x == 23 {
        PlayerAnim::AttackPre
    } else if x == 24 {
        PlayerAnim::AttackPost
    } else if x == 25 {
        PlayerAnim::Grenade1Draw
    } else if x == 26 {
        PlayerAnim::Grenade2Draw
    } else if x == 27 {
        PlayerAnim::Grenade1Throw
    } else if x == 28 {
        PlayerAnim::Grenade2Throw
    } else if x == 29 {
        PlayerAnim::VoiceCommandGesture
    } else if x == 30 {
        PlayerAnim::DoublejumpCrouch
    } else if x == 31 {
        PlayerAnim::StunBegin
    } else if x == 32 {
        PlayerAnim::StunMiddle
    } else if x == 33 {
        PlayerAnim::StunEnd
    } else if x == 34 {
        PlayerAnim::PasstimeThrowBegin
    } else if x == 35 {
        PlayerAnim::PasstimeThrowMiddle
    } else if x == 36 {
        PlayerAnim::PasstimeThrowEnd
    } else if x == 37 {
        PlayerAnim::PasstimeThrowCancel
    } else if x == 38 {
        PlayerAnim::AttackPrimarySuper
    } else {
        PlayerAnim::Cancel
    }
}

/// Decodes the wire value for [`PlayerAnim`]; out-of-range values fall back to
/// `PlayerAnim::Cancel`, as unknown enum values are replaced by a default.
pub fn player_anim_from_u32(x: u32) -> (r: PlayerAnim)
    ensures
        r == spec_player_anim_from(x),
{
    if x == 0 {
        PlayerAnim::AttackPrimary
    } else if x == 1 {
        PlayerAnim::AttackSecondary
    } else if x == 2 {
        PlayerAnim::AttackGrenade
    } else if x == 3 {
        PlayerAnim::Reload
    } else if x == 4 {
        PlayerAnim::ReloadLoop
    } else if x == 5 {
        PlayerAnim::ReloadEnd
    } else if x == 6 {
        PlayerAnim::Jump
    } else if x == 7 {
        PlayerAnim::Swim
    } else if x == 8 {
        PlayerAnim::Die
    } else if x == 9 {
        PlayerAnim::FlinchChest
    } else if x == 10 {
        PlayerAnim::FlinchHead
    } else if x == 11 {
        PlayerAnim::FlinchLeftarm
    } else if x == 12 {
        PlayerAnim::FlinchRightarm
    } else if x == 13 {
        PlayerAnim::FlinchLeftleg
    } else if x == 14 {
        PlayerAnim::FlinchRightleg
    } else if x == 15 {
        PlayerAnim::Doublejump
    } else if x == 16 {
        PlayerAnim::Cancel
    } else if x == 17 {
        PlayerAnim::Spawn
    } else if x == 18 {
        PlayerAnim::SnapYaw
    } else if x == 19 {
        PlayerAnim::Custom
    } else if x == 20 {
        PlayerAnim::CustomGesture
    } else if x == 21 {
        PlayerAnim::CustomSequence
    } else if x == 22 {
        PlayerAnim::CustomGestureSequence
    } else if x == 23 {
        PlayerAnim::AttackPre
    } else if x == 24 {
        PlayerAnim::AttackPost
    } else if x == 25 {
        PlayerAnim::Grenade1Draw
    } else if x == 26 {
        PlayerAnim::Grenade2Draw
    } else if x == 27 {
        PlayerAnim::Grenade1Throw
    } else if x == 28 {
        PlayerAnim::Grenade2Throw
    } else if x == 29 {
        PlayerAnim::VoiceCommandGesture
    } else if x == 30 {
        PlayerAnim::DoublejumpCrouch
    } else if x == 31 {
        PlayerAnim::StunBegin
    } else if x == 32 {
        PlayerAnim::StunMiddle
    } else if x == 33 {
        PlayerAnim::StunEnd
    } else if x == 34 {
        PlayerAnim::PasstimeThrowBegin
    } else if x == 35 {
        PlayerAnim::PasstimeThrowMiddle
    } else if x == 36 {
        PlayerAnim::PasstimeThrowEnd
    } else if x == 37 {
        PlayerAnim::PasstimeThrowCancel
    } else if x == 38 {
        PlayerAnim::AttackPrimarySuper
    } else {
        PlayerAnim::Cancel
    }
}

} // verus!
