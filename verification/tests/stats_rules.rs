//! Unit checks of the counting rules and the name tables.
use tf2_demostats::entity::projectile::{is_arrow, is_sticky, can_hurt_without_exploding, ProjectileType};
use tf2_demostats::game::{Class, DamageType, RoundState, DEATH_FEIGNED};
use tf2_demostats::stats::{HealersSummary, Stats};
use tf2_demostats::summary::PlayerSummary;
use tf2_demostats::weapon::{is_sentry, sentry_name, taunt_log_name};

#[test]
fn kill_rules() {
    let mut s = Stats::new();
    s.handle_kill(RoundState::RoundRunning, 0, DamageType::Normal, true);
    assert_eq!(s.kills, 1);
    assert_eq!(s.airshots, 1);
    s.handle_kill(RoundState::TeamWin, 0, DamageType::Normal, false);
    assert_eq!(s.kills, 1);
    assert_eq!(s.postround_kills, 1);
    s.handle_kill(RoundState::RoundRunning, DEATH_FEIGNED, DamageType::Normal, false);
    assert_eq!(s.kills, 1);
    s.handle_kill(RoundState::RoundRunning, 0, DamageType::Headshot, false);
    assert_eq!(s.headshot_kills, 1);
}

#[test]
fn death_rules() {
    let mut s = Stats::new();
    s.handle_death(RoundState::RoundRunning, 0);
    assert_eq!(s.deaths, 1);
    s.handle_death(RoundState::TeamWin, 0);
    assert_eq!(s.deaths, 1);
    assert_eq!(s.postround_deaths, 1);
    s.handle_death(RoundState::RoundRunning, DEATH_FEIGNED);
    assert_eq!(s.deaths, 1);
}

#[test]
fn healing_phases() {
    let mut s = Stats::new();
    s.handle_healing(RoundState::PreRound, 10);
    s.handle_healing(RoundState::RoundRunning, 20);
    s.handle_healing(RoundState::TeamWin, 30);
    assert_eq!(s.preround_healing, 10);
    assert_eq!(s.healing, 20);
    assert_eq!(s.postround_healing, 30);
}

#[test]
fn shots_captures() {
    let mut s = Stats::new();
    s.handle_fire_shot();
    s.handle_fire_shot();
    s.handle_shot_hit();
    s.handle_capture();
    s.handle_capture_blocked();
    assert_eq!(s.shots, 2);
    assert_eq!(s.hits, 1);
    assert_eq!(s.captures, 1);
    assert_eq!(s.captures_blocked, 1);
}

fn medic(charge: u32) -> PlayerSummary {
    let mut p = PlayerSummary::new(
        "m".to_owned(),
        "STEAM_0:0:9".to_owned(),
        1,
        1,
        false,
        false,
        false,
    );
    p.class = Class::Medic;
    p.charge = charge;
    p
}

#[test]
fn medic_drop_at_full_charge() {
    let mut p = medic(1000);
    p.handle_death(RoundState::RoundRunning, 0);
    assert_eq!(p.healing.drops, 1);
    assert_eq!(p.healing.near_full_charge_death, 0);
}

#[test]
fn medic_near_full_charge_death() {
    let mut p = medic(960);
    p.handle_death(RoundState::RoundRunning, 0);
    assert_eq!(p.healing.drops, 0);
    assert_eq!(p.healing.near_full_charge_death, 1);
}

#[test]
fn medic_outside_round_running_neither() {
    let mut p = medic(1000);
    p.handle_death(RoundState::PreRound, 0);
    assert_eq!(p.healing.drops, 0);
    assert_eq!(p.healing.near_full_charge_death, 0);
}

#[test]
fn weapon_kills_equal_overall_kills() {
    let mut p = medic(0);
    let rl = "tf_projectile_rocket".to_owned();
    let sg = "scattergun".to_owned();
    assert!(p.handle_kill(RoundState::RoundRunning, &rl, 0, DamageType::Normal, false));
    assert!(p.handle_kill(RoundState::RoundRunning, &rl, 0, DamageType::Normal, false));
    assert!(p.handle_kill(RoundState::RoundRunning, &sg, 0, DamageType::Normal, false));
    let wk: u32 = p.weapons.iter().map(|(_, st)| st.kills).sum();
    let ck: u32 = p.classes.iter().map(|(_, st)| st.kills).sum();
    assert_eq!(p.stats.kills, 3);
    assert_eq!(wk, 3);
    assert_eq!(ck, 3);
}

#[test]
fn sentry_names() {
    assert_eq!(sentry_name(true, 3), "obj_minisentry");
    assert_eq!(sentry_name(false, 1), "obj_sentrygun");
    assert_eq!(sentry_name(false, 2), "obj_sentrygun2");
    assert_eq!(sentry_name(false, 3), "obj_sentrygun3");
    assert!(is_sentry(&"obj_sentrygun3".to_owned()));
    assert!(!is_sentry(&"flamethrower".to_owned()));
}

#[test]
fn taunt_table() {
    assert_eq!(taunt_log_name(DamageType::TauntHadouken).unwrap(), "taunt_pyro");
    assert_eq!(taunt_log_name(DamageType::TauntHighNoon).unwrap(), "taunt_heavy");
    assert_eq!(taunt_log_name(DamageType::TauntUberslice).unwrap(), "taunt_medic");
    assert!(taunt_log_name(DamageType::Normal).is_none());
}

#[test]
fn projectile_kind_families() {
    assert!(is_sticky(ProjectileType::StickyBomb));
    assert!(is_sticky(ProjectileType::QuickieBomb));
    assert!(!is_sticky(ProjectileType::Rocket));
    assert!(is_arrow(ProjectileType::HuntsmanArrow));
    assert!(!is_arrow(ProjectileType::Rocket));
    assert!(can_hurt_without_exploding(ProjectileType::ShortCircuit));
    assert!(!can_hurt_without_exploding(ProjectileType::StickyBomb));
}

#[test]
fn healers_summary_empty() {
    let h = HealersSummary::new();
    assert!(h.is_empty());
    let mut h2 = HealersSummary::new();
    h2.drops = 1;
    assert!(!h2.is_empty());
}

#[test]
fn zero_helpers() {
    assert!(tf2_demostats::is_zero(&0));
    assert!(!tf2_demostats::is_zero(&3));
    assert!(tf2_demostats::is_false(&false));
    assert!(!tf2_demostats::is_false(&true));
}
