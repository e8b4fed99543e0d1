//! End-to-end checks of the analyzer over hand-built message sequences.
use tf2_demostats::collide::Vec3i;
use tf2_demostats::game::{Class, DamageType, RoundState, Team};
use tf2_demostats::messages::{DemoMessage, GameEventModel, PlayerDeath, PlayerHurtEvent, RoundWinEvent};
use tf2_demostats::schema::Schema;
use tf2_demostats::summarizer::MatchAnalyzer;

fn steam(n: u32) -> String {
    format!("STEAM_0:1:{}", n)
}

fn userinfo_bytes(name: &str, steamid: &str, user_id: u32) -> Vec<u8> {
    let mut b = Vec::new();
    let mut nb = [0u8; 32];
    for (i, c) in name.bytes().enumerate().take(31) {
        nb[i] = c;
    }
    b.extend_from_slice(&nb);
    b.extend_from_slice(&user_id.to_le_bytes());
    let mut sb = [0u8; 32];
    for (i, c) in steamid.bytes().enumerate().take(31) {
        sb[i] = c;
    }
    b.extend_from_slice(&sb);
    b.extend_from_slice(&0u32.to_le_bytes());
    b.extend_from_slice(&0u32.to_le_bytes());
    b.extend_from_slice(&[0u8; 32]);
    b.push(0);
    b.push(0);
    b.push(0);
    b.push(0);
    b.extend_from_slice(&[0u8; 16]);
    b.extend_from_slice(&0u32.to_le_bytes());
    assert_eq!(b.len(), 132);
    b
}

fn analyzer_with_players() -> MatchAnalyzer {
    let mut m = MatchAnalyzer::new(Schema::new());
    let table = "userinfo".to_owned();
    let d1 = userinfo_bytes("Alice", &steam(1), 3);
    m.handle_string_entry(&table, 0, Some(&"0".to_owned()), Some(&d1));
    let d2 = userinfo_bytes("Bob", &steam(2), 4);
    m.handle_string_entry(&table, 1, Some(&"1".to_owned()), Some(&d2));
    m
}

#[test]
fn userinfo_creates_summaries() {
    let m = analyzer_with_players();
    let s = m.summaries();
    assert_eq!(s.len(), 2);
    assert_eq!(s[0].name, "Alice");
    assert_eq!(s[0].steamid, steam(1));
    assert_eq!(s[0].user_id, 3);
    assert_eq!(s[0].entity_id, 1);
    assert_eq!(s[0].connection_count, 1);
}

#[test]
fn reconnect_counts_connections_and_keeps_one_summary() {
    let mut m = analyzer_with_players();
    let table = "userinfo".to_owned();
    let d = userinfo_bytes("Alice", &steam(1), 7);
    m.handle_string_entry(&table, 5, Some(&"9".to_owned()), Some(&d));
    let s = m.summaries();
    assert_eq!(s.len(), 2);
    assert_eq!(s[0].connection_count, 2);
    assert_eq!(s[0].user_id, 7);
    assert_eq!(s[0].entity_id, 10);
}

#[test]
fn tick_follows_messages() {
    let mut m = analyzer_with_players();
    m.handle_message(&DemoMessage::Other, 5);
    assert_eq!(m.tick(), 5);
    m.handle_message(&DemoMessage::NetTick(900), 12);
    assert_eq!(m.tick(), 12);
}

fn death(attacker: u16, victim: u16, custom: u16, bits: u32, flags: u16) -> DemoMessage {
    DemoMessage::GameEvent(GameEventModel::PlayerDeath(PlayerDeath {
        user_id: victim,
        attacker,
        assister: 0xffff,
        weapon_def_index: 1,
        damage_bits: bits,
        custom_kill: custom,
        death_flags: flags,
    }))
}

#[test]
fn suicide_counts_outside_postround() {
    let mut m = analyzer_with_players();
    m.handle_message(&death(3, 3, 6, 2048, 0), 10);
    // deaths and suicides settle when the tick closes
    m.handle_message(&DemoMessage::Other, 11);
    let s = m.summaries();
    assert_eq!(s[0].suicides, 1);
    assert_eq!(s[0].stats.deaths, 0);
    assert_eq!(s[0].stats.kills, 0);
}

#[test]
fn death_without_victim_entity_is_dropped() {
    // A death naming a victim whose entity never entered the world is a
    // reference miss: the event is dropped with no side effects.
    let mut m = analyzer_with_players();
    m.handle_message(&death(3, 4, 0, 0, 0), 10);
    m.handle_message(&DemoMessage::Other, 11);
    let s = m.summaries();
    assert_eq!(s[0].stats.kills, 0);
    assert_eq!(s[1].stats.deaths, 0);
    assert!(m.irregularities().reference_misses > 0);
}

#[test]
fn feigned_death_not_counted() {
    let mut m = analyzer_with_players();
    m.handle_message(&death(3, 4, 0, 0, 32), 10);
    m.handle_message(&DemoMessage::Other, 11);
    let s = m.summaries();
    assert_eq!(s[0].stats.kills, 0);
    assert_eq!(s[1].stats.deaths, 0);
}

#[test]
fn suicide_weapon_names() {
    // Without a live entity world, the resolver is checked directly through
    // the counting path: a kill-bind suicide leaves kills and deaths alone.
    let mut m = analyzer_with_players();
    m.handle_message(&death(3, 3, 6, 2048, 0), 10);
    m.handle_message(&death(4, 4, 6, 0, 0), 10);
    m.handle_message(&DemoMessage::Other, 11);
    let s = m.summaries();
    assert_eq!(s[0].suicides, 1);
    assert_eq!(s[1].suicides, 1);
}

#[test]
fn round_win_closes_round_sorted() {
    let mut m = analyzer_with_players();
    m.handle_message(&death(3, 4, 0, 0, 0), 10);
    m.handle_message(
        &DemoMessage::GameEvent(GameEventModel::RoundWin(RoundWinEvent {
            team: 2,
            round_time_millis: 61_500,
            was_sudden_death: 0,
        })),
        20,
    );
    let out = m.into_output();
    assert_eq!(out.rounds.len(), 1);
    let r = &out.rounds[0];
    assert_eq!(r.time_millis, 61_500);
    assert!(!r.is_stalemate);
    assert_eq!(r.players.len(), 2);
    assert!(r.players[0].steamid <= r.players[1].steamid);
}

#[test]
fn hurt_without_entities_is_dropped() {
    let mut m = analyzer_with_players();
    let hurt = PlayerHurtEvent {
        user_id: 4,
        health: 50,
        attacker: 3,
        damage_amount: 42,
        custom: 0,
        crit: false,
        mini_crit: false,
        weapon_id: 22,
        bonus_effect: 0,
    };
    m.handle_message(&DemoMessage::GameEvent(GameEventModel::PlayerHurt(hurt)), 10);
    m.handle_message(&DemoMessage::Other, 11);
    // Without an attacker entity in the world the hurt is dropped as a
    // reference miss, leaving the damage counters untouched.
    let s = m.summaries();
    assert_eq!(s[0].stats.damage, 0);
    assert_eq!(s[1].stats.damage_taken, 0);
    assert!(m.irregularities().reference_misses > 0);
}

#[test]
fn replaying_the_same_messages_gives_equal_summaries() {
    let run = || {
        let mut m = analyzer_with_players();
        m.handle_message(&death(3, 4, 0, 0, 0), 10);
        m.handle_message(&DemoMessage::Other, 11);
        let s = m.summaries();
        (
            s[0].stats.kills,
            s[1].stats.deaths,
            s[0].steamid.clone(),
            s[1].steamid.clone(),
        )
    };
    assert_eq!(run(), run());
}

#[test]
fn round_state_decodes() {
    assert_eq!(tf2_demostats::game::round_state_from_u16(4), RoundState::RoundRunning);
    assert_eq!(tf2_demostats::game::round_state_from_u16(5), RoundState::TeamWin);
    assert_eq!(tf2_demostats::game::damage_type_from_u16(6), DamageType::Suicide);
    assert_eq!(tf2_demostats::game::team_from_u8(2), Team::Red);
    assert_eq!(tf2_demostats::game::class_from_u8(5), Class::Medic);
}

#[test]
fn vectors_clamp_and_boxes_overlap() {
    let v = Vec3i { x: 2_000_000_000, y: 0, z: -2_000_000_000 };
    let c = tf2_demostats::collide::clamp_vec3(v);
    assert_eq!(c.x, 1_000_000_000);
    assert_eq!(c.z, -1_000_000_000);
    let a = tf2_demostats::collide::player_box(Vec3i { x: 0, y: 0, z: 0 });
    let b = tf2_demostats::collide::player_box(Vec3i { x: 90_000, y: 0, z: 0 });
    assert!(tf2_demostats::collide::aabb_intersects(&a, &b));
    let d = tf2_demostats::collide::player_box(Vec3i { x: 900_000, y: 0, z: 0 });
    assert!(!tf2_demostats::collide::aabb_intersects(&a, &d));
}
