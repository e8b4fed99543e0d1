//! Per-player summaries and the three-level write-through accounting:
//! every counted event lands in the player's overall block, the per-class
//! block and — for kills and weapon-specific events — the per-weapon block.
//!
//! The module maintains the accounting invariant that a player's overall
//! kill counter equals the sum of the per-weapon kill counters and equals
//! the sum of the per-class kill counters.
use crate::collide::{spec_vec3_bounded, Vec3i};
use crate::game::{spec_has_bits_u16, Class, DamageType, RoundState, Team, DEATH_FEIGNED};
use crate::schema::{spec_attr_lookup, string_eq, Attribute, AttributeV, Item};
use crate::stats::{
    spec_assist_applied, spec_damage_dealt_applied, spec_damage_taken_applied, spec_death_applied,
    spec_healers_zero, spec_healing_applied, spec_kill_applied, spec_sat1, spec_sat_add,
    spec_stats_zero, HealersSummary, Stats,
};
use vstd::prelude::*;

verus! {

/// The sum of the kill counters over a keyed table of statistic blocks.
pub open spec fn spec_sum_kills<K>(s: Seq<(K, Stats)>) -> int
    decreases s.len(),
{
    if s.len() == 0 {
        0
    } else {
        spec_sum_kills(s.drop_last()) + s.last().1.kills
    }
}

/// Each kill counter contributes non-negatively to the sum.
pub proof fn lemma_sum_kills_nonneg<K>(s: Seq<(K, Stats)>)
    ensures
        spec_sum_kills(s) >= 0,
    decreases s.len(),
{
    if s.len() > 0 {
        lemma_sum_kills_nonneg(s.drop_last());
    }
}

/// Appending an entry adds its kill counter to the sum.
pub proof fn lemma_sum_kills_push<K>(s: Seq<(K, Stats)>, e: (K, Stats))
    ensures
        spec_sum_kills(s.push(e)) == spec_sum_kills(s) + e.1.kills,
{
    assert(s.push(e).drop_last() =~= s);
    assert(s.push(e).last() == e);
}

/// Replacing one entry moves the sum by the difference of the kill
/// counters.
pub proof fn lemma_sum_kills_update<K>(s: Seq<(K, Stats)>, i: int, e: (K, Stats))
    requires
        0 <= i < s.len(),
    ensures
        spec_sum_kills(s.update(i, e)) == spec_sum_kills(s) - s[i].1.kills + e.1.kills,
    decreases s.len(),
{
    if i == s.len() - 1 {
        assert(s.update(i, e).drop_last() =~= s.drop_last());
        assert(s.update(i, e).last() == e);
    } else {
        assert(s.update(i, e).drop_last() =~= s.drop_last().update(i, e));
        assert(s.update(i, e).last() == s.last());
        lemma_sum_kills_update(s.drop_last(), i, e);
    }
}

/// No entry's kill counter exceeds the table's sum.
pub proof fn lemma_sum_kills_entry_le<K>(s: Seq<(K, Stats)>, i: int)
    requires
        0 <= i < s.len(),
    ensures
        s[i].1.kills <= spec_sum_kills(s),
    decreases s.len(),
{
    lemma_sum_kills_nonneg(s.drop_last());
    if i == s.len() - 1 {
    } else {
        lemma_sum_kills_entry_le(s.drop_last(), i);
    }
}

/// The relation between a keyed table before and after one event lands on
/// `key`'s entry: the entry is transformed by `f` in place, or appended as
/// a transformed zero block when it was missing.
pub open spec fn spec_class_entry_updated(
    olds: Seq<(Class, Stats)>,
    news: Seq<(Class, Stats)>,
    key: Class,
    f: spec_fn(Stats) -> Stats,
) -> bool {
    exists|i: int|
        0 <= i < news.len() && #[trigger] news[i].0 == key && ((i < olds.len() && olds[i].0 == key
            && news == olds.update(i, (key, f(olds[i].1)))) || (i == olds.len() && news
            == olds.push((key, f(spec_stats_zero())))))
}

/// As [`spec_class_entry_updated`], for tables keyed by weapon log-name;
/// keys compare by their character sequences.
pub open spec fn spec_weapon_entry_updated(
    olds: Seq<(String, Stats)>,
    news: Seq<(String, Stats)>,
    key: Seq<char>,
    f: spec_fn(Stats) -> Stats,
) -> bool {
    exists|i: int|
        0 <= i < news.len() && #[trigger] news[i].0@ == key && ((i < olds.len() && olds[i].0@ == key
            && news == olds.update(i, (olds[i].0, f(olds[i].1)))) || (i == olds.len() && news.len()
            == olds.len() + 1 && news[i].1 == f(spec_stats_zero()) && news.take(i) == olds))
}

/// Introduces [`spec_class_entry_updated`] from an explicit entry index.
pub proof fn lemma_class_entry_updated(
    olds: Seq<(Class, Stats)>,
    news: Seq<(Class, Stats)>,
    key: Class,
    f: spec_fn(Stats) -> Stats,
    i: int,
)
    requires
        0 <= i < news.len(),
        news[i].0 == key,
        (i < olds.len() && olds[i].0 == key && news == olds.update(i, (key, f(olds[i].1)))) || (i
            == olds.len() && news == olds.push((key, f(spec_stats_zero())))),
    ensures
        spec_class_entry_updated(olds, news, key, f),
{
}

/// Introduces [`spec_weapon_entry_updated`] from an explicit entry index.
pub proof fn lemma_weapon_entry_updated(
    olds: Seq<(String, Stats)>,
    news: Seq<(String, Stats)>,
    key: Seq<char>,
    f: spec_fn(Stats) -> Stats,
    i: int,
)
    requires
        0 <= i < news.len(),
        news[i].0@ == key,
        (i < olds.len() && olds[i].0@ == key && news == olds.update(i, (olds[i].0, f(olds[i].1))))
            || (i == olds.len() && news.len() == olds.len() + 1 && news[i].1 == f(
            spec_stats_zero(),
        ) && news.take(i) == olds),
    ensures
        spec_weapon_entry_updated(olds, news, key, f),
{
}

/// Finds the statistics entry of a class, appending a zero block when the
/// class has none yet; the kill sum of the table is unchanged.
fn class_entry(v: &mut Vec<(Class, Stats)>, key: Class) -> (i: usize)
    ensures
        i < final(v)@.len(),
        final(v)@[i as int].0 == key,
        (i < old(v)@.len() && final(v)@ == old(v)@ && old(v)@[i as int].0 == key) || (i == old(
            v,
        )@.len() && final(v)@ == old(v)@.push((key, spec_stats_zero()))),
        spec_sum_kills(final(v)@) == spec_sum_kills(old(v)@),
{
    let mut i: usize = 0;
    while i < v.len()
        invariant
            i <= v.len(),
            v@ == old(v)@,
        decreases v.len() - i,
    {
        if v[i].0 == key {
            return i;
        }
        i = i + 1;
    }
    v.push((key, Stats::new()));
    proof {
        lemma_sum_kills_push(old(v)@, (key, spec_stats_zero()));
    }
    i
}

/// Finds the statistics entry of a weapon log-name, appending a zero block
/// when the weapon has none yet; the kill sum of the table is unchanged.
fn weapon_entry(v: &mut Vec<(String, Stats)>, key: &String) -> (i: usize)
    ensures
        i < final(v)@.len(),
        final(v)@[i as int].0@ == key@,
        (i < old(v)@.len() && final(v)@ == old(v)@ && old(v)@[i as int].0@ == key@) || (i == old(
            v,
        )@.len() && final(v)@.len() == old(v)@.len() + 1 && final(v)@[i as int].1
            == spec_stats_zero() && final(v)@.take(i as int) == old(v)@),
        spec_sum_kills(final(v)@) == spec_sum_kills(old(v)@),
{
    let mut i: usize = 0;
    while i < v.len()
        invariant
            i <= v.len(),
            v@ == old(v)@,
        decreases v.len() - i,
    {
        if string_eq(&v[i].0, key) {
            return i;
        }
        i = i + 1;
    }
    v.push((key.clone(), Stats::new()));
    proof {
        assert(v@.drop_last() =~= old(v)@);
        assert(v@.last().1 == spec_stats_zero());
        assert(v@.take(i as int) =~= old(v)@);
    }
    i
}

/// One chat line of the match log.
#[derive(Debug)]
pub struct ChatMessage {
    pub tick: u32,
    pub user: String,
    pub message: String,
    pub is_dead: bool,
    pub is_team: bool,
    pub is_spec: bool,
    pub is_name_change: bool,
}

/// One player's match summary, keyed by steam-id across reconnects.
#[derive(Debug)]
pub struct PlayerSummary {
    pub name: String,
    pub steamid: String,
    pub tick_start: Option<u32>,
    pub tick_end: Option<u32>,
    pub points: Option<u32>,
    pub connection_count: u32,
    pub bonus_points: Option<u32>,
    pub stats: Stats,
    pub classes: Vec<(Class, Stats)>,
    pub weapons: Vec<(String, Stats)>,
    pub scoreboard_kills: Option<u32>,
    pub scoreboard_assists: Option<u32>,
    pub scoreboard_deaths: Option<u32>,
    pub scoreboard_damage: Option<u32>,
    pub suicides: u32,
    pub healing: HealersSummary,
    pub is_fake_player: bool,
    pub is_hl_tv: bool,
    pub is_replay: bool,
    pub team: Team,
    pub entity_id: u32,
    pub user_id: u32,
    pub on_ground: bool,
    pub in_water: bool,
    pub started_flying: u32,
    pub class: Class,
    pub health: u32,
    pub scoreboard_healing: u32,
    pub origin: Vec3i,
    pub charge: u32,
    pub kritzed: bool,
}

/// The accounting invariant: the overall kill counter equals the sum of the
/// per-weapon kill counters and the sum of the per-class kill counters.
pub open spec fn spec_kills_consistent(ps: PlayerSummary) -> bool {
    &&& ps.stats.kills == spec_sum_kills(ps.weapons@)
    &&& ps.stats.kills == spec_sum_kills(ps.classes@)
}

/// The per-block effect of a fired shot.
pub open spec fn spec_fire_shot_fn() -> spec_fn(Stats) -> Stats {
    |s: Stats| Stats { shots: spec_sat1(s.shots), ..s }
}

/// The per-block effect of a connected shot.
pub open spec fn spec_shot_hit_fn() -> spec_fn(Stats) -> Stats {
    |s: Stats| Stats { hits: spec_sat1(s.hits), ..s }
}

/// The per-block effect of dealt damage.
pub open spec fn spec_damage_dealt_fn(amount: u16, damage_type: DamageType) -> spec_fn(Stats) -> Stats {
    |s: Stats| spec_damage_dealt_applied(s, amount, damage_type)
}

/// The per-block effect of taken damage.
pub open spec fn spec_damage_taken_fn(amount: u16, damage_type: DamageType) -> spec_fn(Stats) -> Stats {
    |s: Stats| spec_damage_taken_applied(s, amount, damage_type)
}

/// The per-block effect of an assist.
pub open spec fn spec_assist_fn(round_state: RoundState, flags: u16) -> spec_fn(Stats) -> Stats {
    |s: Stats| spec_assist_applied(s, round_state, flags)
}

/// The per-block effect of a death.
pub open spec fn spec_death_fn(round_state: RoundState, flags: u16) -> spec_fn(Stats) -> Stats {
    |s: Stats| spec_death_applied(s, round_state, flags)
}

/// The per-block effect of a kill.
pub open spec fn spec_kill_fn(
    round_state: RoundState,
    flags: u16,
    damage_type: DamageType,
    airshot: bool,
) -> spec_fn(Stats) -> Stats {
    |s: Stats| spec_kill_applied(s, round_state, flags, damage_type, airshot)
}

/// The per-block effect of a healing delta.
pub open spec fn spec_healing_fn(round_state: RoundState, amount: u32) -> spec_fn(Stats) -> Stats {
    |s: Stats| spec_healing_applied(s, round_state, amount)
}

/// The per-block effect of a point capture.
pub open spec fn spec_capture_fn() -> spec_fn(Stats) -> Stats {
    |s: Stats| Stats { captures: spec_sat1(s.captures), ..s }
}

/// The per-block effect of a blocked capture.
pub open spec fn spec_capture_blocked_fn() -> spec_fn(Stats) -> Stats {
    |s: Stats| Stats { captures_blocked: spec_sat1(s.captures_blocked), ..s }
}

impl PlayerSummary {
    /// A fresh summary for a player first seen in the userinfo table.
    pub fn new(
        name: String,
        steamid: String,
        entity_id: u32,
        user_id: u32,
        is_fake_player: bool,
        is_hl_tv: bool,
        is_replay: bool,
    ) -> (r: PlayerSummary)
        ensures
            r.name == name,
            r.steamid == steamid,
            r.entity_id == entity_id,
            r.user_id == user_id,
            r.is_fake_player == is_fake_player,
            r.is_hl_tv == is_hl_tv,
            r.is_replay == is_replay,
            r.stats == spec_stats_zero(),
            r.healing == spec_healers_zero(),
            r.classes@.len() == 0,
            r.weapons@.len() == 0,
            r.connection_count == 1,
            r.tick_start is None,
            r.tick_end is None,
            r.points is None,
            r.bonus_points is None,
            r.scoreboard_kills is None,
            r.scoreboard_assists is None,
            r.scoreboard_deaths is None,
            r.scoreboard_damage is None,
            r.suicides == 0,
            r.team == Team::Other,
            r.class == Class::Other,
            r.charge == 0,
            r.origin == crate::collide::spec_vec3_zero(),
            r.on_ground == false,
            r.in_water == false,
            r.started_flying == 0,
            r.scoreboard_healing == 0,
            spec_kills_consistent(r),
    {
        PlayerSummary {
            name,
            steamid,
            tick_start: None,
            tick_end: None,
            points: None,
            connection_count: 1,
            bonus_points: None,
            stats: Stats::new(),
            classes: Vec::new(),
            weapons: Vec::new(),
            scoreboard_kills: None,
            scoreboard_assists: None,
            scoreboard_deaths: None,
            scoreboard_damage: None,
            suicides: 0,
            healing: HealersSummary::new(),
            is_fake_player,
            is_hl_tv,
            is_replay,
            team: Team::Other,
            entity_id,
            user_id,
            on_ground: false,
            in_water: false,
            started_flying: 0,
            class: Class::Other,
            health: 0,
            scoreboard_healing: 0,
            origin: Vec3i::zero(),
            charge: 0,
            kritzed: false,
        }
    }

    /// True when the player is neither grounded nor in water.
    pub fn in_air(&self) -> (r: bool)
        ensures
            r == (!self.on_ground && !self.in_water),
    {
        !self.on_ground && !self.in_water
    }

    /// Counts a fired shot at all three levels.
    pub fn handle_fire_shot(&mut self, weapon: &String)
        requires
            spec_kills_consistent(*old(self)),
        ensures
            spec_kills_consistent(*final(self)),
            final(self).stats == (Stats { shots: spec_sat1(old(self).stats.shots), ..old(self).stats }),
            spec_class_entry_updated(
                old(self).classes@,
                final(self).classes@,
                old(self).class,
                spec_fire_shot_fn(),
            ),
            spec_weapon_entry_updated(
                old(self).weapons@,
                final(self).weapons@,
                weapon@,
                spec_fire_shot_fn(),
            ),
            spec_rest_unchanged(*old(self), *final(self)),
    {
        self.stats.handle_fire_shot();
        let ghost cf = spec_fire_shot_fn();
        let ci = class_entry(&mut self.classes, self.class);
        let ghost cmid = self.classes@;
        self.classes[ci].1.handle_fire_shot();
        proof {
            assert(self.classes@ =~= cmid.update(ci as int, (cmid[ci as int].0, cf(cmid[ci as int].1))));
            lemma_sum_kills_update(cmid, ci as int, (cmid[ci as int].0, cf(cmid[ci as int].1)));
            if ci < old(self).classes@.len() {
                assert(self.classes@ =~= old(self).classes@.update(ci as int, (old(self).class, cf(old(self).classes@[ci as int].1))));
            } else {
                assert(self.classes@ =~= old(self).classes@.push((old(self).class, cf(spec_stats_zero()))));
            }
            lemma_class_entry_updated(old(self).classes@, self.classes@, old(self).class, cf, ci as int);
        }
        let ghost wf_ = spec_fire_shot_fn();
        let wi = weapon_entry(&mut self.weapons, weapon);
        let ghost wmid = self.weapons@;
        self.weapons[wi].1.handle_fire_shot();
        proof {
            assert(self.weapons@ =~= wmid.update(wi as int, (wmid[wi as int].0, wf_(wmid[wi as int].1))));
            lemma_sum_kills_update(wmid, wi as int, (wmid[wi as int].0, wf_(wmid[wi as int].1)));
            if wi < old(self).weapons@.len() {
                assert(self.weapons@ =~= old(self).weapons@.update(wi as int, (old(self).weapons@[wi as int].0, wf_(old(self).weapons@[wi as int].1))));
            } else {
                assert(self.weapons@.take(wi as int) =~= old(self).weapons@);
            }
            lemma_weapon_entry_updated(old(self).weapons@, self.weapons@, weapon@, wf_, wi as int);
        }
    }

    /// Counts a connected shot at all three levels.
    pub fn handle_shot_hit(&mut self, weapon: &String)
        requires
            spec_kills_consistent(*old(self)),
        ensures
            spec_kills_consistent(*final(self)),
            final(self).stats == (Stats { hits: spec_sat1(old(self).stats.hits), ..old(self).stats }),
            spec_class_entry_updated(
                old(self).classes@,
                final(self).classes@,
                old(self).class,
                spec_shot_hit_fn(),
            ),
            spec_weapon_entry_updated(
                old(self).weapons@,
                final(self).weapons@,
                weapon@,
                spec_shot_hit_fn(),
            ),
            spec_rest_unchanged(*old(self), *final(self)),
    {
        self.stats.handle_shot_hit();
        let ghost cf = spec_shot_hit_fn();
        let ci = class_entry(&mut self.classes, self.class);
        let ghost cmid = self.classes@;
        self.classes[ci].1.handle_shot_hit();
        proof {
            assert(self.classes@ =~= cmid.update(ci as int, (cmid[ci as int].0, cf(cmid[ci as int].1))));
            lemma_sum_kills_update(cmid, ci as int, (cmid[ci as int].0, cf(cmid[ci as int].1)));
            if ci < old(self).classes@.len() {
                assert(self.classes@ =~= old(self).classes@.update(ci as int, (old(self).class, cf(old(self).classes@[ci as int].1))));
            } else {
                assert(self.classes@ =~= old(self).classes@.push((old(self).class, cf(spec_stats_zero()))));
            }
            lemma_class_entry_updated(old(self).classes@, self.classes@, old(self).class, cf, ci as int);
        }
        let ghost wf_ = spec_shot_hit_fn();
        let wi = weapon_entry(&mut self.weapons, weapon);
        let ghost wmid = self.weapons@;
        self.weapons[wi].1.handle_shot_hit();
        proof {
            assert(self.weapons@ =~= wmid.update(wi as int, (wmid[wi as int].0, wf_(wmid[wi as int].1))));
            lemma_sum_kills_update(wmid, wi as int, (wmid[wi as int].0, wf_(wmid[wi as int].1)));
            if wi < old(self).weapons@.len() {
                assert(self.weapons@ =~= old(self).weapons@.update(wi as int, (old(self).weapons@[wi as int].0, wf_(old(self).weapons@[wi as int].1))));
            } else {
                assert(self.weapons@.take(wi as int) =~= old(self).weapons@);
            }
            lemma_weapon_entry_updated(old(self).weapons@, self.weapons@, weapon@, wf_, wi as int);
        }
    }

    /// Applies dealt damage at all three levels.
    pub fn handle_damage_dealt(&mut self, weapon: &String, amount: u16, damage_type: DamageType)
        requires
            spec_kills_consistent(*old(self)),
        ensures
            spec_kills_consistent(*final(self)),
            final(self).stats == spec_damage_dealt_applied(old(self).stats, amount, damage_type),
            spec_class_entry_updated(
                old(self).classes@,
                final(self).classes@,
                old(self).class,
                spec_damage_dealt_fn(amount, damage_type),
            ),
            spec_weapon_entry_updated(
                old(self).weapons@,
                final(self).weapons@,
                weapon@,
                spec_damage_dealt_fn(amount, damage_type),
            ),
            spec_rest_unchanged(*old(self), *final(self)),
    {
        self.stats.handle_damage_dealt(amount, damage_type);
        let ghost cf = spec_damage_dealt_fn(amount, damage_type);
        let ci = class_entry(&mut self.classes, self.class);
        let ghost cmid = self.classes@;
        self.classes[ci].1.handle_damage_dealt(amount, damage_type);
        proof {
            assert(self.classes@ =~= cmid.update(ci as int, (cmid[ci as int].0, cf(cmid[ci as int].1))));
            lemma_sum_kills_update(cmid, ci as int, (cmid[ci as int].0, cf(cmid[ci as int].1)));
            if ci < old(self).classes@.len() {
                assert(self.classes@ =~= old(self).classes@.update(ci as int, (old(self).class, cf(old(self).classes@[ci as int].1))));
            } else {
                assert(self.classes@ =~= old(self).classes@.push((old(self).class, cf(spec_stats_zero()))));
            }
            lemma_class_entry_updated(old(self).classes@, self.classes@, old(self).class, cf, ci as int);
        }
        let ghost wf_ = spec_damage_dealt_fn(amount, damage_type);
        let wi = weapon_entry(&mut self.weapons, weapon);
        let ghost wmid = self.weapons@;
        self.weapons[wi].1.handle_damage_dealt(amount, damage_type);
        proof {
            assert(self.weapons@ =~= wmid.update(wi as int, (wmid[wi as int].0, wf_(wmid[wi as int].1))));
            lemma_sum_kills_update(wmid, wi as int, (wmid[wi as int].0, wf_(wmid[wi as int].1)));
            if wi < old(self).weapons@.len() {
                assert(self.weapons@ =~= old(self).weapons@.update(wi as int, (old(self).weapons@[wi as int].0, wf_(old(self).weapons@[wi as int].1))));
            } else {
                assert(self.weapons@.take(wi as int) =~= old(self).weapons@);
            }
            lemma_weapon_entry_updated(old(self).weapons@, self.weapons@, weapon@, wf_, wi as int);
        }
    }

    /// Applies taken damage at all three levels.
    pub fn handle_damage_taken(&mut self, weapon: &String, amount: u16, damage_type: DamageType)
        requires
            spec_kills_consistent(*old(self)),
        ensures
            spec_kills_consistent(*final(self)),
            final(self).stats == spec_damage_taken_applied(old(self).stats, amount, damage_type),
            spec_class_entry_updated(
                old(self).classes@,
                final(self).classes@,
                old(self).class,
                spec_damage_taken_fn(amount, damage_type),
            ),
            spec_weapon_entry_updated(
                old(self).weapons@,
                final(self).weapons@,
                weapon@,
                spec_damage_taken_fn(amount, damage_type),
            ),
            spec_rest_unchanged(*old(self), *final(self)),
    {
        self.stats.handle_damage_taken(amount, damage_type);
        let ghost cf = spec_damage_taken_fn(amount, damage_type);
        let ci = class_entry(&mut self.classes, self.class);
        let ghost cmid = self.classes@;
        self.classes[ci].1.handle_damage_taken(amount, damage_type);
        proof {
            assert(self.classes@ =~= cmid.update(ci as int, (cmid[ci as int].0, cf(cmid[ci as int].1))));
            lemma_sum_kills_update(cmid, ci as int, (cmid[ci as int].0, cf(cmid[ci as int].1)));
            if ci < old(self).classes@.len() {
                assert(self.classes@ =~= old(self).classes@.update(ci as int, (old(self).class, cf(old(self).classes@[ci as int].1))));
            } else {
                assert(self.classes@ =~= old(self).classes@.push((old(self).class, cf(spec_stats_zero()))));
            }
            lemma_class_entry_updated(old(self).classes@, self.classes@, old(self).class, cf, ci as int);
        }
        let ghost wf_ = spec_damage_taken_fn(amount, damage_type);
        let wi = weapon_entry(&mut self.weapons, weapon);
        let ghost wmid = self.weapons@;
        self.weapons[wi].1.handle_damage_taken(amount, damage_type);
        proof {
            assert(self.weapons@ =~= wmid.update(wi as int, (wmid[wi as int].0, wf_(wmid[wi as int].1))));
            lemma_sum_kills_update(wmid, wi as int, (wmid[wi as int].0, wf_(wmid[wi as int].1)));
            if wi < old(self).weapons@.len() {
                assert(self.weapons@ =~= old(self).weapons@.update(wi as int, (old(self).weapons@[wi as int].0, wf_(old(self).weapons@[wi as int].1))));
            } else {
                assert(self.weapons@.take(wi as int) =~= old(self).weapons@);
            }
            lemma_weapon_entry_updated(old(self).weapons@, self.weapons@, weapon@, wf_, wi as int);
        }
    }

    /// Credits an assist at the overall and per-class level.
    pub fn handle_assist(&mut self, round_state: RoundState, flags: u16)
        requires
            spec_kills_consistent(*old(self)),
        ensures
            spec_kills_consistent(*final(self)),
            final(self).stats == spec_assist_applied(old(self).stats, round_state, flags),
            spec_class_entry_updated(
                old(self).classes@,
                final(self).classes@,
                old(self).class,
                spec_assist_fn(round_state, flags),
            ),
            final(self).weapons@ == old(self).weapons@,
            final(self).healing == old(self).healing,
            spec_rest_unchanged_but_healing(*old(self), *final(self)),
    {
        self.stats.handle_assist(round_state, flags);
        let ghost cf = spec_assist_fn(round_state, flags);
        let ci = class_entry(&mut self.classes, self.class);
        let ghost cmid = self.classes@;
        self.classes[ci].1.handle_assist(round_state, flags);
        proof {
            assert(self.classes@ =~= cmid.update(ci as int, (cmid[ci as int].0, cf(cmid[ci as int].1))));
            lemma_sum_kills_update(cmid, ci as int, (cmid[ci as int].0, cf(cmid[ci as int].1)));
            if ci < old(self).classes@.len() {
                assert(self.classes@ =~= old(self).classes@.update(ci as int, (old(self).class, cf(old(self).classes@[ci as int].1))));
            } else {
                assert(self.classes@ =~= old(self).classes@.push((old(self).class, cf(spec_stats_zero()))));
            }
            lemma_class_entry_updated(old(self).classes@, self.classes@, old(self).class, cf, ci as int);
        }
    }

    /// Applies a suffered death: a medic dying mid-round with a full charge
    /// drops it, with nearly a full charge counts a near-full-charge death;
    /// then the death lands at the overall and per-class level.
    pub fn handle_death(&mut self, round_state: RoundState, flags: u16)
        requires
            spec_kills_consistent(*old(self)),
        ensures
            spec_kills_consistent(*final(self)),
            final(self).stats == spec_death_applied(old(self).stats, round_state, flags),
            spec_class_entry_updated(
                old(self).classes@,
                final(self).classes@,
                old(self).class,
                spec_death_fn(round_state, flags),
            ),
            final(self).weapons@ == old(self).weapons@,
            final(self).healing == spec_medic_death_healing(
                old(self).healing,
                old(self).class,
                round_state,
                old(self).charge,
            ),
            spec_rest_unchanged_but_healing(*old(self), *final(self)),
    {
        if self.class == Class::Medic && round_state == RoundState::RoundRunning {
            if self.charge == 1000 {
                self.healing.drops = self.healing.drops.saturating_add(1);
            } else if self.charge > 950 {
                self.healing.near_full_charge_death =
                    self.healing.near_full_charge_death.saturating_add(1);
            }
        }
        self.stats.handle_death(round_state, flags);
        let ghost cf = spec_death_fn(round_state, flags);
        let ci = class_entry(&mut self.classes, self.class);
        let ghost cmid = self.classes@;
        self.classes[ci].1.handle_death(round_state, flags);
        proof {
            assert(self.classes@ =~= cmid.update(ci as int, (cmid[ci as int].0, cf(cmid[ci as int].1))));
            lemma_sum_kills_update(cmid, ci as int, (cmid[ci as int].0, cf(cmid[ci as int].1)));
            if ci < old(self).classes@.len() {
                assert(self.classes@ =~= old(self).classes@.update(ci as int, (old(self).class, cf(old(self).classes@[ci as int].1))));
            } else {
                assert(self.classes@ =~= old(self).classes@.push((old(self).class, cf(spec_stats_zero()))));
            }
            lemma_class_entry_updated(old(self).classes@, self.classes@, old(self).class, cf, ci as int);
        }
    }

    /// Applies a healing delta: the healer block buckets it by round phase,
    /// then it lands at the overall and per-class level.
    pub fn handle_healing(&mut self, round_state: RoundState, amount: u32)
        requires
            spec_kills_consistent(*old(self)),
        ensures
            spec_kills_consistent(*final(self)),
            final(self).stats == spec_healing_applied(old(self).stats, round_state, amount),
            spec_class_entry_updated(
                old(self).classes@,
                final(self).classes@,
                old(self).class,
                spec_healing_fn(round_state, amount),
            ),
            final(self).weapons@ == old(self).weapons@,
            final(self).healing == spec_phase_healing(old(self).healing, round_state, amount),
            spec_rest_unchanged_but_healing(*old(self), *final(self)),
    {
        if round_state == RoundState::PreRound {
            self.healing.preround_healing = self.healing.preround_healing.saturating_add(amount);
        } else if round_state == RoundState::TeamWin {
            self.healing.postround_healing = self.healing.postround_healing.saturating_add(amount);
        } else {
            self.healing.healing = self.healing.healing.saturating_add(amount);
        }
        self.stats.handle_healing(round_state, amount);
        let ghost cf = spec_healing_fn(round_state, amount);
        let ci = class_entry(&mut self.classes, self.class);
        let ghost cmid = self.classes@;
        self.classes[ci].1.handle_healing(round_state, amount);
        proof {
            assert(self.classes@ =~= cmid.update(ci as int, (cmid[ci as int].0, cf(cmid[ci as int].1))));
            lemma_sum_kills_update(cmid, ci as int, (cmid[ci as int].0, cf(cmid[ci as int].1)));
            if ci < old(self).classes@.len() {
                assert(self.classes@ =~= old(self).classes@.update(ci as int, (old(self).class, cf(old(self).classes@[ci as int].1))));
            } else {
                assert(self.classes@ =~= old(self).classes@.push((old(self).class, cf(spec_stats_zero()))));
            }
            lemma_class_entry_updated(old(self).classes@, self.classes@, old(self).class, cf, ci as int);
        }
    }

    /// Credits a point capture at the overall and per-class level.
    pub fn handle_capture(&mut self)
        requires
            spec_kills_consistent(*old(self)),
        ensures
            spec_kills_consistent(*final(self)),
            final(self).stats == (Stats { captures: spec_sat1(old(self).stats.captures), ..old(self).stats }),
            spec_class_entry_updated(
                old(self).classes@,
                final(self).classes@,
                old(self).class,
                spec_capture_fn(),
            ),
            final(self).weapons@ == old(self).weapons@,
            final(self).healing == old(self).healing,
            spec_rest_unchanged_but_healing(*old(self), *final(self)),
    {
        self.stats.handle_capture();
        let ghost cf = spec_capture_fn();
        let ci = class_entry(&mut self.classes, self.class);
        let ghost cmid = self.classes@;
        self.classes[ci].1.handle_capture();
        proof {
            assert(self.classes@ =~= cmid.update(ci as int, (cmid[ci as int].0, cf(cmid[ci as int].1))));
            lemma_sum_kills_update(cmid, ci as int, (cmid[ci as int].0, cf(cmid[ci as int].1)));
            if ci < old(self).classes@.len() {
                assert(self.classes@ =~= old(self).classes@.update(ci as int, (old(self).class, cf(old(self).classes@[ci as int].1))));
            } else {
                assert(self.classes@ =~= old(self).classes@.push((old(self).class, cf(spec_stats_zero()))));
            }
            lemma_class_entry_updated(old(self).classes@, self.classes@, old(self).class, cf, ci as int);
        }
    }

    /// Credits a blocked capture at the overall and per-class level.
    pub fn handle_capture_blocked(&mut self)
        requires
            spec_kills_consistent(*old(self)),
        ensures
            spec_kills_consistent(*final(self)),
            final(self).stats == (Stats { captures_blocked: spec_sat1(old(self).stats.captures_blocked), ..old(self).stats }),
            spec_class_entry_updated(
                old(self).classes@,
                final(self).classes@,
                old(self).class,
                spec_capture_blocked_fn(),
            ),
            final(self).weapons@ == old(self).weapons@,
            final(self).healing == old(self).healing,
            spec_rest_unchanged_but_healing(*old(self), *final(self)),
    {
        self.stats.handle_capture_blocked();
        let ghost cf = spec_capture_blocked_fn();
        let ci = class_entry(&mut self.classes, self.class);
        let ghost cmid = self.classes@;
        self.classes[ci].1.handle_capture_blocked();
        proof {
            assert(self.classes@ =~= cmid.update(ci as int, (cmid[ci as int].0, cf(cmid[ci as int].1))));
            lemma_sum_kills_update(cmid, ci as int, (cmid[ci as int].0, cf(cmid[ci as int].1)));
            if ci < old(self).classes@.len() {
                assert(self.classes@ =~= old(self).classes@.update(ci as int, (old(self).class, cf(old(self).classes@[ci as int].1))));
            } else {
                assert(self.classes@ =~= old(self).classes@.push((old(self).class, cf(spec_stats_zero()))));
            }
            lemma_class_entry_updated(old(self).classes@, self.classes@, old(self).class, cf, ci as int);
        }
    }

    /// Credits a kill at all three levels. A kill that would push the
    /// overall counter past its limit is not counted and reported as such;
    /// feigned and post-round kills never touch the kill counter.
    pub fn handle_kill(
        &mut self,
        round_state: RoundState,
        weapon: &String,
        flags: u16,
        damage_type: DamageType,
        airshot: bool,
    ) -> (counted: bool)
        requires
            spec_kills_consistent(*old(self)),
        ensures
            spec_kills_consistent(*final(self)),
            counted == !(!spec_has_bits_u16(flags, DEATH_FEIGNED) && round_state
                != RoundState::TeamWin && old(self).stats.kills == u32::MAX),
            counted ==> final(self).stats == spec_kill_applied(
                old(self).stats,
                round_state,
                flags,
                damage_type,
                airshot,
            ),
            counted ==> spec_class_entry_updated(
                old(self).classes@,
                final(self).classes@,
                old(self).class,
                spec_kill_fn(round_state, flags, damage_type, airshot),
            ),
            counted ==> spec_weapon_entry_updated(
                old(self).weapons@,
                final(self).weapons@,
                weapon@,
                spec_kill_fn(round_state, flags, damage_type, airshot),
            ),
            !counted ==> *final(self) == *old(self),
            spec_rest_unchanged(*old(self), *final(self)),
    {
        let feigned = crate::game::has_bits_u16(flags, DEATH_FEIGNED);
        if !feigned && round_state != RoundState::TeamWin && self.stats.kills == u32::MAX {
            return false;
        }
        proof {
            lemma_sum_kills_nonneg(old(self).classes@);
            lemma_sum_kills_nonneg(old(self).weapons@);
        }
        self.stats.handle_kill(round_state, flags, damage_type, airshot);
        let ghost cf = spec_kill_fn(round_state, flags, damage_type, airshot);
        let ci = class_entry(&mut self.classes, self.class);
        let ghost cmid = self.classes@;
        proof {
            lemma_sum_kills_entry_le(cmid, ci as int);
        }
        self.classes[ci].1.handle_kill(round_state, flags, damage_type, airshot);
        proof {
            assert(self.classes@ =~= cmid.update(ci as int, (cmid[ci as int].0, cf(cmid[ci as int].1))));
            lemma_sum_kills_update(cmid, ci as int, (cmid[ci as int].0, cf(cmid[ci as int].1)));
            if ci < old(self).classes@.len() {
                assert(self.classes@ =~= old(self).classes@.update(ci as int, (old(self).class, cf(old(self).classes@[ci as int].1))));
            } else {
                assert(self.classes@ =~= old(self).classes@.push((old(self).class, cf(spec_stats_zero()))));
            }
            lemma_class_entry_updated(old(self).classes@, self.classes@, old(self).class, cf, ci as int);
        }
        let ghost wf_ = spec_kill_fn(round_state, flags, damage_type, airshot);
        let wi = weapon_entry(&mut self.weapons, weapon);
        let ghost wmid = self.weapons@;
        proof {
            lemma_sum_kills_entry_le(wmid, wi as int);
        }
        self.weapons[wi].1.handle_kill(round_state, flags, damage_type, airshot);
        proof {
            assert(self.weapons@ =~= wmid.update(wi as int, (wmid[wi as int].0, wf_(wmid[wi as int].1))));
            lemma_sum_kills_update(wmid, wi as int, (wmid[wi as int].0, wf_(wmid[wi as int].1)));
            if wi < old(self).weapons@.len() {
                assert(self.weapons@ =~= old(self).weapons@.update(wi as int, (old(self).weapons@[wi as int].0, wf_(old(self).weapons@[wi as int].1))));
            } else {
                assert(self.weapons@.take(wi as int) =~= old(self).weapons@);
            }
            lemma_weapon_entry_updated(old(self).weapons@, self.weapons@, weapon@, wf_, wi as int);
        }
        true
    }


    /// Routes the summary-side fields of a player-entity update: scoreboard
    /// snapshots, ground/water flags with the started-flying tick, position,
    /// class and health; on a slot entry an unset start tick is stamped.
    #[verifier::rlimit(100)]
    pub fn apply_player_entity_patch(
        &mut self,
        patch: &crate::entity::player::PlayerPatch,
        tick: u32,
        entered: bool,
    )
        requires
            spec_kills_consistent(*old(self)),
        ensures
            spec_kills_consistent(*final(self)),
            final(self).user_id == old(self).user_id,
            final(self).steamid == old(self).steamid,
            final(self).name == old(self).name,
            final(self).stats == old(self).stats,
            final(self).classes@ == old(self).classes@,
            final(self).weapons@ == old(self).weapons@,
            final(self).healing == old(self).healing,
            final(self).suicides == old(self).suicides,
            final(self).tick_end == old(self).tick_end,
            final(self).connection_count == old(self).connection_count,
            final(self).entity_id == old(self).entity_id,
            final(self).charge == old(self).charge,
            final(self).tick_start == (if entered && old(self).tick_start is None {
                Some(tick)
            } else {
                old(self).tick_start
            }),
            final(self).class == crate::entity::player::spec_patched(patch.class, old(self).class),
            final(self).health == crate::entity::player::spec_patched(
                patch.health,
                old(self).health,
            ),
            final(self).scoreboard_kills == (match patch.scoreboard_kills {
                Some(v) => Some(v),
                None => old(self).scoreboard_kills,
            }),
            final(self).scoreboard_deaths == (match patch.scoreboard_deaths {
                Some(v) => Some(v),
                None => old(self).scoreboard_deaths,
            }),
            final(self).scoreboard_assists == (match patch.scoreboard_assists {
                Some(v) => Some(
                    if v > (match old(self).scoreboard_assists {
                        Some(c) => c,
                        None => 0,
                    }) {
                        v
                    } else {
                        match old(self).scoreboard_assists {
                            Some(c) => c,
                            None => 0,
                        }
                    },
                ),
                None => old(self).scoreboard_assists,
            }),
            final(self).started_flying == (match patch.flags {
                Some(f) => {
                    let was_in_air = !old(self).on_ground && !old(self).in_water;
                    let now_in_air = !crate::game::spec_has_bits_u32(
                        f,
                        crate::game::ENTITY_ON_GROUND,
                    ) && !crate::game::spec_has_bits_u32(f, crate::game::ENTITY_IN_WATER);
                    if !was_in_air && now_in_air {
                        tick
                    } else {
                        old(self).started_flying
                    }
                },
                None => old(self).started_flying,
            }),
            (match patch.flags {
                Some(f) => final(self).on_ground == crate::game::spec_has_bits_u32(
                    f,
                    crate::game::ENTITY_ON_GROUND,
                ) && final(self).in_water == crate::game::spec_has_bits_u32(
                    f,
                    crate::game::ENTITY_IN_WATER,
                ),
                None => final(self).on_ground == old(self).on_ground && final(self).in_water == old(
                    self,
                ).in_water,
            }),
            final(self).origin.x == (match patch.origin_x {
                Some(v) => crate::collide::spec_clamp_coord(v),
                None => old(self).origin.x,
            }),
            final(self).origin.y == (match patch.origin_y {
                Some(v) => crate::collide::spec_clamp_coord(v),
                None => old(self).origin.y,
            }),
            final(self).origin.z == (match patch.origin_z {
                Some(v) => crate::collide::spec_clamp_coord(v),
                None => old(self).origin.z,
            }),
            spec_vec3_bounded(old(self).origin) ==> spec_vec3_bounded(final(self).origin),
    {
        if entered && self.tick_start.is_none() {
            self.tick_start = Some(tick);
        }
        if let Some(v) = patch.scoreboard_kills {
            self.scoreboard_kills = Some(v);
        }
        if let Some(v) = patch.scoreboard_assists {
            let cur: u32 = match self.scoreboard_assists {
                Some(c) => c,
                None => 0,
            };
            self.scoreboard_assists = Some(if v > cur { v } else { cur });
        }
        if let Some(v) = patch.scoreboard_deaths {
            self.scoreboard_deaths = Some(v);
        }
        if let Some(f) = patch.flags {
            let was_in_air = !self.on_ground && !self.in_water;
            self.on_ground = crate::game::has_bits_u32(f, crate::game::ENTITY_ON_GROUND);
            self.in_water = crate::game::has_bits_u32(f, crate::game::ENTITY_IN_WATER);
            let now_in_air = !self.on_ground && !self.in_water;
            if !was_in_air && now_in_air {
                self.started_flying = tick;
            }
        }
        if let Some(v) = patch.origin_x {
            self.origin.x = crate::collide::clamp_coord(v);
        }
        if let Some(v) = patch.origin_y {
            self.origin.y = crate::collide::clamp_coord(v);
        }
        if let Some(v) = patch.origin_z {
            self.origin.z = crate::collide::clamp_coord(v);
        }
        if let Some(c) = patch.class {
            self.class = c;
        }
        if let Some(h) = patch.health {
            self.health = h;
        }
    }

    /// Credits a released medigun charge, keyed by the medigun item's
    /// charge-type attribute: no attribute or zero counts as a stock charge,
    /// one as kritz, two as quick-fix; any other value is reported back as
    /// unrecognized and nothing is counted.
    pub fn handle_charged(&mut self, medigun_item: &Item) -> (known: bool)
        ensures
            final(self).healing == spec_charged_healing(old(self).healing, medigun_item@.attributes),
            known == (spec_charge_type(medigun_item@.attributes) == 0 || spec_charge_type(
                medigun_item@.attributes,
            ) == 1000 || spec_charge_type(medigun_item@.attributes) == 2000),
            spec_all_but_healing_unchanged(*old(self), *final(self)),
    {
        let key = "set_charge_type".to_owned();
        let attr = medigun_item.get_attribute(&key);
        let mut charge_type: i64 = 0;
        if let Some(a) = attr {
            if let Attribute::Float(_, v) = a {
                charge_type = *v;
            }
        }
        if charge_type == 0 {
            self.healing.charges_uber = self.healing.charges_uber.saturating_add(1);
            true
        } else if charge_type == 1000 {
            self.healing.charges_kritz = self.healing.charges_kritz.saturating_add(1);
            true
        } else if charge_type == 2000 {
            self.healing.charges_quickfix = self.healing.charges_quickfix.saturating_add(1);
            true
        } else {
            false
        }
    }


    /// A copy of this summary whose fields equal this one's.
    pub fn duplicate(&self) -> (r: PlayerSummary)
        ensures
            r.name == self.name,
            r.steamid == self.steamid,
            r.tick_start == self.tick_start,
            r.tick_end == self.tick_end,
            r.points == self.points,
            r.connection_count == self.connection_count,
            r.bonus_points == self.bonus_points,
            r.stats == self.stats,
            r.classes@ == self.classes@,
            r.weapons@ == self.weapons@,
            r.scoreboard_kills == self.scoreboard_kills,
            r.scoreboard_assists == self.scoreboard_assists,
            r.scoreboard_deaths == self.scoreboard_deaths,
            r.scoreboard_damage == self.scoreboard_damage,
            r.suicides == self.suicides,
            r.healing == self.healing,
            r.is_fake_player == self.is_fake_player,
            r.is_hl_tv == self.is_hl_tv,
            r.is_replay == self.is_replay,
            r.team == self.team,
            r.entity_id == self.entity_id,
            r.user_id == self.user_id,
            r.on_ground == self.on_ground,
            r.in_water == self.in_water,
            r.started_flying == self.started_flying,
            r.class == self.class,
            r.health == self.health,
            r.scoreboard_healing == self.scoreboard_healing,
            r.origin == self.origin,
            r.charge == self.charge,
            r.kritzed == self.kritzed,
    {
        let mut classes: Vec<(Class, Stats)> = Vec::new();
        let mut i: usize = 0;
        while i < self.classes.len()
            invariant
                i <= self.classes.len(),
                classes@ =~= self.classes@.take(i as int),
            decreases self.classes.len() - i,
        {
            classes.push(self.classes[i]);
            i = i + 1;
        }
        proof {
            assert(classes@ =~= self.classes@);
        }
        let mut weapons: Vec<(String, Stats)> = Vec::new();
        let mut j: usize = 0;
        while j < self.weapons.len()
            invariant
                j <= self.weapons.len(),
                weapons@ =~= self.weapons@.take(j as int),
            decreases self.weapons.len() - j,
        {
            let (k, st) = &self.weapons[j];
            weapons.push((k.clone(), *st));
            j = j + 1;
        }
        proof {
            assert(weapons@ =~= self.weapons@);
        }
        PlayerSummary {
            name: self.name.clone(),
            steamid: self.steamid.clone(),
            tick_start: self.tick_start,
            tick_end: self.tick_end,
            points: self.points,
            connection_count: self.connection_count,
            bonus_points: self.bonus_points,
            stats: self.stats,
            classes,
            weapons,
            scoreboard_kills: self.scoreboard_kills,
            scoreboard_assists: self.scoreboard_assists,
            scoreboard_deaths: self.scoreboard_deaths,
            scoreboard_damage: self.scoreboard_damage,
            suicides: self.suicides,
            healing: self.healing,
            is_fake_player: self.is_fake_player,
            is_hl_tv: self.is_hl_tv,
            is_replay: self.is_replay,
            team: self.team,
            entity_id: self.entity_id,
            user_id: self.user_id,
            on_ground: self.on_ground,
            in_water: self.in_water,
            started_flying: self.started_flying,
            class: self.class,
            health: self.health,
            scoreboard_healing: self.scoreboard_healing,
            origin: self.origin,
            charge: self.charge,
            kritzed: self.kritzed,
        }
    }

    /// Clears the per-round statistics when a round closes, keeping
    /// identity, scoreboard snapshots and transient state.
    pub fn reset_stats(&mut self)
        ensures
            final(self).stats == spec_stats_zero(),
            final(self).classes@.len() == 0,
            final(self).weapons@.len() == 0,
            final(self).suicides == 0,
            final(self).healing == spec_healers_zero(),
            spec_kills_consistent(*final(self)),
            spec_identity_unchanged(*old(self), *final(self)),
    {
        self.stats = Stats::new();
        self.classes = Vec::new();
        self.weapons = Vec::new();
        self.suicides = 0;
        self.healing = HealersSummary::new();
        proof {
            assert(final(self).classes@ =~= Seq::<(Class, Stats)>::empty());
            assert(final(self).weapons@ =~= Seq::<(String, Stats)>::empty());
        }
    }
}

/// The healer-block change on death: a medic dying mid-round at full charge
/// drops it; between 95% and a full charge it counts a near-full-charge
/// death; anything else leaves the block alone.
pub open spec fn spec_medic_death_healing(
    h: HealersSummary,
    class: Class,
    round_state: RoundState,
    charge: u32,
) -> HealersSummary {
    if class == Class::Medic && round_state == RoundState::RoundRunning {
        if charge == 1000 {
            HealersSummary { drops: spec_sat1(h.drops), ..h }
        } else if charge > 950 {
            HealersSummary { near_full_charge_death: spec_sat1(h.near_full_charge_death), ..h }
        } else {
            h
        }
    } else {
        h
    }
}

/// The healer-block change of a healing delta, bucketed by round phase.
pub open spec fn spec_phase_healing(
    h: HealersSummary,
    round_state: RoundState,
    amount: u32,
) -> HealersSummary {
    if round_state == RoundState::PreRound {
        HealersSummary { preround_healing: spec_sat_add(h.preround_healing, amount), ..h }
    } else if round_state == RoundState::TeamWin {
        HealersSummary { postround_healing: spec_sat_add(h.postround_healing, amount), ..h }
    } else {
        HealersSummary { healing: spec_sat_add(h.healing, amount), ..h }
    }
}

/// The numeric charge type of a medigun item: the value of its
/// `set_charge_type` attribute in thousandths, zero when absent or
/// string-valued.
pub open spec fn spec_charge_type(attrs: Seq<(Seq<char>, AttributeV)>) -> i64 {
    match spec_attr_lookup(attrs, "set_charge_type"@) {
        Some(AttributeV::Float(_, v)) => v,
        _ => 0,
    }
}

/// The healer-block change of a released charge, by the medigun's charge
/// type.
pub open spec fn spec_charged_healing(
    h: HealersSummary,
    attrs: Seq<(Seq<char>, AttributeV)>,
) -> HealersSummary {
    let t = spec_charge_type(attrs);
    if t == 0 {
        HealersSummary { charges_uber: spec_sat1(h.charges_uber), ..h }
    } else if t == 1000 {
        HealersSummary { charges_kritz: spec_sat1(h.charges_kritz), ..h }
    } else if t == 2000 {
        HealersSummary { charges_quickfix: spec_sat1(h.charges_quickfix), ..h }
    } else {
        h
    }
}

/// Everything a statistics handler must not touch: identity, scoreboard
/// snapshots, transient state and the healer block.
pub open spec fn spec_rest_unchanged(a: PlayerSummary, b: PlayerSummary) -> bool {
    &&& spec_rest_unchanged_but_healing(a, b)
    &&& b.healing == a.healing
}

/// As [`spec_rest_unchanged`], for handlers that may move the healer block.
pub open spec fn spec_rest_unchanged_but_healing(a: PlayerSummary, b: PlayerSummary) -> bool {
    &&& b.name == a.name
    &&& b.steamid == a.steamid
    &&& b.tick_start == a.tick_start
    &&& b.tick_end == a.tick_end
    &&& b.points == a.points
    &&& b.connection_count == a.connection_count
    &&& b.bonus_points == a.bonus_points
    &&& b.scoreboard_kills == a.scoreboard_kills
    &&& b.scoreboard_assists == a.scoreboard_assists
    &&& b.scoreboard_deaths == a.scoreboard_deaths
    &&& b.scoreboard_damage == a.scoreboard_damage
    &&& b.suicides == a.suicides
    &&& b.is_fake_player == a.is_fake_player
    &&& b.is_hl_tv == a.is_hl_tv
    &&& b.is_replay == a.is_replay
    &&& b.team == a.team
    &&& b.entity_id == a.entity_id
    &&& b.user_id == a.user_id
    &&& b.on_ground == a.on_ground
    &&& b.in_water == a.in_water
    &&& b.started_flying == a.started_flying
    &&& b.class == a.class
    &&& b.health == a.health
    &&& b.scoreboard_healing == a.scoreboard_healing
    &&& b.origin == a.origin
    &&& b.charge == a.charge
    &&& b.kritzed == a.kritzed
}

/// Everything but the healer block is unchanged, the statistics tables
/// included.
pub open spec fn spec_all_but_healing_unchanged(a: PlayerSummary, b: PlayerSummary) -> bool {
    &&& spec_rest_unchanged_but_healing(a, b)
    &&& b.stats == a.stats
    &&& b.classes@ == a.classes@
    &&& b.weapons@ == a.weapons@
}

/// What survives a per-round statistics reset: the player's identity,
/// scoreboard snapshots and transient state.
pub open spec fn spec_identity_unchanged(a: PlayerSummary, b: PlayerSummary) -> bool {
    &&& b.name == a.name
    &&& b.steamid == a.steamid
    &&& b.tick_start == a.tick_start
    &&& b.tick_end == a.tick_end
    &&& b.points == a.points
    &&& b.connection_count == a.connection_count
    &&& b.bonus_points == a.bonus_points
    &&& b.scoreboard_kills == a.scoreboard_kills
    &&& b.scoreboard_assists == a.scoreboard_assists
    &&& b.scoreboard_deaths == a.scoreboard_deaths
    &&& b.scoreboard_damage == a.scoreboard_damage
    &&& b.is_fake_player == a.is_fake_player
    &&& b.is_hl_tv == a.is_hl_tv
    &&& b.is_replay == a.is_replay
    &&& b.team == a.team
    &&& b.entity_id == a.entity_id
    &&& b.user_id == a.user_id
    &&& b.on_ground == a.on_ground
    &&& b.in_water == a.in_water
    &&& b.started_flying == a.started_flying
    &&& b.class == a.class
    &&& b.health == a.health
    &&& b.scoreboard_healing == a.scoreboard_healing
    &&& b.origin == a.origin
    &&& b.charge == a.charge
    &&& b.kritzed == a.kritzed
}

/// One completed round of the match.
#[derive(Debug)]
pub struct RoundSummary {
    pub winner: Option<Team>,
    pub is_stalemate: bool,
    pub is_sudden_death: bool,
    /// Round length in milliseconds.
    pub time_millis: u32,
    pub mvps: Vec<String>,
    pub players: Vec<PlayerSummary>,
    pub winners: Vec<String>,
    pub losers: Vec<String>,
}

impl RoundSummary {
    /// An empty round accumulator.
    pub fn new() -> (r: RoundSummary)
        ensures
            r.winner is None,
            !r.is_stalemate,
            !r.is_sudden_death,
            r.time_millis == 0,
            r.mvps@.len() == 0,
            r.players@.len() == 0,
            r.winners@.len() == 0,
            r.losers@.len() == 0,
    {
        RoundSummary {
            winner: None,
            is_stalemate: false,
            is_sudden_death: false,
            time_millis: 0,
            mvps: Vec::new(),
            players: Vec::new(),
            winners: Vec::new(),
            losers: Vec::new(),
        }
    }
}

/// The whole match summary the analyzer emits.
#[derive(Debug)]
pub struct DemoSummary {
    pub rounds: Vec<RoundSummary>,
    pub chat: Vec<ChatMessage>,
}

} // verus!
