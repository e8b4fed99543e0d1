//! The library's stated laws, proved from the contracts and invariants the
//! rest of the crate maintains.
use crate::game::{spec_has_bits_u16, DamageType, RoundState, DEATH_FEIGNED};
use crate::stats::{spec_death_applied, spec_kill_applied, spec_sat1, Stats};
use crate::summary::{spec_kills_consistent, spec_sum_kills, PlayerSummary};
use vstd::prelude::*;

verus! {

/// The sum over all per-weapon statistic blocks of a player's kills equals
/// the player's overall kill counter.
pub proof fn lemma_weapon_kills_account(ps: PlayerSummary)
    requires
        spec_kills_consistent(ps),
    ensures
        spec_sum_kills(ps.weapons@) == ps.stats.kills as int,
{
}

/// The sum over all per-class statistic blocks of a player's kills equals
/// the player's overall kill counter.
pub proof fn lemma_class_kills_account(ps: PlayerSummary)
    requires
        spec_kills_consistent(ps),
    ensures
        spec_sum_kills(ps.classes@) == ps.stats.kills as int,
{
}

/// A feigned death never moves the victim's death counters: neither the
/// in-round nor the post-round one.
pub proof fn lemma_feigned_death_not_counted(s: Stats, round_state: RoundState, flags: u16)
    requires
        spec_has_bits_u16(flags, DEATH_FEIGNED),
    ensures
        spec_death_applied(s, round_state, flags).deaths == s.deaths,
        spec_death_applied(s, round_state, flags).postround_deaths == s.postround_deaths,
{
}

/// A death outside the post-round phase between distinct players moves the
/// attacker's kill counter and the victim's death counter up by one, as
/// long as neither counter is saturated and the death is not feigned.
pub proof fn lemma_death_counted(
    attacker: Stats,
    victim: Stats,
    round_state: RoundState,
    flags: u16,
    damage_type: DamageType,
    airshot: bool,
)
    requires
        !spec_has_bits_u16(flags, DEATH_FEIGNED),
        round_state != RoundState::TeamWin,
        attacker.kills < u32::MAX,
        victim.deaths < u32::MAX,
    ensures
        spec_kill_applied(attacker, round_state, flags, damage_type, airshot).kills
            == attacker.kills + 1,
        spec_death_applied(victim, round_state, flags).deaths == victim.deaths + 1,
{
}

/// A death during the post-round phase moves the post-round counters and
/// leaves the in-round kill and death counters alone.
pub proof fn lemma_postround_death_counted(
    attacker: Stats,
    victim: Stats,
    flags: u16,
    damage_type: DamageType,
    airshot: bool,
)
    requires
        !spec_has_bits_u16(flags, DEATH_FEIGNED),
    ensures
        spec_kill_applied(attacker, RoundState::TeamWin, flags, damage_type, airshot).kills
            == attacker.kills,
        spec_kill_applied(attacker, RoundState::TeamWin, flags, damage_type, airshot).postround_kills
            == spec_sat1(attacker.postround_kills),
        spec_death_applied(victim, RoundState::TeamWin, flags).deaths == victim.deaths,
        spec_death_applied(victim, RoundState::TeamWin, flags).postround_deaths == spec_sat1(
            victim.postround_deaths,
        ),
{
}

} // verus!
