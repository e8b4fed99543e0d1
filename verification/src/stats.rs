//! Per-player statistic counters and the rules by which single match events
//! (kills, assists, deaths, damage, healing, captures, shots) change them.
//!
//! Counters saturate at `u32::MAX` instead of overflowing; every mutator's
//! contract pins the whole resulting counter block.
use crate::game::{
    DamageType, RoundState, DEATH_ASSISTER_DOMINATION, DEATH_ASSISTER_REVENGE, DEATH_DOMINATION,
    DEATH_FEIGNED, DEATH_REVENGE,
};
use crate::game::spec_has_bits_u16;
use crate::game::has_bits_u16;
use vstd::prelude::*;

verus! {

/// `x + 1`, held at `u32::MAX`.
pub open spec fn spec_sat1(x: u32) -> u32 {
    if x < u32::MAX {
        (x + 1) as u32
    } else {
        x
    }
}

/// `x + d`, held at `u32::MAX`.
pub open spec fn spec_sat_add(x: u32, d: u32) -> u32 {
    if x + d <= u32::MAX {
        (x + d) as u32
    } else {
        u32::MAX
    }
}

/// One block of match statistics; kept three times per player (overall,
/// per class, per weapon).
#[derive(Clone, Copy, Debug, PartialEq, Eq, Structural)]
pub struct Stats {
    pub kills: u32,
    pub assists: u32,
    pub deaths: u32,
    pub postround_kills: u32,
    pub postround_assists: u32,
    pub postround_deaths: u32,
    pub preround_healing: u32,
    pub healing: u32,
    pub postround_healing: u32,
    pub damage: u32,
    pub damage_taken: u32,
    pub dominations: u32,
    pub dominated: u32,
    pub revenges: u32,
    pub revenged: u32,
    pub airshots: u32,
    pub headshot_kills: u32,
    pub backstab_kills: u32,
    pub headshots: u32,
    pub backstabs: u32,
    pub captures: u32,
    pub captures_blocked: u32,
    pub was_headshot: u32,
    pub was_backstabbed: u32,
    pub shots: u32,
    pub hits: u32,
}

/// The all-zero counter block.
pub open spec fn spec_stats_zero() -> Stats {
    Stats {
        kills: 0,
        assists: 0,
        deaths: 0,
        postround_kills: 0,
        postround_assists: 0,
        postround_deaths: 0,
        preround_healing: 0,
        healing: 0,
        postround_healing: 0,
        damage: 0,
        damage_taken: 0,
        dominations: 0,
        dominated: 0,
        revenges: 0,
        revenged: 0,
        airshots: 0,
        headshot_kills: 0,
        backstab_kills: 0,
        headshots: 0,
        backstabs: 0,
        captures: 0,
        captures_blocked: 0,
        was_headshot: 0,
        was_backstabbed: 0,
        shots: 0,
        hits: 0,
    }
}

impl Default for Stats {
    /// The all-zero counter block.
    fn default() -> (r: Stats)
        ensures
            r == spec_stats_zero(),
    {
        Stats::new()
    }
}

/// How a kill credited to this block changes it: domination and revenge
/// flags always count; a feigned death counts nothing else; during the
/// post-round phase only `postround_kills` moves; otherwise `kills` moves
/// together with the airshot, headshot and backstab breakdowns.
pub open spec fn spec_kill_applied(
    s: Stats,
    round_state: RoundState,
    flags: u16,
    damage_type: DamageType,
    airshot: bool,
) -> Stats {
    let s1 = Stats {
        dominations: if spec_has_bits_u16(flags, DEATH_DOMINATION) {
            spec_sat1(s.dominations)
        } else {
            s.dominations
        },
        revenges: if spec_has_bits_u16(flags, DEATH_REVENGE) {
            spec_sat1(s.revenges)
        } else {
            s.revenges
        },
        ..s
    };
    if spec_has_bits_u16(flags, DEATH_FEIGNED) {
        s1
    } else if round_state == RoundState::TeamWin {
        Stats { postround_kills: spec_sat1(s1.postround_kills), ..s1 }
    } else {
        Stats {
            kills: spec_sat1(s1.kills),
            airshots: if airshot {
                spec_sat1(s1.airshots)
            } else {
                s1.airshots
            },
            backstab_kills: if damage_type == DamageType::Backstab {
                spec_sat1(s1.backstab_kills)
            } else {
                s1.backstab_kills
            },
            headshot_kills: if damage_type == DamageType::Headshot {
                spec_sat1(s1.headshot_kills)
            } else {
                s1.headshot_kills
            },
            ..s1
        }
    }
}

/// How a death suffered by this block changes it: domination and revenge
/// flags count against the victim; a feigned death leaves the death counters
/// alone; during the post-round phase only `postround_deaths` moves.
pub open spec fn spec_death_applied(s: Stats, round_state: RoundState, flags: u16) -> Stats {
    let d0 = if spec_has_bits_u16(flags, DEATH_DOMINATION) {
        spec_sat1(s.dominated)
    } else {
        s.dominated
    };
    let d1 = if spec_has_bits_u16(flags, DEATH_ASSISTER_DOMINATION) {
        spec_sat1(d0)
    } else {
        d0
    };
    let r0 = if spec_has_bits_u16(flags, DEATH_REVENGE) {
        spec_sat1(s.revenged)
    } else {
        s.revenged
    };
    let r1 = if spec_has_bits_u16(flags, DEATH_ASSISTER_REVENGE) {
        spec_sat1(r0)
    } else {
        r0
    };
    let s1 = Stats { dominated: d1, revenged: r1, ..s };
    if spec_has_bits_u16(flags, DEATH_FEIGNED) {
        s1
    } else if round_state == RoundState::TeamWin {
        Stats { postround_deaths: spec_sat1(s1.postround_deaths), ..s1 }
    } else {
        Stats { deaths: spec_sat1(s1.deaths), ..s1 }
    }
}

/// How an assist credited to this block changes it, mirroring the kill rule.
pub open spec fn spec_assist_applied(s: Stats, round_state: RoundState, flags: u16) -> Stats {
    let s1 = Stats {
        dominations: if spec_has_bits_u16(flags, DEATH_ASSISTER_DOMINATION) {
            spec_sat1(s.dominations)
        } else {
            s.dominations
        },
        revenges: if spec_has_bits_u16(flags, DEATH_ASSISTER_REVENGE) {
            spec_sat1(s.revenges)
        } else {
            s.revenges
        },
        ..s
    };
    if spec_has_bits_u16(flags, DEATH_FEIGNED) {
        s1
    } else if round_state == RoundState::TeamWin {
        Stats { postround_assists: spec_sat1(s1.postround_assists), ..s1 }
    } else {
        Stats { assists: spec_sat1(s1.assists), ..s1 }
    }
}

/// How dealt damage changes the block: the amount accumulates and headshot or
/// backstab hits are counted.
pub open spec fn spec_damage_dealt_applied(s: Stats, amount: u16, damage_type: DamageType) -> Stats {
    Stats {
        damage: spec_sat_add(s.damage, amount as u32),
        backstabs: if damage_type == DamageType::Backstab {
            spec_sat1(s.backstabs)
        } else {
            s.backstabs
        },
        headshots: if damage_type == DamageType::Headshot {
            spec_sat1(s.headshots)
        } else {
            s.headshots
        },
        ..s
    }
}

/// How taken damage changes the block, mirroring [`spec_damage_dealt_applied`].
pub open spec fn spec_damage_taken_applied(s: Stats, amount: u16, damage_type: DamageType) -> Stats {
    Stats {
        damage_taken: spec_sat_add(s.damage_taken, amount as u32),
        was_backstabbed: if damage_type == DamageType::Backstab {
            spec_sat1(s.was_backstabbed)
        } else {
            s.was_backstabbed
        },
        was_headshot: if damage_type == DamageType::Headshot {
            spec_sat1(s.was_headshot)
        } else {
            s.was_headshot
        },
        ..s
    }
}

/// How a healing delta changes the block, attributed to the round phase:
/// `preround_healing` before the round, `postround_healing` during the
/// post-round phase, `healing` otherwise.
pub open spec fn spec_healing_applied(s: Stats, round_state: RoundState, amount: u32) -> Stats {
    if round_state == RoundState::TeamWin {
        Stats { postround_healing: spec_sat_add(s.postround_healing, amount), ..s }
    } else if round_state == RoundState::PreRound {
        Stats { preround_healing: spec_sat_add(s.preround_healing, amount), ..s }
    } else {
        Stats { healing: spec_sat_add(s.healing, amount), ..s }
    }
}

impl Stats {
    /// The all-zero counter block.
    pub fn new() -> (r: Stats)
        ensures
            r == spec_stats_zero(),
    {
        Stats {
            kills: 0,
            assists: 0,
            deaths: 0,
            postround_kills: 0,
            postround_assists: 0,
            postround_deaths: 0,
            preround_healing: 0,
            healing: 0,
            postround_healing: 0,
            damage: 0,
            damage_taken: 0,
            dominations: 0,
            dominated: 0,
            revenges: 0,
            revenged: 0,
            airshots: 0,
            headshot_kills: 0,
            backstab_kills: 0,
            headshots: 0,
            backstabs: 0,
            captures: 0,
            captures_blocked: 0,
            was_headshot: 0,
            was_backstabbed: 0,
            shots: 0,
            hits: 0,
        }
    }

    /// Counts one shot fired.
    pub fn handle_fire_shot(&mut self)
        ensures
            (*final(self) == Stats { shots: spec_sat1(old(self).shots), ..*old(self) }),
    {
        self.shots = self.shots.saturating_add(1);
    }

    /// Counts one shot that connected.
    pub fn handle_shot_hit(&mut self)
        ensures
            (*final(self) == Stats { hits: spec_sat1(old(self).hits), ..*old(self) }),
    {
        self.hits = self.hits.saturating_add(1);
    }

    /// Applies dealt damage; see [`spec_damage_dealt_applied`].
    pub fn handle_damage_dealt(&mut self, amount: u16, damage_type: DamageType)
        ensures
            *final(self) == spec_damage_dealt_applied(*old(self), amount, damage_type),
    {
        self.damage = self.damage.saturating_add(amount as u32);
        if damage_type == DamageType::Backstab {
            self.backstabs = self.backstabs.saturating_add(1);
        } else if damage_type == DamageType::Headshot {
            self.headshots = self.headshots.saturating_add(1);
        }
    }

    /// Applies taken damage; see [`spec_damage_taken_applied`].
    pub fn handle_damage_taken(&mut self, amount: u16, damage_type: DamageType)
        ensures
            *final(self) == spec_damage_taken_applied(*old(self), amount, damage_type),
    {
        self.damage_taken = self.damage_taken.saturating_add(amount as u32);
        if damage_type == DamageType::Backstab {
            self.was_backstabbed = self.was_backstabbed.saturating_add(1);
        } else if damage_type == DamageType::Headshot {
            self.was_headshot = self.was_headshot.saturating_add(1);
        }
    }

    /// Applies a suffered death; see [`spec_death_applied`]. A feigned death
    /// never moves the death counters.
    pub fn handle_death(&mut self, round_state: RoundState, flags: u16)
        ensures
            *final(self) == spec_death_applied(*old(self), round_state, flags),
    {
        if has_bits_u16(flags, DEATH_DOMINATION) {
            self.dominated = self.dominated.saturating_add(1);
        }
        if has_bits_u16(flags, DEATH_ASSISTER_DOMINATION) {
            self.dominated = self.dominated.saturating_add(1);
        }
        if has_bits_u16(flags, DEATH_REVENGE) {
            self.revenged = self.revenged.saturating_add(1);
        }
        if has_bits_u16(flags, DEATH_ASSISTER_REVENGE) {
            self.revenged = self.revenged.saturating_add(1);
        }
        if has_bits_u16(flags, DEATH_FEIGNED) {
            return ;
        }
        if round_state == RoundState::TeamWin {
            self.postround_deaths = self.postround_deaths.saturating_add(1);
        } else {
            self.deaths = self.deaths.saturating_add(1);
        }
    }

    /// Applies a credited assist; see [`spec_assist_applied`].
    pub fn handle_assist(&mut self, round_state: RoundState, flags: u16)
        ensures
            *final(self) == spec_assist_applied(*old(self), round_state, flags),
    {
        if has_bits_u16(flags, DEATH_ASSISTER_DOMINATION) {
            self.dominations = self.dominations.saturating_add(1);
        }
        if has_bits_u16(flags, DEATH_ASSISTER_REVENGE) {
            self.revenges = self.revenges.saturating_add(1);
        }
        if has_bits_u16(flags, DEATH_FEIGNED) {
            return ;
        }
        if round_state == RoundState::TeamWin {
            self.postround_assists = self.postround_assists.saturating_add(1);
        } else {
            self.assists = self.assists.saturating_add(1);
        }
    }

    /// Applies a credited kill; see [`spec_kill_applied`].
    pub fn handle_kill(
        &mut self,
        round_state: RoundState,
        flags: u16,
        damage_type: DamageType,
        airshot: bool,
    )
        ensures
            *final(self) == spec_kill_applied(*old(self), round_state, flags, damage_type, airshot),
    {
        if has_bits_u16(flags, DEATH_DOMINATION) {
            self.dominations = self.dominations.saturating_add(1);
        }
        if has_bits_u16(flags, DEATH_REVENGE) {
            self.revenges = self.revenges.saturating_add(1);
        }
        if has_bits_u16(flags, DEATH_FEIGNED) {
            return ;
        }
        if round_state == RoundState::TeamWin {
            self.postround_kills = self.postround_kills.saturating_add(1);
            return ;
        }
        self.kills = self.kills.saturating_add(1);
        if airshot {
            self.airshots = self.airshots.saturating_add(1);
        }
        if damage_type == DamageType::Backstab {
            self.backstab_kills = self.backstab_kills.saturating_add(1);
        } else if damage_type == DamageType::Headshot {
            self.headshot_kills = self.headshot_kills.saturating_add(1);
        }
    }

    /// Counts one point capture.
    pub fn handle_capture(&mut self)
        ensures
            (*final(self) == Stats { captures: spec_sat1(old(self).captures), ..*old(self) }),
    {
        self.captures = self.captures.saturating_add(1);
    }

    /// Counts one blocked capture.
    pub fn handle_capture_blocked(&mut self)
        ensures
            (*final(self) == Stats {
                captures_blocked: spec_sat1(old(self).captures_blocked),
                ..*old(self)
            }),
    {
        self.captures_blocked = self.captures_blocked.saturating_add(1);
    }

    /// Applies a healing delta; see [`spec_healing_applied`].
    pub fn handle_healing(&mut self, round_state: RoundState, amount: u32)
        ensures
            *final(self) == spec_healing_applied(*old(self), round_state, amount),
    {
        if round_state == RoundState::TeamWin {
            self.postround_healing = self.postround_healing.saturating_add(amount);
        } else if round_state == RoundState::PreRound {
            self.preround_healing = self.preround_healing.saturating_add(amount);
        } else {
            self.healing = self.healing.saturating_add(amount);
        }
    }
}

/// Medic-specific counters of a player's summary.
#[derive(Clone, Copy, Debug, PartialEq, Eq, Structural)]
pub struct HealersSummary {
    pub preround_healing: u32,
    pub healing: u32,
    pub postround_healing: u32,
    pub drops: u32,
    pub near_full_charge_death: u32,
    pub charges_uber: u32,
    pub charges_kritz: u32,
    pub charges_quickfix: u32,
}

/// The all-zero healer block.
pub open spec fn spec_healers_zero() -> HealersSummary {
    HealersSummary {
        preround_healing: 0,
        healing: 0,
        postround_healing: 0,
        drops: 0,
        near_full_charge_death: 0,
        charges_uber: 0,
        charges_kritz: 0,
        charges_quickfix: 0,
    }
}

impl HealersSummary {
    /// The all-zero healer block.
    pub fn new() -> (r: HealersSummary)
        ensures
            r == spec_healers_zero(),
    {
        HealersSummary {
            preround_healing: 0,
            healing: 0,
            postround_healing: 0,
            drops: 0,
            near_full_charge_death: 0,
            charges_uber: 0,
            charges_kritz: 0,
            charges_quickfix: 0,
        }
    }

    /// True when every counter is zero; such a block is left out of the
    /// serialized summary.
    pub fn is_empty(&self) -> (r: bool)
        ensures
            r == (*self == spec_healers_zero()),
    {
        self.preround_healing == 0 && self.healing == 0 && self.postround_healing == 0
            && self.drops == 0 && self.near_full_charge_death == 0 && self.charges_uber == 0
            && self.charges_kritz == 0 && self.charges_quickfix == 0
    }
}

impl Default for HealersSummary {
    /// The all-zero healer block.
    fn default() -> (r: HealersSummary)
        ensures
            r == spec_healers_zero(),
    {
        HealersSummary::new()
    }
}

} // verus!
