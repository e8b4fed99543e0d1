//! The match analyzer: consumes the decoded message stream tick by tick,
//! maintains the entity world, resolves damage and death events to weapon
//! names, and accumulates the per-player match summary.
use crate::collide::{
    aabb_contains, player_box, spec_aabb_contains, spec_player_box, spec_vec3_bounded, Vec3i,
    BUILDING_HALF_X, BUILDING_HALF_Y, BUILDING_HALF_Z, COORD_LIMIT,
};
use crate::entity::buildings::{BuildingPatch, Dispenser, Sentry, Teleporter};
use crate::entity::player::{Player, PlayerPatch};
use crate::entity::projectile::{Projectile, ProjectilePatch, ProjectileType};
use crate::entity::shield::{Shield, ShieldPatch};
use crate::entity::weapon::{Weapon, WeaponPatch};
use crate::entity::{Entity, EntityClass, Unknown};
use crate::external::{parse_user_info, user_info_of};
use crate::game::{
    round_state_from_u16, spec_round_state_from, spec_valid_handle, team_from_u8, valid_handle,
    Class, DamageType, RoundState, Team, INVALID_HANDLE,
};
use crate::maps::U32Map;
use crate::messages::{
    CaptureBlockedEvent, ChatKind, DemoMessage, GameEventModel, PacketEntityModel, PlayerDeath,
    PlayerHurtEvent, PointCapturedEvent, RoundWinEvent, SayText2Model, SendTableInfo,
    ServerClassInfo, TempEntityModel, UpdateType, UserMessageModel, WinPanelEvent,
};
use crate::props::{Prop, PropIds, PropValue};
use crate::schema::{string_eq, Schema};
use crate::stats::{spec_sat1, Stats};
use crate::summary::{
    spec_kills_consistent, spec_sum_kills, ChatMessage, DemoSummary, PlayerSummary, RoundSummary,
};
use crate::weapon::str_is;
use vstd::prelude::*;

verus! {

/// Number of entity slots in the world.
pub const ENTITY_COUNT: usize = 2048;

/// The analyzer's record of a projectile that ceased to exist or may hurt a
/// player this tick; kept only within the tick it was produced in.
pub struct Explosion {
    pub projectile: Projectile,
    pub origin: Vec3i,
    /// The tick the record was produced in; carried for the tick-locality
    /// invariant.
    pub tick: Ghost<u32>,
}

/// A sentry firing this tick, recorded from its muzzle-flash effect.
#[derive(Clone, Copy, Debug, PartialEq, Eq, Structural)]
pub struct SentryShot {
    pub sentry: Sentry,
}

/// What a hurt event was traced back to.
pub enum HurtSource {
    Explosion(Explosion),
    NonBlastProjectile(Explosion),
    SentryShot(SentryShot),
    Unknown,
}

/// A hurt event kept until end of tick, with its resolved source.
pub struct Hurt {
    pub victim: u32,
    pub attacker: u32,
    pub wep: u32,
    pub origin: Vec3i,
    pub source: HurtSource,
}

/// A deferred tick event, processed when the tick closes.
pub enum Event {
    Death(PlayerDeath),
    Hurt(PlayerHurtEvent),
    MedigunCharged(u32),
}

/// Counters standing in for the error log: nothing aborts parsing, but each
/// recovered irregularity is counted by its kind.
#[derive(Clone, Copy, Debug, PartialEq, Eq, Structural)]
pub struct Irregularities {
    /// An enum value or record outside its known range.
    pub decode_errors: u32,
    /// An event referring to an id or handle never seen.
    pub reference_misses: u32,
    /// A state combination the protocol should not produce.
    pub inconsistencies: u32,
    /// A schema id missing from the registry.
    pub schema_gaps: u32,
    /// A value accepted although outside its expected envelope.
    pub anomalies: u32,
}

impl Irregularities {
    /// The all-zero counter block.
    pub fn new() -> (r: Irregularities)
        ensures
            r == (Irregularities {
                decode_errors: 0,
                reference_misses: 0,
                inconsistencies: 0,
                schema_gaps: 0,
                anomalies: 0,
            }),
    {
        Irregularities {
            decode_errors: 0,
            reference_misses: 0,
            inconsistencies: 0,
            schema_gaps: 0,
            anomalies: 0,
        }
    }
}

/// The analyzer.
pub struct MatchAnalyzer {
    schema: Schema,
    ids: PropIds,
    chat: Vec<ChatMessage>,
    current_round: RoundSummary,
    rounds: Vec<RoundSummary>,
    summaries: Vec<PlayerSummary>,
    uid_index: U32Map<usize>,
    user_entities: U32Map<u32>,
    weapon_owners: U32Map<u32>,
    cosmetic_owners: U32Map<u32>,
    entity_handles: U32Map<u32>,
    entities: Vec<Option<Entity>>,
    models: U32Map<String>,
    server_class_names: U32Map<String>,
    weapon_class_ids: U32Map<bool>,
    projectile_class_ids: U32Map<bool>,
    waiting_for_players: bool,
    round_state: RoundState,
    tick: u32,
    server_tick: u32,
    tick_events: Vec<Event>,
    hurts: Vec<Hurt>,
    sentry_shots: Vec<SentryShot>,
    explosions: Vec<Explosion>,
    airblasts: Vec<u32>,
    round_dirty: bool,
    irregularities: Irregularities,
}

/// The per-slot part of the world invariant: a player's valid self-handle is
/// bound to its slot in the handle index; a projectile knows its owner or
/// its original launcher and keeps bounded flight state.
pub open spec fn spec_slot_ok(handles: Map<u32, u32>, slot: Option<Entity>, i: int) -> bool {
    match slot {
        Some(Entity::Player(p)) => spec_valid_handle(p.handle) ==> handles.contains_key(p.handle)
            && handles[p.handle] == i as u32,
        Some(Entity::Projectile(pr)) => {
            &&& spec_valid_handle(pr.owner) || pr.original_launcher_handle != 0
            &&& spec_vec3_bounded(pr.origin)
            &&& -2 * COORD_LIMIT <= pr.velocity.x <= 2 * COORD_LIMIT
            &&& -2 * COORD_LIMIT <= pr.velocity.y <= 2 * COORD_LIMIT
            &&& -2 * COORD_LIMIT <= pr.velocity.z <= 2 * COORD_LIMIT
        },
        Some(Entity::Sentry(b)) => spec_vec3_bounded(b.origin),
        Some(Entity::Dispenser(b)) => spec_vec3_bounded(b.origin),
        Some(Entity::Teleporter(b)) => spec_vec3_bounded(b.origin),
        _ => true,
    }
}

/// The per-record part of the explosion invariant: the record was produced
/// in the current tick and carries bounded geometry.
pub open spec fn spec_explosion_ok(e: Explosion, tick: u32) -> bool {
    &&& e.tick@ == tick
    &&& spec_vec3_bounded(e.projectile.origin)
    &&& -2 * COORD_LIMIT <= e.projectile.velocity.x <= 2 * COORD_LIMIT
    &&& -2 * COORD_LIMIT <= e.projectile.velocity.y <= 2 * COORD_LIMIT
    &&& -2 * COORD_LIMIT <= e.projectile.velocity.z <= 2 * COORD_LIMIT
    &&& spec_vec3_bounded(e.origin)
}

/// A hurt source's explosion, if any, keeps bounded geometry, so the hit
/// test stays exact.
pub open spec fn spec_source_ok(src: HurtSource) -> bool {
    match src {
        HurtSource::Explosion(e) | HurtSource::NonBlastProjectile(e) => {
            &&& spec_vec3_bounded(e.projectile.origin)
            &&& -2 * COORD_LIMIT <= e.projectile.velocity.x <= 2 * COORD_LIMIT
            &&& -2 * COORD_LIMIT <= e.projectile.velocity.y <= 2 * COORD_LIMIT
            &&& -2 * COORD_LIMIT <= e.projectile.velocity.z <= 2 * COORD_LIMIT
        },
        _ => true,
    }
}

/// The hurt-record invariant: its source is geometrically sound.
pub open spec fn spec_hurt_ok(h: Hurt) -> bool {
    spec_source_ok(h.source)
}

/// What the analyzer demands of every player summary it holds: the kill
/// accounting is consistent and the tracked position is bounded.
pub open spec fn spec_summary_ok(s: PlayerSummary) -> bool {
    &&& spec_kills_consistent(s)
    &&& spec_vec3_bounded(s.origin)
}

/// After one summary is replaced by a well-formed one with the same user
/// id, the summary table and the user-id index stay sound.
proof fn lemma_summaries_update_ok(
    pre: Seq<PlayerSummary>,
    post: Seq<PlayerSummary>,
    uidx: Map<u32, usize>,
    idx: int,
)
    requires
        0 <= idx < pre.len(),
        post == pre.update(idx, post[idx]),
        forall|j: int| 0 <= j < pre.len() ==> spec_summary_ok(#[trigger] pre[j]),
        spec_summary_ok(post[idx]),
        post[idx].user_id == pre[idx].user_id,
        forall|u: u32|
            uidx.contains_key(u) ==> #[trigger] uidx[u] < pre.len() && pre[uidx[u] as int].user_id
                == u,
    ensures
        post.len() == pre.len(),
        forall|j: int| 0 <= j < post.len() ==> spec_summary_ok(#[trigger] post[j]),
        forall|u: u32|
            uidx.contains_key(u) ==> #[trigger] uidx[u] < post.len() && post[uidx[u] as int].user_id
                == u,
{
    assert forall|j: int| 0 <= j < post.len() implies spec_summary_ok(#[trigger] post[j]) by {
        if j != idx {
            assert(post[j] == pre[j]);
        }
    }
    assert forall|u: u32|
        uidx.contains_key(u) implies #[trigger] uidx[u] < post.len() && post[uidx[u] as int].user_id
        == u by {
        if uidx[u] as int != idx {
            assert(post[uidx[u] as int] == pre[uidx[u] as int]);
        }
    }
}

impl MatchAnalyzer {
    /// The analyzer's well-formedness: the world has its fixed capacity, the
    /// user-id index is sound, every summary satisfies the kill-accounting
    /// invariant and keeps a bounded position, every slot satisfies
    /// [`spec_slot_ok`], and every explosion on record was produced in the
    /// current tick.
    pub closed spec fn wf(&self) -> bool {
        &&& self.entities@.len() == ENTITY_COUNT
        &&& forall|j: int|
            0 <= j < self.summaries@.len() ==> spec_summary_ok(#[trigger] self.summaries@[j])
        &&& forall|u: u32|
            self.uid_index@.contains_key(u) ==> #[trigger] self.uid_index@[u]
                < self.summaries@.len() && self.summaries@[self.uid_index@[u] as int].user_id == u
        &&& forall|i: int|
            0 <= i < self.entities@.len() ==> spec_slot_ok(
                self.entity_handles@,
                #[trigger] self.entities@[i],
                i,
            )
        &&& forall|k: int|
            0 <= k < self.explosions@.len() ==> spec_explosion_ok(
                #[trigger] self.explosions@[k],
                self.tick,
            )
        &&& forall|k: int| 0 <= k < self.hurts@.len() ==> spec_hurt_ok(#[trigger] self.hurts@[k])
    }

    /// The current tick.
    pub closed spec fn spec_tick(&self) -> u32 {
        self.tick
    }

    /// The current round state.
    pub closed spec fn spec_round_state(&self) -> RoundState {
        self.round_state
    }

    /// The entity world's slots.
    pub closed spec fn spec_entities(&self) -> Seq<Option<Entity>> {
        self.entities@
    }

    /// The handle index.
    pub closed spec fn spec_handles(&self) -> Map<u32, u32> {
        self.entity_handles@
    }

    /// The per-player summaries, in order of first appearance.
    pub closed spec fn spec_summaries(&self) -> Seq<PlayerSummary> {
        self.summaries@
    }

    /// The explosion records of the current tick.
    pub closed spec fn spec_explosions(&self) -> Seq<Explosion> {
        self.explosions@
    }

    /// A fresh analyzer over a schema registry.
    pub fn new(schema: Schema) -> (r: MatchAnalyzer)
        ensures
            r.wf(),
            r.spec_tick() == 0,
            r.spec_round_state() == RoundState::Init,
            r.spec_summaries().len() == 0,
            r.spec_explosions().len() == 0,
    {
        let mut entities: Vec<Option<Entity>> = Vec::new();
        let mut i: usize = 0;
        while i < ENTITY_COUNT
            invariant
                i <= ENTITY_COUNT,
                entities@.len() == i,
                forall|j: int| 0 <= j < entities@.len() ==> entities@[j] is None,
            decreases ENTITY_COUNT - i,
        {
            entities.push(None);
            i = i + 1;
        }
        MatchAnalyzer {
            schema,
            ids: PropIds::new(),
            chat: Vec::new(),
            current_round: RoundSummary::new(),
            rounds: Vec::new(),
            summaries: Vec::new(),
            uid_index: U32Map::new(),
            user_entities: U32Map::new(),
            weapon_owners: U32Map::new(),
            cosmetic_owners: U32Map::new(),
            entity_handles: U32Map::new(),
            entities,
            models: U32Map::new(),
            server_class_names: U32Map::new(),
            weapon_class_ids: U32Map::new(),
            projectile_class_ids: U32Map::new(),
            waiting_for_players: false,
            round_state: RoundState::Init,
            tick: 0,
            server_tick: 0,
            tick_events: Vec::new(),
            hurts: Vec::new(),
            sentry_shots: Vec::new(),
            explosions: Vec::new(),
            airblasts: Vec::new(),
            round_dirty: false,
            irregularities: Irregularities::new(),
        }
    }

    /// The recovered-irregularity counters.
    pub closed spec fn spec_irregularities(&self) -> Irregularities {
        self.irregularities
    }

    /// The recovered-irregularity counters.
    pub fn irregularities(&self) -> (r: Irregularities)
        ensures
            r == self.spec_irregularities(),
    {
        self.irregularities
    }
}

/// True when the sequence holds the value.
pub fn contains_u32(v: &Vec<u32>, x: u32) -> (r: bool)
    ensures
        r == v@.contains(x),
{
    let mut i: usize = 0;
    while i < v.len()
        invariant
            i <= v.len(),
            forall|k: int| 0 <= k < i as int ==> v@[k] != x,
        decreases v.len() - i,
    {
        if v[i] == x {
            return true;
        }
        i = i + 1;
    }
    proof {
        assert(!v@.contains(x));
    }
    false
}

impl MatchAnalyzer {
    /// The game-rules flag: the server is waiting for players.
    pub closed spec fn spec_waiting(&self) -> bool {
        self.waiting_for_players
    }

    /// The completed rounds so far.
    pub closed spec fn spec_rounds(&self) -> Seq<RoundSummary> {
        self.rounds@
    }

    /// The chat log so far.
    pub closed spec fn spec_chat(&self) -> Seq<ChatMessage> {
        self.chat@
    }

    /// The hurt records of the current tick.
    pub closed spec fn spec_hurts(&self) -> Seq<Hurt> {
        self.hurts@
    }

    /// The handles of the players that airblasted this tick.
    pub closed spec fn spec_airblasts(&self) -> Seq<u32> {
        self.airblasts@
    }

    /// The user-id to summary-position index.
    pub closed spec fn spec_uid_index(&self) -> Map<u32, usize> {
        self.uid_index@
    }

    /// The entity-id to user-id table.
    pub closed spec fn spec_user_entities(&self) -> Map<u32, u32> {
        self.user_entities@
    }

    /// The item registry the analyzer resolves schema ids against.
    pub closed spec fn spec_schema_items(&self) -> Map<u32, crate::schema::Item> {
        self.schema.items@
    }

    /// The identifiers of the recognized network properties.
    pub closed spec fn spec_ids(&self) -> PropIds {
        self.ids
    }

    /// The sentry shots recorded this tick.
    pub closed spec fn spec_sentry_shots(&self) -> Seq<SentryShot> {
        self.sentry_shots@
    }

    /// The last authoritative server tick.
    pub closed spec fn spec_server_tick(&self) -> u32 {
        self.server_tick
    }

    /// The deferred events of the current tick.
    pub closed spec fn spec_tick_events(&self) -> Seq<Event> {
        self.tick_events@
    }

    /// The weapon-handle to owner-user-id table.
    pub closed spec fn spec_weapon_owners(&self) -> Map<u32, u32> {
        self.weapon_owners@
    }

    /// The model index.
    pub closed spec fn spec_models(&self) -> Map<u32, String> {
        self.models@
    }

    /// The class ids classified as weapons.
    pub closed spec fn spec_weapon_class_ids(&self) -> Map<u32, bool> {
        self.weapon_class_ids@
    }

    /// The class ids classified as projectiles.
    pub closed spec fn spec_projectile_class_ids(&self) -> Map<u32, bool> {
        self.projectile_class_ids@
    }

    /// The running round accumulator.
    pub closed spec fn spec_current_round(&self) -> RoundSummary {
        self.current_round
    }

    /// The server-class id to class-name table.
    pub closed spec fn spec_server_class_names(&self) -> Map<u32, String> {
        self.server_class_names@
    }

    /// Position of a user id in the summary table, if the user is known.
    fn summary_idx_of_uid(&self, uid: u32) -> (r: Option<usize>)
        requires
            self.wf(),
        ensures
            match r {
                Some(i) => self.uid_index@.contains_key(uid) && i == self.uid_index@[uid] && i
                    < self.summaries@.len() && self.summaries@[i as int].user_id == uid,
                None => !self.uid_index@.contains_key(uid),
            },
    {
        match self.uid_index.get(uid) {
            Some(i) => Some(*i),
            None => None,
        }
    }

    /// Position of the summary owning an entity id, if both links are known.
    fn summary_idx_of_entity(&self, eid: u32) -> (r: Option<usize>)
        requires
            self.wf(),
        ensures
            r == spec_eid_idx(self.spec_summaries(), self.spec_uid_index(), self.spec_user_entities(), eid),
            match r {
                Some(i) => i < self.summaries@.len(),
                None => true,
            },
    {
        match self.user_entities.get(eid) {
            Some(uid) => self.summary_idx_of_uid(*uid),
            None => None,
        }
    }

    /// Applies the game-rules properties: the waiting-for-players flag and
    /// the round state; a round-state value outside the known range is
    /// counted and ignored.
    pub fn handle_game_rules(&mut self, pe: &PacketEntityModel)
        requires
            old(self).wf(),
        ensures
            final(self).wf(),
            final(self).spec_tick() == old(self).spec_tick(),
            final(self).spec_summaries() == old(self).spec_summaries(),
            final(self).spec_entities() == old(self).spec_entities(),
            final(self).spec_explosions() == old(self).spec_explosions(),
            (final(self).spec_waiting(), final(self).spec_round_state()) == spec_game_rules_fold(
                pe.props@,
                old(self).spec_ids(),
                (old(self).spec_waiting(), old(self).spec_round_state()),
            ),
    {
        let mut i: usize = 0;
        proof {
            assert(pe.props@.take(0) =~= Seq::<Prop>::empty());
        }
        while i < pe.props.len()
            invariant
                i <= pe.props.len(),
                self.wf(),
                self.tick == old(self).tick,
                self.summaries@ == old(self).summaries@,
                self.entities@ == old(self).entities@,
                self.explosions@ == old(self).explosions@,
                self.ids == old(self).ids,
                (self.waiting_for_players, self.round_state) == spec_game_rules_fold(
                    pe.props@.take(i as int),
                    old(self).ids,
                    (old(self).waiting_for_players, old(self).round_state),
                ),
            decreases pe.props.len() - i,
        {
            let p = &pe.props[i];
            if let PropValue::Int(v) = &p.value {
                if p.ident == self.ids.waiting_for_players {
                    self.waiting_for_players = *v == 1;
                } else if p.ident == self.ids.round_state {
                    if 0 <= *v && *v <= 10 {
                        self.round_state = round_state_from_u16(*v as u16);
                    } else {
                        self.irregularities.decode_errors =
                            self.irregularities.decode_errors.saturating_add(1);
                    }
                }
            }
            proof {
                assert(pe.props@.take(i + 1).drop_last() =~= pe.props@.take(i as int));
                assert(pe.props@.take(i + 1).last() == pe.props@[i as int]);
            }
            i = i + 1;
        }
        proof {
            assert(pe.props@.take(pe.props@.len() as int) =~= pe.props@);
        }
    }

    /// Appends a chat line from a user message; the speaker is named by the
    /// steam-id of the summary its entity id resolves to, or left empty.
    pub fn handle_user_message(&mut self, msg: &UserMessageModel)
        requires
            old(self).wf(),
        ensures
            final(self).wf(),
            final(self).spec_tick() == old(self).spec_tick(),
            final(self).spec_summaries() == old(self).spec_summaries(),
            final(self).spec_entities() == old(self).spec_entities(),
            final(self).spec_explosions() == old(self).spec_explosions(),
            match msg {
                UserMessageModel::SayText2(m) => ({
                    let line = final(self).spec_chat().last();
                    &&& final(self).spec_chat().len() == old(self).spec_chat().len() + 1
                    &&& forall|k: int|
                        0 <= k < old(self).spec_chat().len() ==> final(self).spec_chat()[k] == old(self).spec_chat()[k]
                    &&& line.tick == old(self).spec_tick()
                    &&& line.message@ == m.text@
                    &&& line.user@ == (match spec_eid_idx(
                        old(self).spec_summaries(),
                        old(self).spec_uid_index(),
                        old(self).spec_user_entities(),
                        m.client as u32,
                    ) {
                        Some(i) => if (i as int) < old(self).spec_summaries().len() {
                            old(self).spec_summaries()[i as int].steamid@
                        } else {
                            Seq::<char>::empty()
                        },
                        None => Seq::<char>::empty(),
                    })
                    &&& line.is_dead == (m.kind == ChatKind::ChatAllDead || m.kind
                        == ChatKind::ChatTeamDead)
                    &&& line.is_team == (m.kind == ChatKind::ChatTeam || m.kind
                        == ChatKind::ChatTeamDead)
                    &&& line.is_spec == (m.kind == ChatKind::ChatAllSpec)
                    &&& line.is_name_change == (m.kind == ChatKind::NameChange)
                }),
                UserMessageModel::Other => final(self).spec_chat() == old(self).spec_chat(),
            },
    {
        match msg {
            UserMessageModel::SayText2(m) => {
                let user: String = match self.summary_idx_of_entity(m.client as u32) {
                    Some(i) => self.summaries[i].steamid.clone(),
                    None => String::new(),
                };
                let line = ChatMessage {
                    tick: self.tick,
                    user,
                    message: m.text.clone(),
                    is_dead: m.kind == ChatKind::ChatAllDead || m.kind == ChatKind::ChatTeamDead,
                    is_team: m.kind == ChatKind::ChatTeam || m.kind == ChatKind::ChatTeamDead,
                    is_spec: m.kind == ChatKind::ChatAllSpec,
                    is_name_change: m.kind == ChatKind::NameChange,
                };
                self.chat.push(line);
            },
            UserMessageModel::Other => {},
        }
    }

    /// Credits a capture to every entity id named in the event; an id that
    /// resolves to no player is counted as a reference miss. When the named
    /// ids resolve to pairwise distinct players — the common case — each of
    /// those players is credited exactly one capture and nobody else moves.
    pub fn handle_point_captured(&mut self, cap: &PointCapturedEvent)
        requires
            old(self).wf(),
        ensures
            final(self).wf(),
            final(self).spec_tick() == old(self).spec_tick(),
            final(self).spec_entities() == old(self).spec_entities(),
            final(self).spec_explosions() == old(self).spec_explosions(),
            final(self).spec_hurts() == old(self).spec_hurts(),
            final(self).spec_summaries().len() == old(self).spec_summaries().len(),
            spec_cappers_distinct(
                old(self).spec_summaries(),
                old(self).spec_uid_index(),
                old(self).spec_user_entities(),
                cap.cappers@,
            ) ==> ({
                let s0 = old(self).spec_summaries();
                let u = old(self).spec_uid_index();
                let ue = old(self).spec_user_entities();
                &&& forall|p: int|
                    0 <= p < cap.cappers@.len() ==> #[trigger] spec_capper_done(
                        s0,
                        u,
                        ue,
                        cap.cappers@[p],
                        final(self).spec_summaries(),
                    )
                &&& forall|j: int|
                    0 <= j < s0.len() && !(exists|p: int|
                        0 <= p < cap.cappers@.len() && spec_eid_idx(
                            s0,
                            u,
                            ue,
                            #[trigger] cap.cappers@[p] as u32,
                        ) == Some(j as usize)) ==> #[trigger] final(self).spec_summaries()[j]
                        == s0[j]
            }),
    {
        let ghost s0 = self.spec_summaries();
        let ghost u0 = self.spec_uid_index();
        let ghost ue0 = self.spec_user_entities();
        let ghost distinct = spec_cappers_distinct(s0, u0, ue0, cap.cappers@);
        let mut i: usize = 0;
        while i < cap.cappers.len()
            invariant
                i <= cap.cappers@.len(),
                self.wf(),
                self.tick == old(self).tick,
                self.entities@ == old(self).entities@,
                self.explosions@ == old(self).explosions@,
                self.hurts@ == old(self).hurts@,
                self.uid_index@ == u0,
                self.user_entities@ == ue0,
                self.summaries@.len() == s0.len(),
                s0 == old(self).spec_summaries(),
                u0 == old(self).spec_uid_index(),
                ue0 == old(self).spec_user_entities(),
                distinct == spec_cappers_distinct(s0, u0, ue0, cap.cappers@),
                distinct ==> forall|p: int|
                    0 <= p < i as int ==> #[trigger] spec_capper_done(
                        s0,
                        u0,
                        ue0,
                        cap.cappers@[p],
                        self.summaries@,
                    ),
                distinct ==> forall|j: int|
                    0 <= j < s0.len() && !(exists|p: int|
                        0 <= p < i as int && spec_eid_idx(
                            s0,
                            u0,
                            ue0,
                            #[trigger] cap.cappers@[p] as u32,
                        ) == Some(j as usize)) ==> #[trigger] self.summaries@[j] == s0[j],
            decreases cap.cappers@.len() - i,
    {
            let eid = cap.cappers[i] as u32;
            match self.summary_idx_of_entity(eid) {
                Some(idx) => {
                    let ghost pre = self.summaries@;
                    self.summaries[idx].handle_capture();
                    self.round_dirty = true;
                    proof {
                        lemma_summaries_update_ok(pre, self.summaries@, self.uid_index@, idx as int);
                        if distinct {
                            assert(spec_eid_idx(s0, u0, ue0, cap.cappers@[i as int] as u32)
                                == Some(idx));
                            assert forall|p: int|
                                0 <= p < i as int implies spec_eid_idx(
                                s0,
                                u0,
                                ue0,
                                #[trigger] cap.cappers@[p] as u32,
                            ) != Some(idx) by {
                                assert(spec_cappers_distinct(s0, u0, ue0, cap.cappers@));
                            }
                            assert(pre[idx as int] == s0[idx as int]);
                            assert(spec_capper_done(
                                s0,
                                u0,
                                ue0,
                                cap.cappers@[i as int],
                                self.summaries@,
                            ));
                            assert forall|p: int|
                                0 <= p < i as int implies #[trigger] spec_capper_done(
                                s0,
                                u0,
                                ue0,
                                cap.cappers@[p],
                                self.summaries@,
                            ) by {
                                assert(spec_capper_done(s0, u0, ue0, cap.cappers@[p], pre));
                                match spec_eid_idx(s0, u0, ue0, cap.cappers@[p] as u32) {
                                    Some(x) => {
                                        assert(spec_eid_idx(s0, u0, ue0, cap.cappers@[p] as u32)
                                            != Some(idx));
                                        assert(self.summaries@[x as int] == pre[x as int]);
                                    },
                                    None => {},
                                }
                            }
                        }
                    }
                },
                None => {
                    self.irregularities.reference_misses =
                        self.irregularities.reference_misses.saturating_add(1);
                },
            }
            i = i + 1;
        }
    }

    /// Credits a blocked capture to the blocking entity id; an id that
    /// resolves to no player is counted as a reference miss and changes
    /// nothing.
    pub fn handle_capture_blocked(&mut self, cap: &CaptureBlockedEvent)
        requires
            old(self).wf(),
        ensures
            final(self).wf(),
            final(self).spec_tick() == old(self).spec_tick(),
            final(self).spec_entities() == old(self).spec_entities(),
            final(self).spec_explosions() == old(self).spec_explosions(),
            final(self).spec_hurts() == old(self).spec_hurts(),
            final(self).spec_summaries().len() == old(self).spec_summaries().len(),
            (match spec_eid_idx(
                old(self).spec_summaries(),
                old(self).spec_uid_index(),
                old(self).spec_user_entities(),
                cap.blocker as u32,
            ) {
                Some(i) => (i as int) < old(self).spec_summaries().len()
                    ==> spec_summary_capture_blocked_updated(
                    old(self).spec_summaries()[i as int],
                    final(self).spec_summaries()[i as int],
                ) && forall|j: int|
                    0 <= j < old(self).spec_summaries().len() && j != i as int
                        ==> final(self).spec_summaries()[j] == old(self).spec_summaries()[j],
                None => final(self).spec_summaries() == old(self).spec_summaries(),
            }),
    {
        let eid = cap.blocker as u32;
        match self.summary_idx_of_entity(eid) {
            Some(idx) => {
                let ghost pre = self.summaries@;
                self.summaries[idx].handle_capture_blocked();
                self.round_dirty = true;
                proof {
                    lemma_summaries_update_ok(pre, self.summaries@, self.uid_index@, idx as int);
                }
            },
            None => {
                self.irregularities.reference_misses =
                    self.irregularities.reference_misses.saturating_add(1);
            },
        }
    }

    /// Records the up-to-three most valuable players of the closing round:
    /// the steam-ids of the panel's entity ids that resolve to players are
    /// appended to the round's list, in panel order.
    pub fn handle_win_panel(&mut self, e: &WinPanelEvent)
        requires
            old(self).wf(),
        ensures
            final(self).wf(),
            final(self).spec_tick() == old(self).spec_tick(),
            final(self).spec_summaries() == old(self).spec_summaries(),
            final(self).spec_entities() == old(self).spec_entities(),
            final(self).spec_explosions() == old(self).spec_explosions(),
            final(self).spec_current_round().mvps@ == spec_mvps_added(
                old(self).spec_summaries(),
                old(self).spec_uid_index(),
                old(self).spec_user_entities(),
                seq![e.player_1, e.player_2, e.player_3],
                old(self).spec_current_round().mvps@,
            ),
    {
        let mvp_ids: [u16; 3] = [e.player_1, e.player_2, e.player_3];
        let ghost ids = seq![e.player_1, e.player_2, e.player_3];
        let mut i: usize = 0;
        proof {
            assert(ids.take(0) =~= Seq::<u16>::empty());
        }
        while i < 3
            invariant
                i <= 3,
                self.wf(),
                self.tick == old(self).tick,
                self.summaries@ == old(self).summaries@,
                self.entities@ == old(self).entities@,
                self.explosions@ == old(self).explosions@,
                self.uid_index@ == old(self).uid_index@,
                self.user_entities@ == old(self).user_entities@,
                ids == seq![e.player_1, e.player_2, e.player_3],
                mvp_ids@ == ids,
                self.current_round.mvps@ == spec_mvps_added(
                    old(self).spec_summaries(),
                    old(self).spec_uid_index(),
                    old(self).spec_user_entities(),
                    ids.take(i as int),
                    old(self).spec_current_round().mvps@,
                ),
            decreases 3 - i,
        {
            if let Some(idx) = self.summary_idx_of_entity(mvp_ids[i] as u32) {
                let sid = self.summaries[idx].steamid.clone();
                self.current_round.mvps.push(sid);
            }
            proof {
                assert(ids.take(i + 1).drop_last() =~= ids.take(i as int));
                assert(ids.take(i + 1).last() == ids[i as int]);
            }
            i = i + 1;
        }
        proof {
            assert(ids.take(3) =~= ids);
        }
    }
}

/// The game-rules fold: how one property list changes the pair of the
/// waiting-for-players flag and the round state.
pub open spec fn spec_game_rules_fold(
    props: Seq<Prop>,
    ids: PropIds,
    acc: (bool, RoundState),
) -> (bool, RoundState)
    decreases props.len(),
{
    if props.len() == 0 {
        acc
    } else {
        let prev = spec_game_rules_fold(props.drop_last(), ids, acc);
        let p = props.last();
        match p.value {
            PropValue::Int(v) => {
                if p.ident == ids.waiting_for_players {
                    (v == 1, prev.1)
                } else if p.ident == ids.round_state {
                    if 0 <= v <= 10 {
                        (prev.0, spec_round_state_from(v as u16))
                    } else {
                        prev
                    }
                } else {
                    prev
                }
            },
            _ => prev,
        }
    }
}

/// The weapon entity a handle resolves to, if the handle is bound to a slot
/// holding a weapon.
pub open spec fn spec_weapon_of(
    entities: Seq<Option<Entity>>,
    handles: Map<u32, u32>,
    h: u32,
) -> Option<Weapon> {
    if handles.contains_key(h) && handles[h] < entities.len() {
        match entities[handles[h] as int] {
            Some(Entity::Weapon(w)) => Some(w),
            _ => None,
        }
    } else {
        None
    }
}

/// The player entity stored at a world slot.
pub open spec fn spec_player_at(entities: Seq<Option<Entity>>, eid: u32) -> Option<Player> {
    if (eid as int) < entities.len() {
        match entities[eid as int] {
            Some(Entity::Player(p)) => Some(p),
            _ => None,
        }
    } else {
        None
    }
}

/// The decoded damage type of a wire value; out-of-range values fall back
/// to normal damage.
pub open spec fn spec_dt_of(v: u16) -> DamageType {
    if v <= 83 {
        crate::game::spec_damage_type_from(v)
    } else {
        DamageType::Normal
    }
}

/// The airshot predicate: the victim was airborne and had been flying for
/// more than sixteen ticks.
pub open spec fn spec_airshot(tick: u32, s: PlayerSummary) -> bool {
    !s.on_ground && !s.in_water && s.started_flying + 16 < tick
}

/// The charge a dying medic is judged at: the retained high charge of the
/// weapon in the victim's second slot, capped at a full charge; the stored
/// transient charge when the victim is no medic or the weapon is unknown.
pub open spec fn spec_death_charge(
    entities: Seq<Option<Entity>>,
    handles: Map<u32, u32>,
    s: PlayerSummary,
    ve: Player,
) -> u32 {
    if s.class == Class::Medic {
        match spec_weapon_of(entities, handles, ve.wep_1) {
            Some(w) => if w.last_high_charge > 1000 {
                1000
            } else {
                w.last_high_charge
            },
            None => s.charge,
        }
    } else {
        s.charge
    }
}

/// The fields of a player summary no death, kill or assist bookkeeping may
/// touch.
pub open spec fn spec_identity_frame(a: PlayerSummary, b: PlayerSummary) -> bool {
    &&& b.name == a.name
    &&& b.steamid == a.steamid
    &&& b.tick_start == a.tick_start
    &&& b.tick_end == a.tick_end
    &&& b.points == a.points
    &&& b.connection_count == a.connection_count
    &&& b.bonus_points == a.bonus_points
    &&& b.scoreboard_kills == a.scoreboard_kills
    &&& b.scoreboard_assists == a.scoreboard_assists
    &&& b.scoreboard_deaths == a.scoreboard_deaths
    &&& b.scoreboard_damage == a.scoreboard_damage
    &&& b.is_fake_player == a.is_fake_player
    &&& b.is_hl_tv == a.is_hl_tv
    &&& b.is_replay == a.is_replay
    &&& b.team == a.team
    &&& b.entity_id == a.entity_id
    &&& b.user_id == a.user_id
    &&& b.on_ground == a.on_ground
    &&& b.in_water == a.in_water
    &&& b.started_flying == a.started_flying
    &&& b.class == a.class
    &&& b.health == a.health
    &&& b.scoreboard_healing == a.scoreboard_healing
    &&& b.origin == a.origin
    &&& b.kritzed == a.kritzed
}

/// How a suffered death changes one summary: the medic charge is set to
/// `charge`, the healer block follows the medic death rule at that charge,
/// the death lands in the overall and per-class blocks.
pub open spec fn spec_summary_death_updated(
    a: PlayerSummary,
    b: PlayerSummary,
    rs: RoundState,
    flags: u16,
    charge: u32,
) -> bool {
    &&& b.stats == crate::stats::spec_death_applied(a.stats, rs, flags)
    &&& crate::summary::spec_class_entry_updated(
        a.classes@,
        b.classes@,
        a.class,
        crate::summary::spec_death_fn(rs, flags),
    )
    &&& b.weapons@ == a.weapons@
    &&& b.healing == crate::summary::spec_medic_death_healing(a.healing, a.class, rs, charge)
    &&& b.charge == charge
    &&& b.suicides == a.suicides
    &&& spec_identity_frame(a, b)
}

/// How a credited kill changes one summary, under the resolved weapon name:
/// the kill lands in the overall block, the per-class block and the
/// per-weapon block keyed by that name. A kill that would overflow the
/// overall counter is not counted and leaves the summary unchanged.
pub open spec fn spec_summary_kill_updated(
    a: PlayerSummary,
    b: PlayerSummary,
    rs: RoundState,
    wname: Seq<char>,
    flags: u16,
    dt: DamageType,
    airshot: bool,
) -> bool {
    if !crate::game::spec_has_bits_u16(flags, crate::game::DEATH_FEIGNED) && rs
        != RoundState::TeamWin && a.stats.kills == u32::MAX {
        b == a
    } else {
        &&& b.stats == crate::stats::spec_kill_applied(a.stats, rs, flags, dt, airshot)
        &&& crate::summary::spec_class_entry_updated(
            a.classes@,
            b.classes@,
            a.class,
            crate::summary::spec_kill_fn(rs, flags, dt, airshot),
        )
        &&& crate::summary::spec_weapon_entry_updated(
            a.weapons@,
            b.weapons@,
            wname,
            crate::summary::spec_kill_fn(rs, flags, dt, airshot),
        )
        &&& b.healing == a.healing
        &&& b.charge == a.charge
        &&& b.suicides == a.suicides
        &&& spec_identity_frame(a, b)
    }
}

/// How a credited assist changes one summary.
pub open spec fn spec_summary_assist_updated(
    a: PlayerSummary,
    b: PlayerSummary,
    rs: RoundState,
    flags: u16,
) -> bool {
    &&& b.stats == crate::stats::spec_assist_applied(a.stats, rs, flags)
    &&& crate::summary::spec_class_entry_updated(
        a.classes@,
        b.classes@,
        a.class,
        crate::summary::spec_assist_fn(rs, flags),
    )
    &&& b.weapons@ == a.weapons@
    &&& b.healing == a.healing
    &&& b.charge == a.charge
    &&& b.suicides == a.suicides
    &&& spec_identity_frame(a, b)
}

/// The effect of a self-kill on the summaries: the player's suicide
/// counter moves up by one outside the post-round phase; an unknown player
/// or a post-round self-kill changes nothing.
pub open spec fn spec_death_suicide_effect(
    s: Seq<PlayerSummary>,
    u: Map<u32, usize>,
    rs: RoundState,
    uid: u32,
    s2: Seq<PlayerSummary>,
) -> bool {
    if u.contains_key(uid) && (u[uid] as int) < s.len() {
        if rs != RoundState::TeamWin {
            s2 == s.update(
                u[uid] as int,
                PlayerSummary {
                    suicides: spec_sat1(s[u[uid] as int].suicides),
                    ..s[u[uid] as int]
                },
            )
        } else {
            s2 == s
        }
    } else {
        s2 == s
    }
}

/// The attacker- and assister-side effect of a non-suicide death: when the
/// attacker is a real player with a real weapon and the death is not
/// feigned, a post-round kill moves only the attacker's post-round counter,
/// and an in-round kill lands under the weapon name the resolver yields;
/// a named assister is credited; everyone else is untouched. Reference
/// misses drop the remaining work.
pub open spec fn spec_death_credit_effect(
    entities: Seq<Option<Entity>>,
    handles: Map<u32, u32>,
    items: Map<u32, crate::schema::Item>,
    airblasts: Seq<u32>,
    hurts: Seq<Hurt>,
    s: Seq<PlayerSummary>,
    u: Map<u32, usize>,
    rs: RoundState,
    d: PlayerDeath,
    flags: u16,
    dt: DamageType,
    airshot: bool,
    victim_e: Player,
    s2: Seq<PlayerSummary>,
) -> bool {
    let feign = crate::game::spec_has_bits_u16(flags, crate::game::DEATH_FEIGNED);
    let au = d.attacker as u32;
    let ai_known = u.contains_key(au) && (u[au] as int) < s.len();
    let ai = u[au] as int;
    let a_entity = if ai_known {
        spec_player_at(entities, s[ai].entity_id)
    } else {
        None
    };
    let attacker_runs = d.attacker != 0 && d.weapon_def_index != 0xffff && !feign && ai_known && (
    rs == RoundState::TeamWin || a_entity is Some);
    let su = d.assister as u32;
    let si_known = u.contains_key(su) && (u[su] as int) < s.len();
    let si = u[su] as int;
    let assister_runs = attacker_runs && d.assister != 0xffff && si_known;
    let wname = spec_weapon_name_from_damage(
        entities,
        handles,
        items,
        airblasts,
        hurts,
        dt,
        d.damage_bits,
        victim_e,
        a_entity->Some_0,
        None,
    );
    &&& s2.len() == s.len()
    &&& (attacker_runs && rs == RoundState::TeamWin && !(assister_runs && si == ai)) ==> (s2[ai]
        == PlayerSummary {
        stats: Stats {
            postround_kills: spec_sat1(s[ai].stats.postround_kills),
            ..s[ai].stats
        },
        ..s[ai]
    })
    &&& (attacker_runs && rs != RoundState::TeamWin && !(assister_runs && si == ai))
        ==> spec_summary_kill_updated(s[ai], s2[ai], rs, wname, flags, dt, airshot)
    &&& (assister_runs && !(si == ai)) ==> spec_summary_assist_updated(s[si], s2[si], rs, flags)
    &&& forall|j: int|
        0 <= j < s.len() && !(attacker_runs && j == ai) && !(assister_runs && j == si)
            ==> s2[j] == s[j]
}

/// The whole effect of a non-suicide death on the summaries: the victim's
/// death is booked at the charge the medic died with, the airshot predicate
/// is taken at the death tick, and the attacker and assister are credited
/// as [`spec_death_credit_effect`] says; an unknown victim or a victim
/// without a player entity drops the event.
pub open spec fn spec_death_effect(
    entities: Seq<Option<Entity>>,
    handles: Map<u32, u32>,
    items: Map<u32, crate::schema::Item>,
    airblasts: Seq<u32>,
    hurts: Seq<Hurt>,
    s: Seq<PlayerSummary>,
    u: Map<u32, usize>,
    rs: RoundState,
    tick: u32,
    d: PlayerDeath,
    s2: Seq<PlayerSummary>,
) -> bool {
    let vu = d.user_id as u32;
    if !(u.contains_key(vu) && (u[vu] as int) < s.len()) {
        s2 == s
    } else {
        let vi = u[vu] as int;
        match spec_player_at(entities, s[vi].entity_id) {
            None => s2 == s,
            Some(ve) => {
                let charge = spec_death_charge(entities, handles, s[vi], ve);
                let flags = d.death_flags;
                let dt = spec_dt_of(d.custom_kill);
                let airshot = spec_airshot(tick, s[vi]);
                exists|mid: Seq<PlayerSummary>|
                    {
                        &&& #[trigger] mid.len() == s.len()
                        &&& spec_summary_death_updated(s[vi], mid[vi], rs, flags, charge)
                        &&& forall|j: int| 0 <= j < s.len() && j != vi ==> mid[j] == s[j]
                        &&& spec_death_credit_effect(
                            entities,
                            handles,
                            items,
                            airblasts,
                            hurts,
                            mid,
                            u,
                            rs,
                            d,
                            flags,
                            dt,
                            airshot,
                            ve,
                            s2,
                        )
                    }
            },
        }
    }
}

/// The first recorded sentry shot whose sentry is owned by the given
/// entity id.
pub open spec fn spec_find_sentry_shot(shots: Seq<SentryShot>, aeid: u32) -> Option<int>
    decreases shots.len(),
{
    if shots.len() == 0 {
        None
    } else if shots.first().sentry.owner_entity == aeid {
        Some(0)
    } else {
        match spec_find_sentry_shot(shots.drop_first(), aeid) {
            Some(i) => Some(i + 1),
            None => None,
        }
    }
}

/// The squared distance between two positions.
pub open spec fn spec_d2(a: Vec3i, b: Vec3i) -> int {
    (a.x - b.x) * (a.x - b.x) + (a.y - b.y) * (a.y - b.y) + (a.z - b.z) * (a.z - b.z)
}

/// Whether an explosion record can be charged to the attacker and its
/// swept volume overlaps the victim's hit box.
pub open spec fn spec_exp_qualifies(
    e: Explosion,
    origin: Vec3i,
    ah: u32,
    airblasted: bool,
) -> bool {
    &&& (e.projectile.owner == ah || e.projectile.original_owner == ah || airblasted)
    &&& crate::entity::projectile::spec_check_hit(
        e.projectile.kind,
        e.projectile.origin,
        e.projectile.velocity,
        crate::weapon::spec_projectile_explosion_radius(e.projectile.class_name@),
        spec_player_box(origin),
    )
}

/// The qualifying explosion among the first `n` records that is closest to
/// the victim, earliest record first on ties.
pub open spec fn spec_best_hit_upto(
    exps: Seq<Explosion>,
    origin: Vec3i,
    ah: u32,
    airblasted: bool,
    n: int,
) -> Option<int>
    decreases n,
{
    if n <= 0 {
        None
    } else {
        let prev = spec_best_hit_upto(exps, origin, ah, airblasted, n - 1);
        if spec_exp_qualifies(exps[n - 1], origin, ah, airblasted) {
            match prev {
                None => Some(n - 1),
                Some(b) => if spec_d2(exps[n - 1].origin, origin) < spec_d2(exps[b].origin, origin) {
                    Some(n - 1)
                } else {
                    prev
                },
            }
        } else {
            prev
        }
    }
}

/// A chosen record lies within the prefix it was chosen from.
pub proof fn lemma_best_hit_in_range(
    exps: Seq<Explosion>,
    origin: Vec3i,
    ah: u32,
    airblasted: bool,
    n: int,
)
    ensures
        match spec_best_hit_upto(exps, origin, ah, airblasted, n) {
            Some(b) => 0 <= b < n,
            None => true,
        },
    decreases n,
{
    if n > 0 {
        lemma_best_hit_in_range(exps, origin, ah, airblasted, n - 1);
    }
}

/// The chosen explosion record of a hurt: the closest qualifying record,
/// unless the damage is the burn type, which never traces to an explosion.
pub open spec fn spec_hurt_exp_choice(
    exps: Seq<Explosion>,
    origin: Vec3i,
    ah: u32,
    airblasted: bool,
    dt: DamageType,
) -> Option<int> {
    if dt == DamageType::Burning {
        None
    } else {
        spec_best_hit_upto(exps, origin, ah, airblasted, exps.len() as int)
    }
}

/// The projectile a chosen explosion is recorded with: an airblasting
/// attacker adopts it — reflected, re-owned and re-teamed — while its
/// original owner is kept.
pub open spec fn spec_reowned(p: Projectile, airblasted: bool, ah: u32, at: Team) -> Projectile {
    if airblasted {
        Projectile { is_reflected: true, owner: ah, team: at, ..p }
    } else {
        p
    }
}

/// The kinds whose hits are recorded as contact damage rather than blasts.
pub open spec fn spec_nonblast_kind(k: ProjectileType) -> bool {
    ||| crate::entity::projectile::spec_is_arrow(k)
    ||| k == ProjectileType::ScorchShotFlare
    ||| k == ProjectileType::Cleaver
    ||| k == ProjectileType::EnergyRing
}

/// What the source of a recorded hurt must be, given the sentry-shot and
/// explosion selections.
pub open spec fn spec_source_matches(
    src: HurtSource,
    shots: Seq<SentryShot>,
    sfind: Option<int>,
    exps: Seq<Explosion>,
    echoice: Option<int>,
    airblasted: bool,
    ah: u32,
    at: Team,
) -> bool {
    match sfind {
        Some(k) => match src {
            HurtSource::SentryShot(ss) => 0 <= k < shots.len() && ss == shots[k],
            _ => false,
        },
        None => match echoice {
            Some(b) => {
                let d = spec_reowned(exps[b].projectile, airblasted, ah, at);
                if spec_nonblast_kind(d.kind) {
                    match src {
                        HurtSource::NonBlastProjectile(e) => e.projectile == d && e.origin
                            == exps[b].origin,
                        _ => false,
                    }
                } else {
                    match src {
                        HurtSource::Explosion(e) => e.projectile == d && e.origin == exps[b].origin,
                        _ => false,
                    }
                }
            },
            None => src is Unknown,
        },
    }
}

/// How dealt damage and the hit count change one summary: the damage lands
/// at all three levels under the resolved name, and — unless the damage is
/// a burn tick, a flare burn or a sentry's — one hit is counted the same
/// way.
pub open spec fn spec_summary_dealt_updated(
    a: PlayerSummary,
    b: PlayerSummary,
    wname: Seq<char>,
    amount: u16,
    dt: DamageType,
) -> bool {
    let hit = dt != DamageType::Burning && dt != DamageType::BurningFlare
        && !crate::weapon::spec_is_sentry_name(wname);
    exists|m: PlayerSummary|
        {
            &&& #[trigger] spec_summary_one_dealt(a, m, wname, amount, dt)
            &&& if hit {
                spec_summary_one_hit(m, b, wname)
            } else {
                b == m
            }
        }
}

/// The damage-dealt half of [`spec_summary_dealt_updated`].
pub open spec fn spec_summary_one_dealt(
    a: PlayerSummary,
    b: PlayerSummary,
    wname: Seq<char>,
    amount: u16,
    dt: DamageType,
) -> bool {
    &&& b.stats == crate::stats::spec_damage_dealt_applied(a.stats, amount, dt)
    &&& crate::summary::spec_class_entry_updated(
        a.classes@,
        b.classes@,
        a.class,
        crate::summary::spec_damage_dealt_fn(amount, dt),
    )
    &&& crate::summary::spec_weapon_entry_updated(
        a.weapons@,
        b.weapons@,
        wname,
        crate::summary::spec_damage_dealt_fn(amount, dt),
    )
    &&& b.healing == a.healing
    &&& b.charge == a.charge
    &&& b.suicides == a.suicides
    &&& spec_identity_frame(a, b)
}

/// The hit-count half of [`spec_summary_dealt_updated`].
pub open spec fn spec_summary_one_hit(a: PlayerSummary, b: PlayerSummary, wname: Seq<char>) -> bool {
    &&& b.stats == (Stats { hits: spec_sat1(a.stats.hits), ..a.stats })
    &&& crate::summary::spec_class_entry_updated(
        a.classes@,
        b.classes@,
        a.class,
        crate::summary::spec_shot_hit_fn(),
    )
    &&& crate::summary::spec_weapon_entry_updated(
        a.weapons@,
        b.weapons@,
        wname,
        crate::summary::spec_shot_hit_fn(),
    )
    &&& b.healing == a.healing
    &&& b.charge == a.charge
    &&& b.suicides == a.suicides
    &&& spec_identity_frame(a, b)
}

/// How taken damage changes one summary.
pub open spec fn spec_summary_taken_updated(
    a: PlayerSummary,
    b: PlayerSummary,
    wname: Seq<char>,
    amount: u16,
    dt: DamageType,
) -> bool {
    &&& b.stats == crate::stats::spec_damage_taken_applied(a.stats, amount, dt)
    &&& crate::summary::spec_class_entry_updated(
        a.classes@,
        b.classes@,
        a.class,
        crate::summary::spec_damage_taken_fn(amount, dt),
    )
    &&& crate::summary::spec_weapon_entry_updated(
        a.weapons@,
        b.weapons@,
        wname,
        crate::summary::spec_damage_taken_fn(amount, dt),
    )
    &&& b.healing == a.healing
    &&& b.charge == a.charge
    &&& b.suicides == a.suicides
    &&& spec_identity_frame(a, b)
}

/// The whole effect of a hurt event on the summaries, the sentry-shot
/// buffer and the hurt record buffer: self damage and the fall-damage
/// signature are dropped without side effects; an engineer's normal-damage
/// hurt consumes exactly one matching sentry shot; otherwise the closest
/// qualifying explosion of this tick is chosen, re-owned when the attacker
/// airblasted; the damage is booked on both sides under the resolver's
/// name; a lethal hurt appends its record.
pub open spec fn spec_hurt_effect(
    entities: Seq<Option<Entity>>,
    handles: Map<u32, u32>,
    items: Map<u32, crate::schema::Item>,
    airblasts: Seq<u32>,
    s: Seq<PlayerSummary>,
    u: Map<u32, usize>,
    shots: Seq<SentryShot>,
    exps: Seq<Explosion>,
    h: PlayerHurtEvent,
    s2: Seq<PlayerSummary>,
    shots2: Seq<SentryShot>,
    hurts: Seq<Hurt>,
    hurts2: Seq<Hurt>,
) -> bool {
    let dt = spec_dt_of(h.custom);
    let fall = h.attacker == 0 && !h.crit && !h.mini_crit && h.weapon_id == 0 && h.custom == 0
        && h.bonus_effect == 0;
    let au = h.attacker as u32;
    let vu = h.user_id as u32;
    if h.attacker == h.user_id || fall || !(u.contains_key(au) && (u[au] as int) < s.len()) || !(
    u.contains_key(vu) && (u[vu] as int) < s.len()) {
        s2 == s && shots2 == shots && hurts2 == hurts
    } else {
        let ai = u[au] as int;
        let vi = u[vu] as int;
        let a_entity = spec_player_at(entities, s[ai].entity_id);
        let at = match a_entity {
            Some(p) => p.team,
            None => Team::Other,
        };
        let ah = match a_entity {
            Some(p) => p.handle,
            None => crate::game::INVALID_HANDLE,
        };
        let origin = s[vi].origin;
        let airblasted = airblasts.contains(ah);
        let sfind = if s[ai].class == Class::Engineer && dt == DamageType::Normal {
            spec_find_sentry_shot(shots, s[ai].entity_id)
        } else {
            None
        };
        let shots_rel = match sfind {
            Some(k) => shots2 == shots.remove(k),
            None => shots2 == shots,
        };
        let echoice = if sfind is Some {
            None
        } else {
            spec_hurt_exp_choice(exps, origin, ah, airblasted, dt)
        };
        let v_entity = spec_player_at(entities, s[vi].entity_id);
        if h.attacker == 0 || a_entity is None || v_entity is None || vi == ai {
            &&& shots_rel
            &&& s2 == s
            &&& hurts2 == hurts
        } else {
            let ve = v_entity->Some_0;
            let ae = a_entity->Some_0;
            exists|rec: Hurt|
                {
                    &&& #[trigger] rec.victim == vu
                    &&& rec.attacker == au
                    &&& rec.wep == ae.last_active_weapon_handle
                    &&& rec.origin == origin
                    &&& spec_source_matches(
                        rec.source,
                        shots,
                        sfind,
                        exps,
                        echoice,
                        airblasted,
                        ah,
                        at,
                    )
                    &&& {
                        let wname = spec_weapon_name_from_damage(
                            entities,
                            handles,
                            items,
                            airblasts,
                            hurts,
                            dt,
                            0,
                            ve,
                            ae,
                            Some(rec),
                        );
                        &&& shots_rel
                        &&& s2.len() == s.len()
                        &&& spec_summary_taken_updated(s[vi], s2[vi], wname, h.damage_amount, dt)
                        &&& spec_summary_dealt_updated(s[ai], s2[ai], wname, h.damage_amount, dt)
                        &&& forall|j: int| 0 <= j < s.len() && j != vi && j != ai ==> s2[j] == s[j]
                        &&& if h.health == 0 {
                            hurts2 == hurts.push(rec)
                        } else {
                            hurts2 == hurts
                        }
                    }
                }
        }
    }
}

/// The first summary carrying the given steam-id.
pub open spec fn spec_find_steamid(s: Seq<PlayerSummary>, sid: Seq<char>) -> Option<int>
    decreases s.len(),
{
    if s.len() == 0 {
        None
    } else if s.first().steamid@ == sid {
        Some(0)
    } else {
        match spec_find_steamid(s.drop_first(), sid) {
            Some(i) => Some(i + 1),
            None => None,
        }
    }
}

/// How a decoded userinfo record changes the summary table and the user-id
/// index: the record's steam-id either updates the one summary that
/// carries it — counting a reconnect and adopting the latest name, user id
/// and entity id — or appends a fresh summary; either way the user-id
/// index points the record's user id at that summary.
pub open spec fn spec_user_upsert(
    s: Seq<PlayerSummary>,
    s2: Seq<PlayerSummary>,
    u2: Map<u32, usize>,
    rec: (Seq<char>, Seq<char>, u32, u32, u8, u8, u8),
) -> bool {
    match spec_find_steamid(s, rec.1) {
        Some(j) => {
            &&& s2.len() == s.len()
            &&& s2[j].name@ == rec.0
            &&& s2[j].steamid == s[j].steamid
            &&& s2[j].user_id == rec.2
            &&& s2[j].entity_id == rec.3
            &&& s2[j].connection_count == spec_sat1(s[j].connection_count)
            &&& s2[j].stats == s[j].stats
            &&& s2[j].classes@ == s[j].classes@
            &&& s2[j].weapons@ == s[j].weapons@
            &&& s2[j].healing == s[j].healing
            &&& s2[j].suicides == s[j].suicides
            &&& s2[j].tick_start == s[j].tick_start
            &&& s2[j].tick_end == s[j].tick_end
            &&& forall|k: int| 0 <= k < s.len() && k != j ==> s2[k] == s[k]
            &&& u2.contains_key(rec.2) && u2[rec.2] == j
        },
        None => {
            &&& s2.len() == s.len() + 1
            &&& forall|k: int| 0 <= k < s.len() ==> s2[k] == s[k]
            &&& s2.last().name@ == rec.0
            &&& s2.last().steamid@ == rec.1
            &&& s2.last().user_id == rec.2
            &&& s2.last().entity_id == rec.3
            &&& s2.last().connection_count == 1
            &&& s2.last().stats == crate::stats::spec_stats_zero()
            &&& s2.last().classes@.len() == 0
            &&& s2.last().weapons@.len() == 0
            &&& s2.last().healing == crate::stats::spec_healers_zero()
            &&& s2.last().suicides == 0
            &&& s2.last().tick_start is None
            &&& s2.last().tick_end is None
            &&& s2.last().is_fake_player == (rec.4 > 0)
            &&& s2.last().is_hl_tv == (rec.5 > 0)
            &&& s2.last().is_replay == (rec.6 > 0)
            &&& u2.contains_key(rec.2) && u2[rec.2] == s.len()
        },
    }
}

/// Whether a userinfo entry's text is safe to hand to the decoder: absent,
/// not a decimal number, or a decimal number below the largest entity id.
pub open spec fn spec_entry_text_ok(text: Option<Seq<char>>) -> bool {
    match text {
        Some(t) => crate::props::spec_parse_entity_text(t) != Some(u32::MAX as int),
        None => true,
    }
}

/// The summary position an entity id resolves to, through the entity-id
/// and user-id tables.
pub open spec fn spec_eid_idx(
    s: Seq<PlayerSummary>,
    u: Map<u32, usize>,
    ue: Map<u32, u32>,
    eid: u32,
) -> Option<usize> {
    if ue.contains_key(eid) && u.contains_key(ue[eid]) {
        Some(u[ue[eid]])
    } else {
        None
    }
}

/// Whether the capture event's entity ids resolve to pairwise distinct
/// players.
pub open spec fn spec_cappers_distinct(
    s: Seq<PlayerSummary>,
    u: Map<u32, usize>,
    ue: Map<u32, u32>,
    cappers: Seq<u8>,
) -> bool {
    forall|p: int, q: int|
        0 <= p < q < cappers.len() && (#[trigger] spec_eid_idx(s, u, ue, cappers[p] as u32))
            is Some && (#[trigger] spec_eid_idx(s, u, ue, cappers[q] as u32)) is Some
            ==> spec_eid_idx(s, u, ue, cappers[p] as u32) != spec_eid_idx(s, u, ue, cappers[q] as u32)
}

/// One capture byte's obligation: if its entity id resolves to a player,
/// that player's summary is the capture-credited image of its old value.
pub open spec fn spec_capper_done(
    s: Seq<PlayerSummary>,
    u: Map<u32, usize>,
    ue: Map<u32, u32>,
    c: u8,
    s2: Seq<PlayerSummary>,
) -> bool {
    match spec_eid_idx(s, u, ue, c as u32) {
        Some(i) => (i as int) < s.len() ==> spec_summary_capture_updated(
            s[i as int],
            s2[i as int],
        ),
        None => true,
    }
}

/// How a credited capture changes one summary.
pub open spec fn spec_summary_capture_updated(a: PlayerSummary, b: PlayerSummary) -> bool {
    &&& b.stats == (Stats { captures: spec_sat1(a.stats.captures), ..a.stats })
    &&& crate::summary::spec_class_entry_updated(
        a.classes@,
        b.classes@,
        a.class,
        crate::summary::spec_capture_fn(),
    )
    &&& b.weapons@ == a.weapons@
    &&& b.healing == a.healing
    &&& b.charge == a.charge
    &&& b.suicides == a.suicides
    &&& spec_identity_frame(a, b)
}

/// How a credited capture block changes one summary.
pub open spec fn spec_summary_capture_blocked_updated(a: PlayerSummary, b: PlayerSummary) -> bool {
    &&& b.stats == (Stats { captures_blocked: spec_sat1(a.stats.captures_blocked), ..a.stats })
    &&& crate::summary::spec_class_entry_updated(
        a.classes@,
        b.classes@,
        a.class,
        crate::summary::spec_capture_blocked_fn(),
    )
    &&& b.weapons@ == a.weapons@
    &&& b.healing == a.healing
    &&& b.charge == a.charge
    &&& b.suicides == a.suicides
    &&& spec_identity_frame(a, b)
}

/// The steam-ids the win panel adds to the round's most-valuable list, in
/// panel order, for the entity ids that resolve to players.
pub open spec fn spec_mvps_added(
    s: Seq<PlayerSummary>,
    u: Map<u32, usize>,
    ue: Map<u32, u32>,
    ids: Seq<u16>,
    acc: Seq<String>,
) -> Seq<String>
    decreases ids.len(),
{
    if ids.len() == 0 {
        acc
    } else {
        let rest = spec_mvps_added(s, u, ue, ids.drop_last(), acc);
        match spec_eid_idx(s, u, ue, ids.last() as u32) {
            Some(i) => if (i as int) < s.len() {
                rest.push(s[i as int].steamid)
            } else {
                rest
            },
            None => rest,
        }
    }
}

/// The effect of a released medigun charge on the summaries: when the
/// weapon's owner, the weapon, and its schema item all resolve, the owner's
/// healer block is credited by the item's charge type; any broken link
/// leaves the summaries unchanged.
pub open spec fn spec_charged_effect(
    entities: Seq<Option<Entity>>,
    handles: Map<u32, u32>,
    items: Map<u32, crate::schema::Item>,
    wo: Map<u32, u32>,
    u: Map<u32, usize>,
    s: Seq<PlayerSummary>,
    handle: u32,
    s2: Seq<PlayerSummary>,
) -> bool {
    if wo.contains_key(handle) && u.contains_key(wo[handle]) && (u[wo[handle]] as int) < s.len() {
        let idx = u[wo[handle]] as int;
        match spec_weapon_of(entities, handles, handle) {
            Some(w) => match spec_item_of(items, w.schema_id) {
                Some(item) => {
                    &&& s2.len() == s.len()
                    &&& s2[idx].healing == crate::summary::spec_charged_healing(
                        s[idx].healing,
                        item@.attributes,
                    )
                    &&& crate::summary::spec_all_but_healing_unchanged(s[idx], s2[idx])
                    &&& forall|j: int| 0 <= j < s.len() && j != idx ==> s2[j] == s[j]
                },
                None => s2 == s,
            },
            None => s2 == s,
        }
    } else {
        s2 == s
    }
}

/// The effect of clearing a world slot: the slot becomes empty; a
/// projectile leaves an explosion record of the current tick carrying its
/// final state; a known player's summary is stamped with its end tick;
/// nothing else moves. A second removal of an already empty slot changes
/// nothing, so removal is idempotent at the world level.
pub open spec fn spec_remove_effect(
    entities: Seq<Option<Entity>>,
    s: Seq<PlayerSummary>,
    u: Map<u32, usize>,
    exps: Seq<Explosion>,
    tick: u32,
    slot: int,
    entities2: Seq<Option<Entity>>,
    s2: Seq<PlayerSummary>,
    exps2: Seq<Explosion>,
) -> bool {
    &&& entities2 == entities.update(slot, None::<Entity>)
    &&& (match entities[slot] {
        Some(Entity::Projectile(pr)) => {
            &&& s2 == s
            &&& exps2.len() == exps.len() + 1
            &&& forall|k: int| 0 <= k < exps.len() ==> exps2[k] == exps[k]
            &&& exps2.last().projectile == pr
            &&& exps2.last().origin == pr.origin
            &&& exps2.last().tick@ == tick
        },
        Some(Entity::Player(p)) => {
            &&& exps2 == exps
            &&& if u.contains_key(p.user_id) && (u[p.user_id] as int) < s.len() {
                s2 == s.update(
                    u[p.user_id] as int,
                    PlayerSummary { tick_end: Some(tick), ..s[u[p.user_id] as int] },
                )
            } else {
                s2 == s
            }
        },
        _ => s2 == s && exps2 == exps,
    })
}

/// Whether patching a live projectile leaves an explosion record: a kind
/// that can hurt on contact without exploding always does; a Scottish
/// Resistance sticky does the moment the no-draw effect first appears.
pub open spec fn spec_preserve_explodes(
    pr: Projectile,
    patch: crate::entity::projectile::ProjectilePatch,
) -> bool {
    ||| crate::entity::projectile::spec_can_hurt_without_exploding(pr.kind)
    ||| (match patch.effects {
        Some(ne) => crate::game::spec_has_bits_u32(ne, crate::game::EFFECT_NO_DRAW)
            && !crate::game::spec_has_bits_u32(pr.effects, crate::game::EFFECT_NO_DRAW)
            && pr.kind == ProjectileType::ScottishResistance,
        None => false,
    })
}

/// The explosion list grew by exactly one record, carrying the projectile
/// as it stood before the patch, at its own origin, on the given tick.
pub open spec fn spec_explosion_pushed(
    pre: Seq<Explosion>,
    post: Seq<Explosion>,
    pr: Projectile,
    tick: u32,
) -> bool {
    &&& post.len() == pre.len() + 1
    &&& forall|k: int| 0 <= k < pre.len() ==> post[k] == pre[k]
    &&& post.last().projectile == pr
    &&& post.last().origin == pr.origin
    &&& post.last().tick@ == tick
}

/// Whether a slot's entity has a collision box containing the point.
pub open spec fn spec_collider_contains(slot: Option<Entity>, p: Vec3i) -> bool {
    match slot {
        Some(en) => match crate::entity::spec_entity_collider(&en) {
            Some(cb) => spec_aabb_contains(
                crate::collide::spec_aabb_around(
                    cb.0,
                    cb.1.0 as int,
                    cb.1.1 as int,
                    cb.1.2 as int,
                ),
                p,
            ),
            None => false,
        },
        None => false,
    }
}

/// The first world slot, in slot order, whose collision box contains the
/// point — "first match wins".
pub open spec fn spec_first_collider(entities: Seq<Option<Entity>>, p: Vec3i, n: int) -> Option<
    int,
>
    decreases n,
{
    if n <= 0 {
        None
    } else {
        match spec_first_collider(entities, p, n - 1) {
            Some(b) => Some(b),
            None => if spec_collider_contains(entities[n - 1], p) {
                Some(n - 1)
            } else {
                None
            },
        }
    }
}

/// A hit after an all-miss prefix stays the first hit for every longer
/// prefix.
pub proof fn lemma_first_collider_extend(
    entities: Seq<Option<Entity>>,
    p: Vec3i,
    b: int,
    n: int,
)
    requires
        0 <= b < n,
        spec_first_collider(entities, p, b) is None,
        spec_collider_contains(entities[b], p),
    ensures
        spec_first_collider(entities, p, n) == Some(b),
    decreases n,
{
    if n > b + 1 {
        lemma_first_collider_extend(entities, p, b, n - 1);
    }
}

/// The player handle that owns a launcher weapon handle, resolved through
/// the owner table, the summaries and the owner's player entity.
pub open spec fn spec_launcher_owner(
    entities: Seq<Option<Entity>>,
    s: Seq<PlayerSummary>,
    u: Map<u32, usize>,
    wo: Map<u32, u32>,
    l: u32,
) -> Option<u32> {
    if wo.contains_key(l) && u.contains_key(wo[l]) && (u[wo[l]] as int) < s.len() {
        match spec_player_at(entities, s[u[wo[l]] as int].entity_id) {
            Some(p) => Some(p.handle),
            None => None,
        }
    } else {
        None
    }
}

/// The first string attribute whose class is the weapon-mode marker.
pub open spec fn spec_find_mode(attrs: Seq<(Seq<char>, crate::schema::AttributeV)>) -> Option<
    Seq<char>,
>
    decreases attrs.len(),
{
    if attrs.len() == 0 {
        None
    } else {
        match attrs.first().1 {
            crate::schema::AttributeV::String(class, val) => if class == "set_weapon_mode"@ {
                Some(val)
            } else {
                spec_find_mode(attrs.drop_first())
            },
            _ => spec_find_mode(attrs.drop_first()),
        }
    }
}

/// The projectile kind resolved from the entity class name and the
/// launcher's schema item: the class name gives the base kind; the item's
/// class and name strings refine it; a flare's kind is picked by the
/// weapon-mode attribute.
pub open spec fn spec_projectile_kind(
    cn: Seq<char>,
    item: Option<crate::schema::Item>,
) -> ProjectileType {
    let base = if cn == "CTFProjectile_EnergyRing"@ {
        ProjectileType::EnergyRing
    } else if cn == "CTFProjectile_HealingBolt"@ {
        ProjectileType::HealingBolt
    } else if cn == "CTFProjectile_Rocket"@ {
        ProjectileType::Rocket
    } else if cn == "CTFProjectile_SentryRocket"@ {
        ProjectileType::SentryRocket
    } else if cn == "CTFProjectile_JarMilk"@ {
        ProjectileType::MadMilk
    } else if cn == "CTFProjectile_BallOfFire"@ {
        ProjectileType::DragonsFuryFire
    } else if cn == "CTFProjectile_Cleaver"@ {
        ProjectileType::Cleaver
    } else if cn == "CTFBall_Ornament"@ {
        ProjectileType::WrapAssassin
    } else if cn == "CTFProjectile_EnergyBall"@ {
        ProjectileType::CowMangler
    } else if cn == "CTFStunBall"@ {
        ProjectileType::Sandman
    } else if cn == "CTFProjectile_MechanicalArmOrb"@ {
        ProjectileType::ShortCircuit
    } else {
        ProjectileType::Unknown
    };
    match item {
        None => base,
        Some(it) => {
            let k1 = match it@.item_class {
                Some(ic) => if ic == "tf_weapon_shotgun_building_rescue"@ {
                    ProjectileType::RescueRanger
                } else if ic == "tf_weapon_compound_bow"@ {
                    ProjectileType::HuntsmanArrow
                } else if ic == "tf_weapon_jar"@ {
                    ProjectileType::Jarate
                } else if ic == "tf_weapon_jar_gas"@ {
                    ProjectileType::GasPasser
                } else {
                    base
                },
                None => base,
            };
            let k2 = match it@.item_name {
                Some(n) => if n == "#TF_Weapon_Sticky_Quickie"@ {
                    ProjectileType::QuickieBomb
                } else if n == "#TF_Unique_Achievement_StickyLauncher"@ {
                    ProjectileType::ScottishResistance
                } else if n == "#TF_Weapon_StickyBomb_Jump"@ {
                    ProjectileType::StickyBombJumper
                } else if n == "#TF_Weapon_Iron_bomber"@ {
                    ProjectileType::IronBomber
                } else if n == "#TF_LochNLoad"@ {
                    ProjectileType::LochNLoad
                } else if n == "#TF_Weapon_Cannon"@ {
                    ProjectileType::LooseCannon
                } else if n == "#TF_Weapon_PipebombLauncher"@ || spec_has_prefix(
                    n,
                    "#TF_Weapon_StickybombLauncher_"@,
                ) {
                    ProjectileType::StickyBomb
                } else if spec_has_prefix(n, "#TF_Weapon_GrenadeLauncher"@) {
                    ProjectileType::Pipe
                } else {
                    k1
                },
                None => k1,
            };
            if cn == "CTFProjectile_Flare"@ {
                match spec_find_mode(it@.attributes) {
                    Some(m) => if m == "1"@ {
                        ProjectileType::DetonatorFlare
                    } else if m == "2"@ {
                        ProjectileType::ManmelterFlare
                    } else if m == "3"@ {
                        ProjectileType::ScorchShotFlare
                    } else {
                        ProjectileType::Flare
                    },
                    None => ProjectileType::Flare,
                }
            } else {
                k2
            }
        },
    }
}

/// The whole birth relation of a projectile entering the world: the patch
/// decoded from the props; the origin from whichever origin property came,
/// clamped; ownership by precedence — the explicit owner or deflect owner,
/// then for a sentry rocket the owner of the first collider at the birth
/// point when that collider is a sentry, then the original launcher's
/// owner; the reflect rule keeping the launcher's owner as the original
/// owner; the kind table over the launcher's schema item. No ownership
/// information at all yields nothing.
pub open spec fn spec_projectile_birth(
    entities: Seq<Option<Entity>>,
    handles: Map<u32, u32>,
    items: Map<u32, crate::schema::Item>,
    s: Seq<PlayerSummary>,
    u: Map<u32, usize>,
    wo: Map<u32, u32>,
    ids: PropIds,
    props: Seq<Prop>,
    cn: Seq<char>,
    r: Option<Projectile>,
) -> bool {
    let patch = crate::entity::projectile::spec_projectile_parse(
        props,
        ids,
        cn == "CTFGrenadePipebombProjectile"@,
    );
    let origin = crate::collide::spec_clamp_vec3(
        match patch.origin {
            Some(o) => o,
            None => crate::collide::spec_vec3_zero(),
        },
    );
    let is_sr = cn == "CTFProjectile_SentryRocket"@;
    let owner0 = match patch.owner {
        Some(o) => o,
        None => 0,
    };
    let have0 = patch.owner is Some;
    let q = if is_sr {
        spec_first_collider(entities, origin, entities.len() as int)
    } else {
        None
    };
    let sentry_hit = match q {
        Some(b) => match entities[b] {
            Some(Entity::Sentry(sn)) => Some(sn),
            _ => None,
        },
        None => None,
    };
    let owner1 = match sentry_hit {
        Some(sn) => sn.owner,
        None => owner0,
    };
    let have1 = match sentry_hit {
        Some(sn) => spec_valid_handle(sn.owner),
        None => have0,
    };
    let launcher_h = match patch.original_launcher {
        Some(l) => l,
        None => 0,
    };
    let lo = spec_launcher_owner(entities, s, u, wo, launcher_h);
    let from_launcher = !(have1 && spec_valid_handle(owner1)) && patch.original_launcher is Some
        && (match lo {
        Some(h) => spec_valid_handle(h),
        None => false,
    });
    let owner2 = if from_launcher {
        lo->Some_0
    } else {
        owner1
    };
    let have2 = if from_launcher {
        true
    } else {
        have1
    };
    if !(have2 && spec_valid_handle(owner2)) && launcher_h == 0 {
        r is None
    } else {
        match r {
            None => false,
            Some(pr) => {
                let lw = if launcher_h != 0 {
                    spec_weapon_of(entities, handles, launcher_h)
                } else {
                    None
                };
                let lsch = match lw {
                    Some(w) => Some(w.schema_id),
                    None => None,
                };
                let oo = match lw {
                    Some(w) => if owner2 != w.owner && patch.is_reflected == Some(true) {
                        w.owner
                    } else {
                        owner2
                    },
                    None => owner2,
                };
                let item = match lsch {
                    Some(id) => spec_item_of(items, id),
                    None => None,
                };
                &&& pr.class_name@ == cn
                &&& pr.launcher_schema_id == lsch
                &&& pr.is_sentry == is_sr
                &&& pr.origin == origin
                &&& pr.velocity == crate::collide::spec_vec3_zero()
                &&& pr.owner == owner2
                &&& pr.original_owner == oo
                &&& pr.is_reflected == (patch.is_reflected == Some(true))
                &&& pr.original_team == (match patch.team {
                    Some(t) => t,
                    None => Team::Spectator,
                })
                &&& pr.team == (match patch.team {
                    Some(t) => t,
                    None => Team::Spectator,
                })
                &&& pr.original_launcher_handle == launcher_h
                &&& pr.grenade_type == patch.grenade_type
                &&& pr.model_id == patch.model_id
                &&& pr.effects == (match patch.effects {
                    Some(f) => f,
                    None => 0,
                })
                &&& pr.kind == spec_projectile_kind(cn, item)
            },
        }
    }
}

/// The registry item of a schema id, if the registry knows it.
pub open spec fn spec_item_of(items: Map<u32, crate::schema::Item>, id: u32) -> Option<
    crate::schema::Item,
> {
    if items.contains_key(id) {
        Some(items[id])
    } else {
        None
    }
}

/// What a slot-entry record stores in its slot: each recognized class is
/// built from its parsed patch over a blank value, projectile classes go
/// through the birth rules, and anything else is opaque.
pub open spec fn spec_enter_stored(
    pre: MatchAnalyzer,
    props: Seq<Prop>,
    server_class: u32,
    cn: Seq<char>,
    slot: u32,
    stored: Option<Entity>,
) -> bool {
    let ids = pre.spec_ids();
    let bp = crate::entity::buildings::spec_building_parse(props, ids);
    if cn == "CObjectSentrygun"@ {
        stored == Some(Entity::Sentry(spec_built_sentry(pre.spec_handles(), bp)))
    } else if cn == "CObjectDispenser"@ {
        stored == Some(
            Entity::Dispenser(
                crate::entity::buildings::Dispenser {
                    origin: spec_built_origin(bp),
                    owner: spec_built_owner(bp),
                    owner_entity: spec_built_owner_entity(pre.spec_handles(), bp),
                    level: spec_built_level(bp),
                },
            ),
        )
    } else if cn == "CObjectTeleporter"@ {
        stored == Some(
            Entity::Teleporter(
                crate::entity::buildings::Teleporter {
                    origin: spec_built_origin(bp),
                    owner: spec_built_owner(bp),
                    owner_entity: spec_built_owner_entity(pre.spec_handles(), bp),
                    level: spec_built_level(bp),
                },
            ),
        )
    } else if cn == "CTFPlayer"@ {
        let patch = crate::entity::player::spec_player_parse(props, ids);
        let uid = if pre.spec_user_entities().contains_key(slot) {
            pre.spec_user_entities()[slot]
        } else {
            0
        };
        stored == Some(
            Entity::Player(
                crate::entity::player::spec_player_apply(
                    crate::entity::player::spec_player_blank(uid),
                    patch,
                ),
            ),
        )
    } else if cn == "CTFWearableDemoShield"@ {
        let patch = crate::entity::shield::spec_shield_parse(props, ids);
        match stored {
            Some(Entity::Shield(sh)) => sh.class_name@ == cn && sh
                == crate::entity::shield::spec_shield_apply(
                Shield { class_name: sh.class_name, owner: 0, handle: 0, schema_id: 0 },
                patch,
            ),
            _ => false,
        }
    } else if pre.spec_projectile_class_ids().contains_key(server_class) {
        match stored {
            Some(Entity::Projectile(pr)) => spec_projectile_birth(
                pre.spec_entities(),
                pre.spec_handles(),
                pre.spec_schema_items(),
                pre.spec_summaries(),
                pre.spec_uid_index(),
                pre.spec_weapon_owners(),
                ids,
                props,
                cn,
                Some(pr),
            ),
            Some(Entity::Unknown(_)) => spec_projectile_birth(
                pre.spec_entities(),
                pre.spec_handles(),
                pre.spec_schema_items(),
                pre.spec_summaries(),
                pre.spec_uid_index(),
                pre.spec_weapon_owners(),
                ids,
                props,
                cn,
                None,
            ),
            _ => false,
        }
    } else if pre.spec_weapon_class_ids().contains_key(server_class) {
        let patch = crate::entity::weapon::spec_weapon_parse(props, ids);
        match stored {
            Some(Entity::Weapon(w)) => w.class_name@ == cn && w
                == crate::entity::weapon::spec_weapon_apply(
                Weapon {
                    class_name: w.class_name,
                    last_high_charge: 0,
                    charge: 0,
                    charge_released: false,
                    handle: 0,
                    owner: 0,
                    schema_id: 0,
                    model_id: 0,
                    reset_parity: 0,
                },
                patch,
            ),
            _ => false,
        }
    } else {
        match stored {
            Some(Entity::Unknown(_)) => true,
            _ => false,
        }
    }
}

/// The origin a building entry stores: the patch's, clamped, or zero.
pub open spec fn spec_built_origin(bp: crate::entity::buildings::BuildingPatch) -> Vec3i {
    crate::collide::spec_clamp_vec3(
        match bp.origin {
            Some(o) => o,
            None => crate::collide::spec_vec3_zero(),
        },
    )
}

/// The owner handle a building entry stores: the patch's, or zero.
pub open spec fn spec_built_owner(bp: crate::entity::buildings::BuildingPatch) -> u32 {
    match bp.owner {
        Some(o) => o,
        None => 0,
    }
}

/// The owner's world slot a building entry stores: the handle table's entry
/// for the stored owner handle, or zero when the table has none.
pub open spec fn spec_built_owner_entity(
    handles: Map<u32, u32>,
    bp: crate::entity::buildings::BuildingPatch,
) -> u32 {
    if handles.contains_key(spec_built_owner(bp)) {
        handles[spec_built_owner(bp)]
    } else {
        0
    }
}

/// The level a building entry stores: the patch's, or zero.
pub open spec fn spec_built_level(bp: crate::entity::buildings::BuildingPatch) -> u32 {
    match bp.level {
        Some(l) => l,
        None => 0,
    }
}

/// The sentry a slot-entry record builds: origin clamped from the patch,
/// owner handle from the patch, the owner's world slot resolved through the
/// handle table, level and mini flag from the patch; absent fields zero.
pub open spec fn spec_built_sentry(
    handles: Map<u32, u32>,
    bp: crate::entity::buildings::BuildingPatch,
) -> Sentry {
    Sentry {
        origin: spec_built_origin(bp),
        owner: spec_built_owner(bp),
        owner_entity: spec_built_owner_entity(handles, bp),
        level: spec_built_level(bp),
        is_mini: match bp.is_mini {
            Some(m) => m,
            None => false,
        },
    }
}

/// The log-name of the schema item behind a weapon handle, if every link of
/// the chain resolves.
pub open spec fn spec_weapon_slot_logname(
    entities: Seq<Option<Entity>>,
    handles: Map<u32, u32>,
    items: Map<u32, crate::schema::Item>,
    h: u32,
) -> Option<Seq<char>> {
    match spec_weapon_of(entities, handles, h) {
        Some(w) => match spec_item_of(items, w.schema_id) {
            Some(it) => it@.item_logname,
            None => None,
        },
        None => None,
    }
}

/// The fallback weapon name of an attacker: the schema name of the last
/// weapon the attacker had active, or a marker when the chain breaks.
pub open spec fn spec_base_name(
    entities: Seq<Option<Entity>>,
    handles: Map<u32, u32>,
    items: Map<u32, crate::schema::Item>,
    attacker: Player,
) -> Seq<char> {
    match spec_weapon_of(entities, handles, attacker.last_active_weapon_handle) {
        Some(w) => match spec_item_of(items, w.schema_id) {
            Some(it) => crate::weapon::spec_weapon_name(
                it@.item_logname,
                it@.item_class,
                attacker.class,
            ),
            None => "UNKNOWN"@,
        },
        None => "UNKNOWN"@,
    }
}

/// The first sentry-shot source among the victim's hurt records.
pub open spec fn spec_first_sentry_hurt(hurts: Seq<Hurt>, vic: u32) -> Option<SentryShot>
    decreases hurts.len(),
{
    if hurts.len() == 0 {
        None
    } else {
        let h = hurts.first();
        if h.victim == vic && (h.source is SentryShot) {
            match h.source {
                HurtSource::SentryShot(s) => Some(s),
                _ => None,
            }
        } else {
            spec_first_sentry_hurt(hurts.drop_first(), vic)
        }
    }
}

/// The first non-blast projectile source among the victim's hurt records.
pub open spec fn spec_first_nonblast_hurt(hurts: Seq<Hurt>, vic: u32) -> Option<Explosion>
    decreases hurts.len(),
{
    if hurts.len() == 0 {
        None
    } else {
        let h = hurts.first();
        if h.victim == vic && (h.source is NonBlastProjectile) {
            match h.source {
                HurtSource::NonBlastProjectile(e) => Some(e),
                _ => None,
            }
        } else {
            spec_first_nonblast_hurt(hurts.drop_first(), vic)
        }
    }
}

/// The first explosion source among the victim's hurt records whose
/// projectile the attacker owns, originally owned, or — when the attacker
/// airblasted this tick — any explosion source at all.
pub open spec fn spec_first_blast_hurt(
    hurts: Seq<Hurt>,
    vic: u32,
    ah: u32,
    airblasted: bool,
) -> Option<Explosion>
    decreases hurts.len(),
{
    if hurts.len() == 0 {
        None
    } else {
        let h = hurts.first();
        if h.victim == vic && (h.source is Explosion) && (spec_blast_owner_match(
            h.source,
            ah,
            airblasted,
        )) {
            match h.source {
                HurtSource::Explosion(e) => Some(e),
                _ => None,
            }
        } else {
            spec_first_blast_hurt(hurts.drop_first(), vic, ah, airblasted)
        }
    }
}

/// Whether an explosion source is attributable to the attacker.
pub open spec fn spec_blast_owner_match(src: HurtSource, ah: u32, airblasted: bool) -> bool {
    match src {
        HurtSource::Explosion(e) => e.projectile.owner == ah || e.projectile.original_owner == ah
            || airblasted,
        _ => false,
    }
}

/// True when no hurt record of this tick names the victim.
pub open spec fn spec_no_victim_hurts(hurts: Seq<Hurt>, vic: u32) -> bool
    decreases hurts.len(),
{
    if hurts.len() == 0 {
        true
    } else {
        hurts.first().victim != vic && spec_no_victim_hurts(hurts.drop_first(), vic)
    }
}

/// The sentry-shot selection: the given hurt's own source, or the first
/// match among the tick's records.
pub open spec fn spec_sel_sentry(hurts: Seq<Hurt>, vic: u32, given: Option<Hurt>) -> Option<
    SentryShot,
> {
    match given {
        Some(h) => match h.source {
            HurtSource::SentryShot(s) => Some(s),
            _ => None,
        },
        None => spec_first_sentry_hurt(hurts, vic),
    }
}

/// The non-blast selection, as [`spec_sel_sentry`].
pub open spec fn spec_sel_nonblast(hurts: Seq<Hurt>, vic: u32, given: Option<Hurt>) -> Option<
    Explosion,
> {
    match given {
        Some(h) => match h.source {
            HurtSource::NonBlastProjectile(e) => Some(e),
            _ => None,
        },
        None => spec_first_nonblast_hurt(hurts, vic),
    }
}

/// The blast selection, as [`spec_sel_sentry`].
pub open spec fn spec_sel_blast(
    hurts: Seq<Hurt>,
    vic: u32,
    given: Option<Hurt>,
    ah: u32,
    airblasted: bool,
) -> Option<Explosion> {
    match given {
        Some(h) => if h.source is Explosion && spec_blast_owner_match(h.source, ah, airblasted) {
            match h.source {
                HurtSource::Explosion(e) => Some(e),
                _ => None,
            }
        } else {
            None
        },
        None => spec_first_blast_hurt(hurts, vic, ah, airblasted),
    }
}

/// True when the damage list under resolution is empty.
pub open spec fn spec_sel_empty(hurts: Seq<Hurt>, vic: u32, given: Option<Hurt>) -> bool {
    match given {
        Some(_) => false,
        None => spec_no_victim_hurts(hurts, vic),
    }
}

/// The blast-like condition: damage that may trace back to an explosion.
pub open spec fn spec_blast_cond(bits: u32, dt: DamageType) -> bool {
    &&& (crate::game::spec_has_bits_u32(bits, crate::game::DAMAGE_BLAST) || dt
        == DamageType::BurningFlare || dt == DamageType::Plasma || dt == DamageType::PlasmaCharged
        || dt == DamageType::DefensiveSticky || dt == DamageType::AirStickyBurst || dt
        == DamageType::RocketDirecthit || dt == DamageType::StandardSticky || dt
        == DamageType::Normal)
    &&& dt != DamageType::Baseball
    &&& dt != DamageType::Headshot
    &&& dt != DamageType::HeadshotDecapitation
    &&& dt != DamageType::Suicide
    &&& dt != DamageType::CannonballPush
    &&& dt != DamageType::TauntGrenade
    &&& dt != DamageType::TauntEngineerArmKill
    &&& dt != DamageType::StickbombExplosion
}

/// The log-name an explosion record resolves to.
pub open spec fn spec_exp_name(
    e: Explosion,
    victim_team: Team,
    items: Map<u32, crate::schema::Item>,
) -> Seq<char> {
    crate::weapon::spec_projectile_log_name(
        e.projectile.kind,
        e.projectile.is_reflected,
        e.projectile.owner,
        e.projectile.original_owner,
        e.projectile.team,
        victim_team,
        match e.projectile.launcher_schema_id {
            Some(id) => match spec_item_of(items, id) {
                Some(it) => it@.item_logname,
                None => None,
            },
            None => None,
        },
    )
}

/// The first shield log-name in the attacker's cosmetic slots, scanning
/// from slot `i` on.
pub open spec fn spec_shield_logname_from(
    entities: Seq<Option<Entity>>,
    handles: Map<u32, u32>,
    items: Map<u32, crate::schema::Item>,
    p: Player,
    i: int,
) -> Option<Seq<char>>
    decreases 8 - i,
{
    if i < 0 || i >= 8 {
        None
    } else {
        let h = crate::entity::player::spec_cosmetic_slot(p, i);
        let here: Option<Seq<char>> = if handles.contains_key(h) && handles[h] < entities.len() {
            match entities[handles[h] as int] {
                Some(Entity::Shield(sh)) => match spec_item_of(items, sh.schema_id) {
                    Some(it) => it@.item_logname,
                    None => None,
                },
                _ => None,
            }
        } else {
            None
        };
        match here {
            Some(l) => Some(l),
            None => spec_shield_logname_from(entities, handles, items, p, i + 1),
        }
    }
}

/// The canonical weapon log-name of a damage or death event: the full
/// resolution precedence over the tick's recorded sources, the attacker's
/// weapons and the fixed damage-type tables.
pub open spec fn spec_weapon_name_from_damage(
    entities: Seq<Option<Entity>>,
    handles: Map<u32, u32>,
    items: Map<u32, crate::schema::Item>,
    airblasts: Seq<u32>,
    hurts: Seq<Hurt>,
    dt: DamageType,
    bits: u32,
    victim: Player,
    attacker: Player,
    given: Option<Hurt>,
) -> Seq<char> {
    let ah = attacker.handle;
    let airblasted = airblasts.contains(ah);
    let base = spec_base_name(entities, handles, items, attacker);
    let n1 = match spec_sel_sentry(hurts, victim.user_id, given) {
        Some(s) => crate::weapon::spec_sentry_name(s.sentry.is_mini, s.sentry.level),
        None => base,
    };
    let n2 = match spec_sel_nonblast(hurts, victim.user_id, given) {
        Some(e) => spec_exp_name(e, victim.team, items),
        None => if spec_blast_cond(bits, dt) {
            match spec_sel_blast(hurts, victim.user_id, given, ah, airblasted) {
                Some(e) => spec_exp_name(e, victim.team, items),
                None => n1,
            }
        } else {
            n1
        },
    };
    let empty = spec_sel_empty(hurts, victim.user_id, given);
    if crate::weapon::spec_taunt_log_name(dt) is Some {
        crate::weapon::spec_taunt_log_name(dt)->Some_0
    } else if dt == DamageType::DragonsFuryBonusBurning {
        "dragons_fury_bonus"@
    } else if dt == DamageType::Burning {
        match spec_weapon_slot_logname(entities, handles, items, attacker.wep_0) {
            Some(l) => l,
            None => "flamethrower"@,
        }
    } else if dt == DamageType::BurningArrow {
        match spec_weapon_slot_logname(entities, handles, items, attacker.wep_0) {
            Some(l) => l,
            None => "compound_bow"@,
        }
    } else if dt == DamageType::BurningFlare {
        match spec_weapon_slot_logname(entities, handles, items, attacker.wep_1) {
            Some(l) => l,
            None => "flaregun"@,
        }
    } else if dt == DamageType::ChargeImpact {
        match spec_shield_logname_from(entities, handles, items, attacker, 0) {
            Some(l) => l,
            None => n2,
        }
    } else if dt == DamageType::PlayerSentry {
        "wrangler_kill"@
    } else if dt == DamageType::Baseball {
        "ball"@
    } else if dt == DamageType::ComboPunch {
        "robot_arm_combo_kill"@
    } else if dt == DamageType::CannonballPush {
        "loose_cannon_impact"@
    } else if dt == DamageType::BootsStomp {
        if attacker.class == Class::Pyro {
            "rocketpack_stomp"@
        } else {
            "mantreads"@
        }
    } else if dt == DamageType::Telefrag {
        "telefrag"@
    } else if dt == DamageType::DefensiveSticky {
        "sticky_resistance"@
    } else if dt == DamageType::StickbombExplosion {
        "ullapool_caber_explosion"@
    } else if dt == DamageType::Bleeding {
        "bleed_kill"@
    } else if empty || dt == DamageType::Suicide {
        if crate::game::spec_has_bits_u32(bits, crate::game::DAMAGE_PREVENT_PHYSICS_FORCE) {
            "player"@
        } else {
            "world"@
        }
    } else {
        n2
    }
}

impl MatchAnalyzer {
    /// The weapon entity a handle resolves to.
    fn get_weapon(&self, h: u32) -> (r: Option<&Weapon>)
        requires
            self.wf(),
        ensures
            match r {
                Some(w) => spec_weapon_of(self.spec_entities(), self.spec_handles(), h) == Some(*w),
                None => spec_weapon_of(self.spec_entities(), self.spec_handles(), h) is None,
            },
    {
        match self.entity_handles.get(h) {
            Some(slot) => {
                let s = *slot as usize;
                if s < self.entities.len() {
                    match &self.entities[s] {
                        Some(Entity::Weapon(w)) => Some(w),
                        _ => None,
                    }
                } else {
                    None
                }
            },
            None => None,
        }
    }

    /// The log-name of the schema item behind a weapon handle.
    fn weapon_slot_logname(&self, h: u32) -> (r: Option<String>)
        requires
            self.wf(),
        ensures
            match r {
                Some(l) => spec_weapon_slot_logname(
                    self.spec_entities(),
                    self.spec_handles(),
                    self.spec_schema_items(),
                    h,
                ) == Some(l@),
                None => spec_weapon_slot_logname(
                    self.spec_entities(),
                    self.spec_handles(),
                    self.spec_schema_items(),
                    h,
                ) is None,
            },
    {
        match self.get_weapon(h) {
            Some(w) => match self.schema.get(w.schema_id) {
                Some(it) => match &it.item_logname {
                    Some(l) => Some(l.clone()),
                    None => None,
                },
                None => None,
            },
            None => None,
        }
    }

    /// The first shield log-name among the attacker's cosmetic slots.
    fn shield_logname(&self, p: &Player) -> (r: Option<String>)
        requires
            self.wf(),
        ensures
            match r {
                Some(l) => spec_shield_logname_from(
                    self.spec_entities(),
                    self.spec_handles(),
                    self.spec_schema_items(),
                    *p,
                    0,
                ) == Some(l@),
                None => spec_shield_logname_from(
                    self.spec_entities(),
                    self.spec_handles(),
                    self.spec_schema_items(),
                    *p,
                    0,
                ) is None,
            },
    {
        let mut i: usize = 0;
        while i < 8
            invariant
                self.wf(),
                i <= 8,
                spec_shield_logname_from(
                    self.spec_entities(),
                    self.spec_handles(),
                    self.spec_schema_items(),
                    *p,
                    0,
                ) == spec_shield_logname_from(
                    self.spec_entities(),
                    self.spec_handles(),
                    self.spec_schema_items(),
                    *p,
                    i as int,
                ),
            decreases 8 - i,
        {
            let h = p.cosmetic_slot(i);
            let mut here: Option<String> = None;
            match self.entity_handles.get(h) {
                Some(slot) => {
                    let s = *slot as usize;
                    if s < self.entities.len() {
                        match &self.entities[s] {
                            Some(Entity::Shield(sh)) => {
                                match self.schema.get(sh.schema_id) {
                                    Some(it) => match &it.item_logname {
                                        Some(l) => {
                                            here = Some(l.clone());
                                        },
                                        None => {},
                                    },
                                    None => {},
                                }
                            },
                            _ => {},
                        }
                    }
                },
                None => {},
            }
            if let Some(l) = here {
                return Some(l);
            }
            i = i + 1;
        }
        None
    }

    /// The log-name an explosion record resolves to.
    fn exp_name(&self, e: &Explosion, victim_team: Team) -> (r: String)
        requires
            self.wf(),
        ensures
            r@ == spec_exp_name(*e, victim_team, self.spec_schema_items()),
    {
        let item = match e.projectile.launcher_schema_id {
            Some(id) => self.schema.get(id),
            None => None,
        };
        crate::weapon::projectile_log_name(&e.projectile, victim_team, item)
    }
}

/// The first recorded sentry shot whose sentry is owned by the entity id.
fn find_sentry_shot(shots: &Vec<SentryShot>, aeid: u32) -> (r: Option<usize>)
    ensures
        match r {
            Some(k) => k < shots@.len() && spec_find_sentry_shot(shots@, aeid) == Some(k as int),
            None => spec_find_sentry_shot(shots@, aeid) is None,
        },
{
    let mut i: usize = 0;
    proof {
        assert(shots@.skip(0) =~= shots@);
    }
    while i < shots.len()
        invariant
            i <= shots.len(),
            spec_find_sentry_shot(shots@, aeid) == (match spec_find_sentry_shot(
                shots@.skip(i as int),
                aeid,
            ) {
                Some(k) => Some(k + i),
                None => None,
            }),
        decreases shots.len() - i,
    {
        proof {
            assert(shots@.skip(i as int).first() == shots@[i as int]);
            assert(shots@.skip(i as int).drop_first() =~= shots@.skip(i + 1));
        }
        if shots[i].sentry.owner_entity == aeid {
            return Some(i);
        }
        i = i + 1;
    }
    proof {
        assert(shots@.skip(shots@.len() as int) =~= Seq::<SentryShot>::empty());
    }
    None
}

/// The first string attribute whose class is the weapon-mode marker.
fn find_mode(attrs: &Vec<(String, crate::schema::Attribute)>) -> (r: Option<String>)
    ensures
        match r {
            Some(m) => spec_find_mode(crate::schema::spec_attrs_view(attrs@)) == Some(m@),
            None => spec_find_mode(crate::schema::spec_attrs_view(attrs@)) is None,
        },
{
    let ghost av = crate::schema::spec_attrs_view(attrs@);
    let mut i: usize = 0;
    proof {
        assert(av.skip(0) =~= av);
    }
    while i < attrs.len()
        invariant
            i <= attrs.len(),
            av == crate::schema::spec_attrs_view(attrs@),
            av.len() == attrs@.len(),
            spec_find_mode(av) == spec_find_mode(av.skip(i as int)),
        decreases attrs.len() - i,
    {
        proof {
            assert(av.skip(i as int).first() == av[i as int]);
            assert(av[i as int] == (attrs@[i as int].0@, attrs@[i as int].1@));
            assert(av.skip(i as int).drop_first() =~= av.skip(i + 1));
        }
        if let crate::schema::Attribute::String(sa) = &attrs[i].1 {
            if str_is(&sa.attribute_class, "set_weapon_mode") {
                return Some(sa.value.clone());
            }
        }
        i = i + 1;
    }
    proof {
        assert(av.skip(av.len() as int) =~= Seq::<(Seq<char>, crate::schema::AttributeV)>::empty());
    }
    None
}

/// The first summary carrying the given steam-id.
fn find_steamid(v: &Vec<PlayerSummary>, sid: &String) -> (r: Option<usize>)
    ensures
        match r {
            Some(k) => k < v@.len() && spec_find_steamid(v@, sid@) == Some(k as int),
            None => spec_find_steamid(v@, sid@) is None,
        },
{
    let mut i: usize = 0;
    proof {
        assert(v@.skip(0) =~= v@);
    }
    while i < v.len()
        invariant
            i <= v.len(),
            spec_find_steamid(v@, sid@) == (match spec_find_steamid(v@.skip(i as int), sid@) {
                Some(k) => Some(k + i),
                None => None,
            }),
        decreases v.len() - i,
    {
        proof {
            assert(v@.skip(i as int).first() == v@[i as int]);
            assert(v@.skip(i as int).drop_first() =~= v@.skip(i + 1));
        }
        if string_eq(&v[i].steamid, sid) {
            return Some(i);
        }
        i = i + 1;
    }
    proof {
        assert(v@.skip(v@.len() as int) =~= Seq::<PlayerSummary>::empty());
    }
    None
}

/// The first sentry-shot source among the victim's hurt records.
fn find_sentry_hurt(hurts: &Vec<Hurt>, vic: u32) -> (r: Option<SentryShot>)
    ensures
        r == spec_first_sentry_hurt(hurts@, vic),
{
    let mut i: usize = 0;
    proof {
        assert(hurts@.skip(0) =~= hurts@);
    }
    while i < hurts.len()
        invariant
            i <= hurts.len(),
            spec_first_sentry_hurt(hurts@, vic) == spec_first_sentry_hurt(
                hurts@.skip(i as int),
                vic,
            ),
        decreases hurts.len() - i,
    {
        let h = &hurts[i];
        proof {
            assert(hurts@.skip(i as int).first() == hurts@[i as int]);
            assert(hurts@.skip(i as int).drop_first() =~= hurts@.skip(i + 1));
        }
        if h.victim == vic {
            if let HurtSource::SentryShot(s) = &h.source {
                return Some(*s);
            }
        }
        i = i + 1;
    }
    proof {
        assert(hurts@.skip(hurts@.len() as int) =~= Seq::<Hurt>::empty());
    }
    None
}

/// The first non-blast projectile source among the victim's hurt records.
fn find_nonblast_hurt(hurts: &Vec<Hurt>, vic: u32) -> (r: Option<&Explosion>)
    ensures
        match r {
            Some(e) => spec_first_nonblast_hurt(hurts@, vic) == Some(*e),
            None => spec_first_nonblast_hurt(hurts@, vic) is None,
        },
{
    let mut i: usize = 0;
    proof {
        assert(hurts@.skip(0) =~= hurts@);
    }
    while i < hurts.len()
        invariant
            i <= hurts.len(),
            spec_first_nonblast_hurt(hurts@, vic) == spec_first_nonblast_hurt(
                hurts@.skip(i as int),
                vic,
            ),
        decreases hurts.len() - i,
    {
        let h = &hurts[i];
        proof {
            assert(hurts@.skip(i as int).first() == hurts@[i as int]);
            assert(hurts@.skip(i as int).drop_first() =~= hurts@.skip(i + 1));
        }
        if h.victim == vic {
            if let HurtSource::NonBlastProjectile(e) = &h.source {
                return Some(e);
            }
        }
        i = i + 1;
    }
    proof {
        assert(hurts@.skip(hurts@.len() as int) =~= Seq::<Hurt>::empty());
    }
    None
}

/// The first attributable explosion source among the victim's hurt records.
fn find_blast_hurt(hurts: &Vec<Hurt>, vic: u32, ah: u32, airblasted: bool) -> (r: Option<
    &Explosion,
>)
    ensures
        match r {
            Some(e) => spec_first_blast_hurt(hurts@, vic, ah, airblasted) == Some(*e),
            None => spec_first_blast_hurt(hurts@, vic, ah, airblasted) is None,
        },
{
    let mut i: usize = 0;
    proof {
        assert(hurts@.skip(0) =~= hurts@);
    }
    while i < hurts.len()
        invariant
            i <= hurts.len(),
            spec_first_blast_hurt(hurts@, vic, ah, airblasted) == spec_first_blast_hurt(
                hurts@.skip(i as int),
                vic,
                ah,
                airblasted,
            ),
        decreases hurts.len() - i,
    {
        let h = &hurts[i];
        proof {
            assert(hurts@.skip(i as int).first() == hurts@[i as int]);
            assert(hurts@.skip(i as int).drop_first() =~= hurts@.skip(i + 1));
        }
        if h.victim == vic {
            if let HurtSource::Explosion(e) = &h.source {
                if e.projectile.owner == ah || e.projectile.original_owner == ah || airblasted {
                    return Some(e);
                }
            }
        }
        i = i + 1;
    }
    proof {
        assert(hurts@.skip(hurts@.len() as int) =~= Seq::<Hurt>::empty());
    }
    None
}

/// True when no hurt record names the victim.
fn no_victim_hurts(hurts: &Vec<Hurt>, vic: u32) -> (r: bool)
    ensures
        r == spec_no_victim_hurts(hurts@, vic),
{
    let mut i: usize = 0;
    proof {
        assert(hurts@.skip(0) =~= hurts@);
    }
    while i < hurts.len()
        invariant
            i <= hurts.len(),
            spec_no_victim_hurts(hurts@, vic) == spec_no_victim_hurts(hurts@.skip(i as int), vic),
        decreases hurts.len() - i,
    {
        let h = &hurts[i];
        proof {
            assert(hurts@.skip(i as int).first() == hurts@[i as int]);
            assert(hurts@.skip(i as int).drop_first() =~= hurts@.skip(i + 1));
        }
        if h.victim == vic {
            return false;
        }
        i = i + 1;
    }
    proof {
        assert(hurts@.skip(hurts@.len() as int) =~= Seq::<Hurt>::empty());
    }
    true
}

impl MatchAnalyzer {
    /// Resolves the canonical weapon log-name of a damage or death event,
    /// from the tick's recorded sources, the attacker's weapons and the
    /// fixed damage-type tables; exactly [`spec_weapon_name_from_damage`].
    pub fn weapon_name_from_damage(
        &self,
        damage_type: DamageType,
        damage_bits: u32,
        victim: &Player,
        attacker: &Player,
        hurt: Option<&Hurt>,
    ) -> (r: String)
        requires
            self.wf(),
        ensures
            r@ == spec_weapon_name_from_damage(
                self.spec_entities(),
                self.spec_handles(),
                self.spec_schema_items(),
                self.spec_airblasts(),
                self.spec_hurts(),
                damage_type,
                damage_bits,
                *victim,
                *attacker,
                match hurt {
                    Some(h) => Some(*h),
                    None => None,
                },
            ),
    {
        let ah = attacker.handle;
        let airblasted = contains_u32(&self.airblasts, ah);
        let base: String = match self.get_weapon(attacker.last_active_weapon_handle) {
            Some(w) => match self.schema.get(w.schema_id) {
                Some(it) => crate::weapon::weapon_name(it, attacker.class),
                None => "UNKNOWN".to_owned(),
            },
            None => "UNKNOWN".to_owned(),
        };
        let sentry_sel: Option<SentryShot> = match hurt {
            Some(h) => match &h.source {
                HurtSource::SentryShot(s) => Some(*s),
                _ => None,
            },
            None => find_sentry_hurt(&self.hurts, victim.user_id),
        };
        let n1: String = match sentry_sel {
            Some(s) => crate::weapon::sentry_name(s.sentry.is_mini, s.sentry.level),
            None => base,
        };
        let nb_sel: Option<&Explosion> = match hurt {
            Some(h) => match &h.source {
                HurtSource::NonBlastProjectile(e) => Some(e),
                _ => None,
            },
            None => find_nonblast_hurt(&self.hurts, victim.user_id),
        };
        let n2: String = match nb_sel {
            Some(e) => self.exp_name(e, victim.team),
            None => {
                let cond = (crate::game::has_bits_u32(damage_bits, crate::game::DAMAGE_BLAST)
                    || damage_type == DamageType::BurningFlare || damage_type == DamageType::Plasma
                    || damage_type == DamageType::PlasmaCharged || damage_type
                    == DamageType::DefensiveSticky || damage_type == DamageType::AirStickyBurst
                    || damage_type == DamageType::RocketDirecthit || damage_type
                    == DamageType::StandardSticky || damage_type == DamageType::Normal)
                    && damage_type != DamageType::Baseball && damage_type != DamageType::Headshot
                    && damage_type != DamageType::HeadshotDecapitation && damage_type
                    != DamageType::Suicide && damage_type != DamageType::CannonballPush
                    && damage_type != DamageType::TauntGrenade && damage_type
                    != DamageType::TauntEngineerArmKill && damage_type
                    != DamageType::StickbombExplosion;
                if cond {
                    let blast_sel: Option<&Explosion> = match hurt {
                        Some(h) => match &h.source {
                            HurtSource::Explosion(e) => {
                                if e.projectile.owner == ah || e.projectile.original_owner == ah
                                    || airblasted {
                                    Some(e)
                                } else {
                                    None
                                }
                            },
                            _ => None,
                        },
                        None => find_blast_hurt(&self.hurts, victim.user_id, ah, airblasted),
                    };
                    match blast_sel {
                        Some(e) => self.exp_name(e, victim.team),
                        None => n1,
                    }
                } else {
                    n1
                }
            },
        };
        let empty: bool = match hurt {
            Some(_) => false,
            None => no_victim_hurts(&self.hurts, victim.user_id),
        };
        if let Some(t) = crate::weapon::taunt_log_name(damage_type) {
            t
        } else if damage_type == DamageType::DragonsFuryBonusBurning {
            "dragons_fury_bonus".to_owned()
        } else if damage_type == DamageType::Burning {
            match self.weapon_slot_logname(attacker.wep_0) {
                Some(l) => l,
                None => "flamethrower".to_owned(),
            }
        } else if damage_type == DamageType::BurningArrow {
            match self.weapon_slot_logname(attacker.wep_0) {
                Some(l) => l,
                None => "compound_bow".to_owned(),
            }
        } else if damage_type == DamageType::BurningFlare {
            match self.weapon_slot_logname(attacker.wep_1) {
                Some(l) => l,
                None => "flaregun".to_owned(),
            }
        } else if damage_type == DamageType::ChargeImpact {
            match self.shield_logname(attacker) {
                Some(l) => l,
                None => n2,
            }
        } else if damage_type == DamageType::PlayerSentry {
            "wrangler_kill".to_owned()
        } else if damage_type == DamageType::Baseball {
            "ball".to_owned()
        } else if damage_type == DamageType::ComboPunch {
            "robot_arm_combo_kill".to_owned()
        } else if damage_type == DamageType::CannonballPush {
            "loose_cannon_impact".to_owned()
        } else if damage_type == DamageType::BootsStomp {
            if attacker.class == Class::Pyro {
                "rocketpack_stomp".to_owned()
            } else {
                "mantreads".to_owned()
            }
        } else if damage_type == DamageType::Telefrag {
            "telefrag".to_owned()
        } else if damage_type == DamageType::DefensiveSticky {
            "sticky_resistance".to_owned()
        } else if damage_type == DamageType::StickbombExplosion {
            "ullapool_caber_explosion".to_owned()
        } else if damage_type == DamageType::Bleeding {
            "bleed_kill".to_owned()
        } else if empty || damage_type == DamageType::Suicide {
            if crate::game::has_bits_u32(damage_bits, crate::game::DAMAGE_PREVENT_PHYSICS_FORCE) {
                "player".to_owned()
            } else {
                "world".to_owned()
            }
        } else {
            n2
        }
    }
}

/// What a freshly stored entity must bring along so that the world
/// invariant survives: ownership and bounded geometry where its kind asks
/// for them.
pub open spec fn spec_entity_admissible(e: Entity) -> bool {
    match e {
        Entity::Projectile(pr) => {
            &&& spec_valid_handle(pr.owner) || pr.original_launcher_handle != 0
            &&& spec_vec3_bounded(pr.origin)
            &&& -2 * COORD_LIMIT <= pr.velocity.x <= 2 * COORD_LIMIT
            &&& -2 * COORD_LIMIT <= pr.velocity.y <= 2 * COORD_LIMIT
            &&& -2 * COORD_LIMIT <= pr.velocity.z <= 2 * COORD_LIMIT
        },
        Entity::Sentry(b) => spec_vec3_bounded(b.origin),
        Entity::Dispenser(b) => spec_vec3_bounded(b.origin),
        Entity::Teleporter(b) => spec_vec3_bounded(b.origin),
        _ => true,
    }
}

impl MatchAnalyzer {
    /// Stores an entity into a slot and binds its handle in the handle
    /// index. A live player elsewhere claiming the same handle is a protocol
    /// inconsistency: its stale handle is dropped and the event counted.
    fn store_entity(&mut self, slot: usize, e: Entity)
        requires
            old(self).wf(),
            slot < old(self).entities@.len(),
            spec_entity_admissible(e),
        ensures
            final(self).wf(),
            final(self).summaries@ == old(self).summaries@,
            final(self).uid_index@ == old(self).uid_index@,
            final(self).explosions@ == old(self).explosions@,
            final(self).hurts@ == old(self).hurts@,
            final(self).tick == old(self).tick,
            final(self).tick_events@ == old(self).tick_events@,
            final(self).entities@.len() == old(self).entities@.len(),
            final(self).entities@[slot as int] == Some(e),
            forall|i: int|
                0 <= i < final(self).entities@.len() && i != slot
                    ==> (#[trigger] final(self).entities@[i]) == old(self).entities@[i]
                    || (final(self).entities@[i] is Some
                    && final(self).entities@[i]->Some_0 is Player),
    {
        let h_opt = e.handle();
        let mut h_valid = false;
        let mut h: u32 = 0;
        if let Some(hh) = h_opt {
            if valid_handle(hh) {
                h_valid = true;
                h = hh;
            }
        }
        if h_valid {
            let mut stale: Option<usize> = None;
            match self.entity_handles.get(h) {
                Some(j0) => {
                    let j = *j0 as usize;
                    if j != slot && j < self.entities.len() {
                        match &self.entities[j] {
                            Some(Entity::Player(q)) => {
                                if q.handle == h {
                                    stale = Some(j);
                                }
                            },
                            _ => {},
                        }
                    }
                },
                None => {},
            }
            if let Some(j) = stale {
                match &mut self.entities[j] {
                    Some(Entity::Player(q)) => {
                        q.handle = 0;
                    },
                    _ => {},
                }
                self.irregularities.inconsistencies =
                    self.irregularities.inconsistencies.saturating_add(1);
            }
            let ghost mid = self.entities@;
            self.entities[slot] = Some(e);
            self.entity_handles.insert(h, slot as u32);
            proof {
                assert forall|i: int|
                    0 <= i < self.entities@.len() implies spec_slot_ok(
                    self.entity_handles@,
                    #[trigger] self.entities@[i],
                    i,
                ) by {
                    if i == slot as int {
                    } else {
                        assert(self.entities@[i] == mid[i]);
                        match mid[i] {
                            Some(Entity::Player(p)) => {
                                if spec_valid_handle(p.handle) {
                                    if p.handle == h {
                                        assert(old(self).entity_handles@.contains_key(h)
                                            && old(self).entity_handles@[h] == i as u32);
                                        assert(false);
                                    } else {
                                        assert(self.entity_handles@[p.handle] == old(self).entity_handles@[p.handle]);
                                    }
                                }
                            },
                            _ => {},
                        }
                    }
                }
            }
        } else {
            let ghost mid = self.entities@;
            self.entities[slot] = Some(e);
            proof {
                assert forall|i: int|
                    0 <= i < self.entities@.len() implies spec_slot_ok(
                    self.entity_handles@,
                    #[trigger] self.entities@[i],
                    i,
                ) by {
                    if i != slot as int {
                        assert(self.entities@[i] == mid[i]);
                    }
                }
            }
        }
    }

    /// Takes the entity out of a slot, leaving the slot empty.
    fn take_entity(&mut self, slot: usize) -> (r: Option<Entity>)
        requires
            old(self).wf(),
            slot < old(self).entities@.len(),
        ensures
            final(self).wf(),
            r == old(self).entities@[slot as int],
            final(self).entities@ == old(self).entities@.update(slot as int, None::<Entity>),
            final(self).summaries@ == old(self).summaries@,
            final(self).uid_index@ == old(self).uid_index@,
            final(self).explosions@ == old(self).explosions@,
            final(self).hurts@ == old(self).hurts@,
            final(self).tick == old(self).tick,
            final(self).tick_events@ == old(self).tick_events@,
            final(self).entity_handles@ == old(self).entity_handles@,
    {
        let mut tmp: Option<Entity> = None;
        core::mem::swap(&mut tmp, &mut self.entities[slot]);
        proof {
            assert forall|i: int|
                0 <= i < self.entities@.len() implies spec_slot_ok(
                self.entity_handles@,
                #[trigger] self.entities@[i],
                i,
            ) by {
                if i != slot as int {
                    assert(self.entities@[i] == old(self).entities@[i]);
                }
            }
        }
        tmp
    }
}

impl MatchAnalyzer {
    /// The player entity at a world slot, copied out.
    fn get_player_entity(&self, eid: u32) -> (r: Option<Player>)
        requires
            self.wf(),
        ensures
            r == spec_player_at(self.spec_entities(), eid),
    {
        let e = eid as usize;
        if e < self.entities.len() {
            match &self.entities[e] {
                Some(Entity::Player(p)) => Some(*p),
                _ => None,
            }
        } else {
            None
        }
    }

    /// Counts one recovered irregularity of the given kind.
    fn note_decode_error(&mut self)
        ensures
            *final(self) == (MatchAnalyzer {
                irregularities: Irregularities {
                    decode_errors: spec_sat1(old(self).irregularities.decode_errors),
                    ..old(self).irregularities
                },
                ..*old(self)
            }),
    {
        self.irregularities.decode_errors = self.irregularities.decode_errors.saturating_add(1);
    }

    /// Counts one reference miss.
    fn note_reference_miss(&mut self)
        ensures
            *final(self) == (MatchAnalyzer {
                irregularities: Irregularities {
                    reference_misses: spec_sat1(old(self).irregularities.reference_misses),
                    ..old(self).irregularities
                },
                ..*old(self)
            }),
    {
        self.irregularities.reference_misses =
            self.irregularities.reference_misses.saturating_add(1);
    }

    /// Counts one inconsistency.
    fn note_inconsistency(&mut self)
        ensures
            *final(self) == (MatchAnalyzer {
                irregularities: Irregularities {
                    inconsistencies: spec_sat1(old(self).irregularities.inconsistencies),
                    ..old(self).irregularities
                },
                ..*old(self)
            }),
    {
        self.irregularities.inconsistencies =
            self.irregularities.inconsistencies.saturating_add(1);
    }

    /// Records the weapon and cosmetic slot handles a player update names as
    /// owned by the player's user id.
    /// Records the weapon slot handles a player update names as owned by
    /// the player's user id: afterwards every handle the patch names is
    /// bound to `uid` in the owner table.
    #[verifier::rlimit(100)]
    #[verifier::spinoff_prover]
    fn note_weapon_owners(&mut self, patch: &PlayerPatch, uid: u32)
        requires
            old(self).wf(),
        ensures
            final(self).wf(),
            (match patch.active_weapon_handle {
                Some(w) => final(self).spec_weapon_owners().contains_key(w)
                    && final(self).spec_weapon_owners()[w] == uid,
                None => true,
            }),
            (match patch.wep_0 {
                Some(w) => final(self).spec_weapon_owners().contains_key(w)
                    && final(self).spec_weapon_owners()[w] == uid,
                None => true,
            }),
            (match patch.wep_1 {
                Some(w) => final(self).spec_weapon_owners().contains_key(w)
                    && final(self).spec_weapon_owners()[w] == uid,
                None => true,
            }),
            (match patch.wep_2 {
                Some(w) => final(self).spec_weapon_owners().contains_key(w)
                    && final(self).spec_weapon_owners()[w] == uid,
                None => true,
            }),
            (match patch.wep_3 {
                Some(w) => final(self).spec_weapon_owners().contains_key(w)
                    && final(self).spec_weapon_owners()[w] == uid,
                None => true,
            }),
            (match patch.wep_4 {
                Some(w) => final(self).spec_weapon_owners().contains_key(w)
                    && final(self).spec_weapon_owners()[w] == uid,
                None => true,
            }),
            (match patch.wep_5 {
                Some(w) => final(self).spec_weapon_owners().contains_key(w)
                    && final(self).spec_weapon_owners()[w] == uid,
                None => true,
            }),
            (match patch.wep_6 {
                Some(w) => final(self).spec_weapon_owners().contains_key(w)
                    && final(self).spec_weapon_owners()[w] == uid,
                None => true,
            }),
            final(self).tick == old(self).tick,
            final(self).summaries@ == old(self).summaries@,
            final(self).entities@ == old(self).entities@,
            final(self).explosions@ == old(self).explosions@,
            final(self).hurts@ == old(self).hurts@,
            final(self).entity_handles@ == old(self).entity_handles@,
            final(self).uid_index@ == old(self).uid_index@,
            final(self).tick_events@ == old(self).tick_events@,
    {
        if let Some(w) = patch.active_weapon_handle {
            self.weapon_owners.insert(w, uid);
        }
        if let Some(w) = patch.wep_0 {
            self.weapon_owners.insert(w, uid);
        }
        if let Some(w) = patch.wep_1 {
            self.weapon_owners.insert(w, uid);
        }
        if let Some(w) = patch.wep_2 {
            self.weapon_owners.insert(w, uid);
        }
        if let Some(w) = patch.wep_3 {
            self.weapon_owners.insert(w, uid);
        }
        if let Some(w) = patch.wep_4 {
            self.weapon_owners.insert(w, uid);
        }
        if let Some(w) = patch.wep_5 {
            self.weapon_owners.insert(w, uid);
        }
        if let Some(w) = patch.wep_6 {
            self.weapon_owners.insert(w, uid);
        }
        self.note_cosmetic_owners(patch, uid);
    }

    /// Records the cosmetic slot handles a player update names as owned by
    /// the player's user id.
    #[verifier::rlimit(100)]
    fn note_cosmetic_owners(&mut self, patch: &PlayerPatch, uid: u32)
        requires
            old(self).wf(),
        ensures
            final(self).wf(),
            final(self).spec_weapon_owners() == old(self).spec_weapon_owners(),
            final(self).tick == old(self).tick,
            final(self).summaries@ == old(self).summaries@,
            final(self).entities@ == old(self).entities@,
            final(self).explosions@ == old(self).explosions@,
            final(self).hurts@ == old(self).hurts@,
            final(self).entity_handles@ == old(self).entity_handles@,
            final(self).uid_index@ == old(self).uid_index@,
            final(self).tick_events@ == old(self).tick_events@,
    {
        if let Some(c) = patch.cosmetic_0 {
            self.cosmetic_owners.insert(c, uid);
        }
        if let Some(c) = patch.cosmetic_1 {
            self.cosmetic_owners.insert(c, uid);
        }
        if let Some(c) = patch.cosmetic_2 {
            self.cosmetic_owners.insert(c, uid);
        }
        if let Some(c) = patch.cosmetic_3 {
            self.cosmetic_owners.insert(c, uid);
        }
        if let Some(c) = patch.cosmetic_4 {
            self.cosmetic_owners.insert(c, uid);
        }
        if let Some(c) = patch.cosmetic_5 {
            self.cosmetic_owners.insert(c, uid);
        }
        if let Some(c) = patch.cosmetic_6 {
            self.cosmetic_owners.insert(c, uid);
        }
        if let Some(c) = patch.cosmetic_7 {
            self.cosmetic_owners.insert(c, uid);
        }
    }

    /// Resolves the player handle that owns a launcher weapon handle, going
    /// launcher, owner map, summary, player entity; exactly
    /// [`spec_launcher_owner`].
    fn owner_handle_of_launcher(&self, launcher: u32) -> (r: Option<u32>)
        requires
            self.wf(),
        ensures
            r == spec_launcher_owner(
                self.spec_entities(),
                self.spec_summaries(),
                self.spec_uid_index(),
                self.spec_weapon_owners(),
                launcher,
            ),
    {
        match self.weapon_owners.get(launcher) {
            Some(uid) => match self.summary_idx_of_uid(*uid) {
                Some(idx) => {
                    let eid = self.summaries[idx].entity_id;
                    match self.get_player_entity(eid) {
                        Some(p) => Some(p.handle),
                        None => None,
                    }
                },
                None => None,
            },
            None => None,
        }
    }

    /// The first world slot whose collision box contains the point; exactly
    /// [`spec_first_collider`] over the whole world.
    fn first_collider_slot(&self, p: Vec3i) -> (r: Option<usize>)
        requires
            self.wf(),
        ensures
            match r {
                Some(b) => b < self.spec_entities().len() && spec_first_collider(
                    self.spec_entities(),
                    p,
                    self.spec_entities().len() as int,
                ) == Some(b as int),
                None => spec_first_collider(
                    self.spec_entities(),
                    p,
                    self.spec_entities().len() as int,
                ) is None,
            },
    {
        let mut i: usize = 0;
        while i < self.entities.len()
            invariant
                self.wf(),
                i <= self.entities@.len(),
                spec_first_collider(self.entities@, p, i as int) is None,
            decreases self.entities@.len() - i,
        {
            let mut hit = false;
            match &self.entities[i] {
                Some(en) => {
                    match en.collider() {
                        Some(cb) => {
                            proof {
                                assert(spec_slot_ok(
                                    self.entity_handles@,
                                    self.entities@[i as int],
                                    i as int,
                                ));
                            }
                            let b = crate::collide::aabb_around(cb.0, cb.1.0, cb.1.1, cb.1.2);
                            if aabb_contains(&b, p) {
                                hit = true;
                            }
                        },
                        None => {},
                    }
                },
                None => {},
            }
            if hit {
                proof {
                    lemma_first_collider_extend(
                        self.entities@,
                        p,
                        i as int,
                        self.entities@.len() as int,
                    );
                }
                return Some(i);
            }
            i = i + 1;
        }
        None
    }

    /// The projectile kind of an entity class and its launcher schema id;
    /// exactly [`spec_projectile_kind`] of the registry's item.
    fn resolve_kind(&self, class_name: &String, launcher_schema: Option<u32>) -> (k:
        ProjectileType)
        requires
            self.wf(),
        ensures
            k == spec_projectile_kind(
                class_name@,
                match launcher_schema {
                    Some(id) => spec_item_of(self.spec_schema_items(), id),
                    None => None,
                },
            ),
    {
        let mut kind = ProjectileType::Unknown;
        if str_is(class_name, "CTFProjectile_EnergyRing") {
            kind = ProjectileType::EnergyRing;
        } else if str_is(class_name, "CTFProjectile_HealingBolt") {
            kind = ProjectileType::HealingBolt;
        } else if str_is(class_name, "CTFProjectile_Rocket") {
            kind = ProjectileType::Rocket;
        } else if str_is(class_name, "CTFProjectile_SentryRocket") {
            kind = ProjectileType::SentryRocket;
        } else if str_is(class_name, "CTFProjectile_JarMilk") {
            kind = ProjectileType::MadMilk;
        } else if str_is(class_name, "CTFProjectile_BallOfFire") {
            kind = ProjectileType::DragonsFuryFire;
        } else if str_is(class_name, "CTFProjectile_Cleaver") {
            kind = ProjectileType::Cleaver;
        } else if str_is(class_name, "CTFBall_Ornament") {
            kind = ProjectileType::WrapAssassin;
        } else if str_is(class_name, "CTFProjectile_EnergyBall") {
            kind = ProjectileType::CowMangler;
        } else if str_is(class_name, "CTFStunBall") {
            kind = ProjectileType::Sandman;
        } else if str_is(class_name, "CTFProjectile_MechanicalArmOrb") {
            kind = ProjectileType::ShortCircuit;
        }
        let item = match launcher_schema {
            Some(id) => self.schema.get(id),
            None => None,
        };
        match item {
            None => kind,
            Some(it) => {
                let mut k1 = kind;
                if let Some(ic) = &it.item_class {
                    if str_is(ic, "tf_weapon_shotgun_building_rescue") {
                        k1 = ProjectileType::RescueRanger;
                    } else if str_is(ic, "tf_weapon_compound_bow") {
                        k1 = ProjectileType::HuntsmanArrow;
                    } else if str_is(ic, "tf_weapon_jar") {
                        k1 = ProjectileType::Jarate;
                    } else if str_is(ic, "tf_weapon_jar_gas") {
                        k1 = ProjectileType::GasPasser;
                    }
                }
                let mut k2 = k1;
                if let Some(n) = &it.item_name {
                    if str_is(n, "#TF_Weapon_Sticky_Quickie") {
                        k2 = ProjectileType::QuickieBomb;
                    } else if str_is(n, "#TF_Unique_Achievement_StickyLauncher") {
                        k2 = ProjectileType::ScottishResistance;
                    } else if str_is(n, "#TF_Weapon_StickyBomb_Jump") {
                        k2 = ProjectileType::StickyBombJumper;
                    } else if str_is(n, "#TF_Weapon_Iron_bomber") {
                        k2 = ProjectileType::IronBomber;
                    } else if str_is(n, "#TF_LochNLoad") {
                        k2 = ProjectileType::LochNLoad;
                    } else if str_is(n, "#TF_Weapon_Cannon") {
                        k2 = ProjectileType::LooseCannon;
                    } else if str_is(n, "#TF_Weapon_PipebombLauncher") || str_has_prefix(
                        n,
                        "#TF_Weapon_StickybombLauncher_",
                    ) {
                        k2 = ProjectileType::StickyBomb;
                    } else if str_has_prefix(n, "#TF_Weapon_GrenadeLauncher") {
                        k2 = ProjectileType::Pipe;
                    }
                }
                if str_is(class_name, "CTFProjectile_Flare") {
                    match find_mode(&it.attributes) {
                        Some(m) => {
                            if str_is(&m, "1") {
                                ProjectileType::DetonatorFlare
                            } else if str_is(&m, "2") {
                                ProjectileType::ManmelterFlare
                            } else if str_is(&m, "3") {
                                ProjectileType::ScorchShotFlare
                            } else {
                                ProjectileType::Flare
                            }
                        },
                        None => ProjectileType::Flare,
                    }
                } else {
                    k2
                }
            },
        }
    }

    /// Builds a projectile from its birth update: origin from whichever
    /// origin property is present, ownership from the explicit owner, the
    /// first-collider point query for sentry rockets, or the original
    /// launcher's owner, the reflect rule for the original owner, and kind
    /// resolution from the entity class and the launcher's schema item;
    /// exactly [`spec_projectile_birth`]. Yields nothing when the update
    /// carries no ownership information at all.
    #[verifier::rlimit(100)]
    #[verifier::spinoff_prover]
    fn make_projectile(&mut self, pe: &PacketEntityModel, class_name: &String) -> (r: Option<
        Projectile,
    >)
        requires
            old(self).wf(),
        ensures
            final(self).wf(),
            final(self).tick == old(self).tick,
            final(self).summaries@ == old(self).summaries@,
            final(self).entities@ == old(self).entities@,
            final(self).explosions@ == old(self).explosions@,
            final(self).hurts@ == old(self).hurts@,
            final(self).uid_index@ == old(self).uid_index@,
            final(self).entity_handles@ == old(self).entity_handles@,
            final(self).tick_events@ == old(self).tick_events@,
            final(self).weapon_owners@ == old(self).weapon_owners@,
            match r {
                Some(pr) => spec_entity_admissible(Entity::Projectile(pr)),
                None => true,
            },
            spec_projectile_birth(
                old(self).spec_entities(),
                old(self).spec_handles(),
                old(self).spec_schema_items(),
                old(self).spec_summaries(),
                old(self).spec_uid_index(),
                old(self).spec_weapon_owners(),
                old(self).spec_ids(),
                pe.props@,
                class_name@,
                r,
            ),
    {
        let is_pipebomb = str_is(class_name, "CTFGrenadePipebombProjectile");
        let patch = Projectile::parse(&pe.props, &self.ids, is_pipebomb);
        let origin0: Vec3i = match patch.origin {
            Some(o) => o,
            None => {
                if !str_is(class_name, "CTFProjectile_EnergyRing") {
                    self.note_decode_error();
                }
                Vec3i::zero()
            },
        };
        let origin = crate::collide::clamp_vec3(origin0);
        let mut owner: u32 = 0;
        let mut have_owner = false;
        if let Some(o) = patch.owner {
            owner = o;
            have_owner = true;
        }
        let is_sentry = str_is(class_name, "CTFProjectile_SentryRocket");
        if is_sentry {
            match self.first_collider_slot(origin) {
                Some(slot) => {
                    let mut from_sentry = false;
                    match &self.entities[slot] {
                        Some(Entity::Sentry(sn)) => {
                            owner = sn.owner;
                            have_owner = valid_handle(sn.owner);
                            from_sentry = true;
                        },
                        _ => {},
                    }
                    if !from_sentry {
                        self.note_inconsistency();
                    }
                },
                None => {},
            }
        }
        if !have_owner || !valid_handle(owner) {
            if let Some(l) = patch.original_launcher {
                if let Some(h) = self.owner_handle_of_launcher(l) {
                    if valid_handle(h) {
                        owner = h;
                        have_owner = true;
                    }
                }
            }
        }
        let launcher_h: u32 = match patch.original_launcher {
            Some(l) => l,
            None => 0,
        };
        if !(have_owner && valid_handle(owner)) && launcher_h == 0 {
            return None;
        }
        let mut original_owner = owner;
        let mut launcher_schema: Option<u32> = None;
        if launcher_h != 0 {
            let lw_info: Option<(u32, u32)> = match self.get_weapon(launcher_h) {
                Some(w) => Some((w.schema_id, w.owner)),
                None => None,
            };
            match lw_info {
                Some((sid, wown)) => {
                    launcher_schema = Some(sid);
                    if owner != wown {
                        if patch.is_reflected == Some(true) {
                            original_owner = wown;
                        } else {
                            self.note_inconsistency();
                        }
                    }
                },
                None => {
                    if !is_sentry {
                        self.note_reference_miss();
                    }
                },
            }
        }
        let kind = self.resolve_kind(class_name, launcher_schema);
        match launcher_schema {
            Some(id) => {
                if self.schema.get(id).is_none() {
                    self.irregularities.schema_gaps =
                        self.irregularities.schema_gaps.saturating_add(1);
                }
            },
            None => {},
        }
        if kind == ProjectileType::Unknown {
            self.note_decode_error();
        }
        Some(
            Projectile {
                class_name: class_name.clone(),
                launcher_schema_id: launcher_schema,
                is_sentry,
                origin,
                velocity: Vec3i::zero(),
                original_owner,
                owner,
                is_reflected: match patch.is_reflected {
                    Some(b) => b,
                    None => false,
                },
                original_team: match patch.team {
                    Some(t) => t,
                    None => Team::Spectator,
                },
                team: match patch.team {
                    Some(t) => t,
                    None => Team::Spectator,
                },
                original_launcher_handle: launcher_h,
                grenade_type: patch.grenade_type,
                model_id: patch.model_id,
                kind,
                effects: match patch.effects {
                    Some(f) => f,
                    None => 0,
                },
            },
        )
    }
}

/// True when `p` is a prefix of the string's characters.
pub open spec fn spec_has_prefix(a: Seq<char>, b: Seq<char>) -> bool {
    a.len() >= b.len() && a.take(b.len() as int) == b
}

/// Executable twin of [`spec_has_prefix`].
pub fn str_has_prefix(s: &String, p: &str) -> (r: bool)
    ensures
        r == spec_has_prefix(s@, p@),
{
    let st: &str = s.as_str();
    let n = st.unicode_len();
    let m = p.unicode_len();
    if n < m {
        proof {
            assert(!spec_has_prefix(s@, p@));
        }
        return false;
    }
    let mut i: usize = 0;
    while i < m
        invariant
            i <= m,
            m <= n,
            n == s@.len(),
            m == p@.len(),
            st@ == s@,
            forall|k: int| 0 <= k < i as int ==> s@[k] == p@[k],
        decreases m - i,
    {
        if st.get_char(i) != p.get_char(i) {
            proof {
                assert(s@.take(p@.len() as int)[i as int] != p@[i as int]);
            }
            return false;
        }
        i = i + 1;
    }
    proof {
        assert(s@.take(p@.len() as int) =~= p@);
    }
    true
}

/// Lexicographic order on character sequences, by character code.
pub open spec fn spec_chars_le(a: Seq<char>, b: Seq<char>) -> bool
    decreases a.len(),
{
    if a.len() == 0 {
        true
    } else if b.len() == 0 {
        false
    } else if (a.first() as u32) < (b.first() as u32) {
        true
    } else if (a.first() as u32) > (b.first() as u32) {
        false
    } else {
        spec_chars_le(a.drop_first(), b.drop_first())
    }
}

/// The order is total.
pub proof fn lemma_chars_le_total(a: Seq<char>, b: Seq<char>)
    ensures
        spec_chars_le(a, b) || spec_chars_le(b, a),
    decreases a.len(),
{
    if a.len() != 0 && b.len() != 0 && (a.first() as u32) == (b.first() as u32) {
        lemma_chars_le_total(a.drop_first(), b.drop_first());
    }
}

/// The order is reflexive.
pub proof fn lemma_chars_le_refl(a: Seq<char>)
    ensures
        spec_chars_le(a, a),
    decreases a.len(),
{
    if a.len() != 0 {
        lemma_chars_le_refl(a.drop_first());
    }
}

/// The order is transitive.
pub proof fn lemma_chars_le_trans(a: Seq<char>, b: Seq<char>, c: Seq<char>)
    requires
        spec_chars_le(a, b),
        spec_chars_le(b, c),
    ensures
        spec_chars_le(a, c),
    decreases a.len(),
{
    if a.len() != 0 {
        assert(b.len() != 0);
        assert(c.len() != 0);
        if (a.first() as u32) == (b.first() as u32) && (b.first() as u32) == (
        c.first() as u32) {
            lemma_chars_le_trans(a.drop_first(), b.drop_first(), c.drop_first());
        }
    }
}

/// Executable twin of [`spec_chars_le`].
pub fn string_le(a: &String, b: &String) -> (r: bool)
    ensures
        r == spec_chars_le(a@, b@),
{
    let sa: &str = a.as_str();
    let sb: &str = b.as_str();
    let na = sa.unicode_len();
    let nb = sb.unicode_len();
    let mut i: usize = 0;
    proof {
        assert(a@.skip(0) =~= a@);
        assert(b@.skip(0) =~= b@);
    }
    loop
        invariant
            i <= na,
            i <= nb,
            na == a@.len(),
            nb == b@.len(),
            sa@ == a@,
            sb@ == b@,
            spec_chars_le(a@, b@) == spec_chars_le(a@.skip(i as int), b@.skip(i as int)),
        decreases na - i,
    {
        proof {
            if i < na {
                assert(a@.skip(i as int).first() == a@[i as int]);
                assert(a@.skip(i as int).drop_first() =~= a@.skip(i + 1));
            }
            if i < nb {
                assert(b@.skip(i as int).first() == b@[i as int]);
                assert(b@.skip(i as int).drop_first() =~= b@.skip(i + 1));
            }
        }
        if i >= na {
            proof {
                assert(a@.skip(i as int).len() == 0);
            }
            return true;
        }
        if i >= nb {
            proof {
                assert(b@.skip(i as int).len() == 0);
                assert(a@.skip(i as int).len() > 0);
            }
            return false;
        }
        let ca = sa.get_char(i) as u32;
        let cb = sb.get_char(i) as u32;
        if ca < cb {
            return true;
        }
        if ca > cb {
            return false;
        }
        i = i + 1;
    }
}

/// The snapshot order: player summaries sorted by steam-id.
pub open spec fn spec_sorted_by_steamid(s: Seq<PlayerSummary>) -> bool {
    forall|i: int, j: int|
        0 <= i < j < s.len() ==> spec_chars_le(
            (#[trigger] s[i]).steamid@,
            (#[trigger] s[j]).steamid@,
        )
}

/// Copies a summary table entry for entry.
fn dup_summaries(v: &Vec<PlayerSummary>) -> (r: Vec<PlayerSummary>)
    ensures
        r@.len() == v@.len(),
{
    let mut r: Vec<PlayerSummary> = Vec::new();
    let mut i: usize = 0;
    while i < v.len()
        invariant
            i <= v.len(),
            r@.len() == i,
        decreases v.len() - i,
    {
        r.push(v[i].duplicate());
        i = i + 1;
    }
    r
}

/// Sorts a snapshot of player summaries by steam-id, for deterministic
/// output; the result is sorted and has the same length.
fn sort_players(v: Vec<PlayerSummary>) -> (r: Vec<PlayerSummary>)
    ensures
        r@.len() == v@.len(),
        spec_sorted_by_steamid(r@),
        (forall|j: int|
            0 <= j < v@.len() ==> (#[trigger] v@[j]).tick_start is Some && v@[j].tick_end is Some)
            ==> (forall|j: int|
            0 <= j < r@.len() ==> (#[trigger] r@[j]).tick_start is Some && r@[j].tick_end is Some),
{
    let ghost all_ticked = forall|j: int|
        0 <= j < v@.len() ==> (#[trigger] v@[j]).tick_start is Some && v@[j].tick_end is Some;
    let mut rest = v;
    let mut out: Vec<PlayerSummary> = Vec::new();
    while rest.len() > 0
        invariant
            out@.len() + rest@.len() == v@.len(),
            spec_sorted_by_steamid(out@),
            all_ticked ==> forall|j: int|
                0 <= j < out@.len() ==> (#[trigger] out@[j]).tick_start is Some
                    && out@[j].tick_end is Some,
            all_ticked ==> forall|j: int|
                0 <= j < rest@.len() ==> (#[trigger] rest@[j]).tick_start is Some
                    && rest@[j].tick_end is Some,
            all_ticked == (forall|j: int|
                0 <= j < v@.len() ==> (#[trigger] v@[j]).tick_start is Some && v@[j].tick_end
                    is Some),
            forall|i: int, j: int|
                0 <= i < out@.len() && 0 <= j < rest@.len() ==> spec_chars_le(
                    (#[trigger] out@[i]).steamid@,
                    (#[trigger] rest@[j]).steamid@,
                ),
        decreases rest@.len(),
    {
        let mut m: usize = 0;
        let mut k: usize = 1;
        proof {
            lemma_chars_le_refl(rest@[0].steamid@);
        }
        while k < rest.len()
            invariant
                m < k,
                k <= rest.len(),
                m < rest@.len(),
                forall|t: int|
                    0 <= t < k as int ==> spec_chars_le(
                        rest@[m as int].steamid@,
                        (#[trigger] rest@[t]).steamid@,
                    ),
            decreases rest.len() - k,
        {
            proof {
                lemma_chars_le_total(rest@[m as int].steamid@, rest@[k as int].steamid@);
            }
            if !string_le(&rest[m].steamid, &rest[k].steamid) {
                proof {
                    lemma_chars_le_refl(rest@[k as int].steamid@);
                    assert forall|t: int|
                        0 <= t < k as int implies spec_chars_le(
                        rest@[k as int].steamid@,
                        (#[trigger] rest@[t]).steamid@,
                    ) by {
                        lemma_chars_le_trans(
                            rest@[k as int].steamid@,
                            rest@[m as int].steamid@,
                            rest@[t].steamid@,
                        );
                    }
                }
                m = k;
            } else {
                proof {
                    assert(spec_chars_le(rest@[m as int].steamid@, rest@[k as int].steamid@));
                }
            }
            k = k + 1;
        }
        let ghost pre_rest = rest@;
        let p = rest.remove(m);
        proof {
            assert(forall|j: int|
                0 <= j < rest@.len() ==> #[trigger] rest@[j] == if j < m as int {
                    pre_rest[j]
                } else {
                    pre_rest[j + 1]
                });
        }
        out.push(p);
        proof {
            assert(forall|i: int|
                0 <= i < out@.len() - 1 ==> #[trigger] out@[i] == out@.take(out@.len() - 1)[i]);
        }
    }
    out
}


impl MatchAnalyzer {
    /// True when the running round accumulator holds anything worth
    /// flushing at end of stream.
    pub closed spec fn spec_round_pending(&self) -> bool {
        self.current_round.time_millis > 0 || self.round_dirty
    }

    /// Handles one entity record of a packet-entities message: enter,
    /// in-place patch, or removal, dispatched on the slot's entity kind and
    /// the record's server class. For a known, in-range slot that is not
    /// the player-resource or game-rules entity: an entry fills the slot, a
    /// patch keeps its kind and applies the kind's patch function, and a
    /// delete or leave clears it with the removal hooks of
    /// [`spec_remove_effect`].
    pub fn handle_packet_entity(&mut self, pe: &PacketEntityModel)
        requires
            old(self).wf(),
        ensures
            final(self).wf(),
            final(self).spec_tick() == old(self).spec_tick(),
            ({
                let slot = pe.entity_index as int;
                let known = old(self).spec_server_class_names().contains_key(
                    pe.server_class as u32,
                );
                let cn = old(self).spec_server_class_names()[pe.server_class as u32];
                (slot < old(self).spec_entities().len() && known && cn@ != "CTFPlayerResource"@
                    && cn@ != "CTFGameRulesProxy"@) ==> (match pe.update_type {
                    UpdateType::Delete | UpdateType::Leave => spec_remove_effect(
                        old(self).spec_entities(),
                        old(self).spec_summaries(),
                        old(self).spec_uid_index(),
                        old(self).spec_explosions(),
                        old(self).spec_tick(),
                        slot,
                        final(self).spec_entities(),
                        final(self).spec_summaries(),
                        final(self).spec_explosions(),
                    ),
                    UpdateType::Enter => final(self).spec_entities()[slot] is Some
                        && spec_enter_stored(
                        *old(self),
                        pe.props@,
                        pe.server_class as u32,
                        cn@,
                        pe.entity_index as u32,
                        final(self).spec_entities()[slot],
                    ),
                    UpdateType::Preserve => ({
                        &&& final(self).spec_tick_events() == (match old(self).spec_entities()[slot] {
                            Some(Entity::Weapon(w)) => (if crate::entity::weapon::spec_weapon_parse(
                                pe.props@,
                                old(self).spec_ids(),
                            ).charge_released == Some(true) && !w.charge_released {
                                old(self).spec_tick_events().push(Event::MedigunCharged(w.handle))
                            } else {
                                old(self).spec_tick_events()
                            }),
                            _ => old(self).spec_tick_events(),
                        })
                        &&& (match old(self).spec_entities()[slot] {
                            Some(Entity::Projectile(pr)) => (if spec_preserve_explodes(
                                pr,
                                crate::entity::projectile::spec_projectile_parse(
                                    pe.props@,
                                    old(self).spec_ids(),
                                    pr.class_name@ == "CTFGrenadePipebombProjectile"@,
                                ),
                            ) {
                                spec_explosion_pushed(
                                    old(self).spec_explosions(),
                                    final(self).spec_explosions(),
                                    pr,
                                    old(self).spec_tick(),
                                )
                            } else {
                                final(self).spec_explosions() == old(self).spec_explosions()
                            }),
                            _ => final(self).spec_explosions() == old(self).spec_explosions(),
                        })
                        &&& (match old(self).spec_entities()[slot] {
                        Some(Entity::Weapon(w)) => final(self).spec_entities()[slot] == Some(
                            Entity::Weapon(
                                crate::entity::weapon::spec_weapon_apply(
                                    w,
                                    crate::entity::weapon::spec_weapon_parse(
                                        pe.props@,
                                        old(self).spec_ids(),
                                    ),
                                ),
                            ),
                        ),
                        Some(Entity::Shield(sh)) => final(self).spec_entities()[slot] == Some(
                            Entity::Shield(
                                crate::entity::shield::spec_shield_apply(
                                    sh,
                                    crate::entity::shield::spec_shield_parse(
                                        pe.props@,
                                        old(self).spec_ids(),
                                    ),
                                ),
                            ),
                        ),
                        Some(Entity::Projectile(pr)) => (match final(self).spec_entities()[slot] {
                            Some(Entity::Projectile(pr2)) => pr2
                                == crate::entity::projectile::spec_projectile_apply(
                                pr,
                                crate::entity::projectile::spec_projectile_parse(
                                    pe.props@,
                                    old(self).spec_ids(),
                                    pr.class_name@ == "CTFGrenadePipebombProjectile"@,
                                ),
                            ),
                            _ => false,
                        }),
                        Some(Entity::Player(p)) => (match final(self).spec_entities()[slot] {
                            Some(Entity::Player(p2)) => p2
                                == crate::entity::player::spec_player_apply(
                                p,
                                crate::entity::player::spec_player_parse(
                                    pe.props@,
                                    old(self).spec_ids(),
                                ),
                            ),
                            _ => false,
                        }),
                        Some(_) => final(self).spec_entities()[slot] is Some,
                        None => final(self).spec_entities() == old(self).spec_entities(),
                        })
                    }),
                })
            }),
    {
        let slot = pe.entity_index as usize;
        if slot >= self.entities.len() {
            self.note_decode_error();
            return ;
        }
        let class_name: Option<String> = match self.server_class_names.get(pe.server_class as u32) {
            Some(n) => Some(n.clone()),
            None => None,
        };
        let cn: String = match class_name {
            Some(c) => c,
            None => {
                self.note_decode_error();
                return ;
            },
        };
        if str_is(&cn, "CTFPlayerResource") {
            self.handle_player_resource(pe);
            return ;
        }
        if str_is(&cn, "CTFGameRulesProxy") {
            self.handle_game_rules(pe);
            return ;
        }
        match pe.update_type {
            UpdateType::Enter => {
                self.enter_entity(slot, pe, &cn);
            },
            UpdateType::Preserve => {
                self.preserve_entity(slot, pe);
            },
            UpdateType::Delete | UpdateType::Leave => {
                self.remove_entity(slot);
            },
        }
    }

    /// Constructs the entity a slot-entry record describes and stores it;
    /// the slot is occupied afterwards.
    fn enter_entity(&mut self, slot: usize, pe: &PacketEntityModel, cn: &String)
        requires
            old(self).wf(),
            slot < old(self).entities@.len(),
        ensures
            final(self).wf(),
            final(self).spec_tick() == old(self).spec_tick(),
            final(self).spec_hurts() == old(self).spec_hurts(),
            final(self).spec_entities()[slot as int] is Some,
            spec_enter_stored(
                *old(self),
                pe.props@,
                pe.server_class as u32,
                cn@,
                slot as u32,
                final(self).spec_entities()[slot as int],
            ),
    {
        if str_is(cn, "CObjectSentrygun") {
            let patch = BuildingPatch::parse(&pe.props, &self.ids);
            let owner = match patch.owner {
                Some(o) => o,
                None => {
                    self.note_decode_error();
                    0
                },
            };
            let owner_entity: u32 = match self.entity_handles.get(owner) {
                Some(e) => *e,
                None => {
                    self.note_reference_miss();
                    0
                },
            };
            let origin = match patch.origin {
                Some(o) => o,
                None => {
                    self.note_decode_error();
                    Vec3i::zero()
                },
            };
            let s = Sentry {
                origin: crate::collide::clamp_vec3(origin),
                owner,
                owner_entity,
                level: match patch.level {
                    Some(l) => l,
                    None => 0,
                },
                is_mini: match patch.is_mini {
                    Some(m) => m,
                    None => false,
                },
            };
            self.store_entity(slot, Entity::Sentry(s));
        } else if str_is(cn, "CObjectDispenser") {
            let patch = BuildingPatch::parse(&pe.props, &self.ids);
            let owner = match patch.owner {
                Some(o) => o,
                None => 0,
            };
            let owner_entity: u32 = match self.entity_handles.get(owner) {
                Some(e) => *e,
                None => 0,
            };
            let origin = match patch.origin {
                Some(o) => o,
                None => Vec3i::zero(),
            };
            let d = Dispenser {
                origin: crate::collide::clamp_vec3(origin),
                owner,
                owner_entity,
                level: match patch.level {
                    Some(l) => l,
                    None => 0,
                },
            };
            self.store_entity(slot, Entity::Dispenser(d));
        } else if str_is(cn, "CObjectTeleporter") {
            let patch = BuildingPatch::parse(&pe.props, &self.ids);
            let owner = match patch.owner {
                Some(o) => o,
                None => 0,
            };
            let owner_entity: u32 = match self.entity_handles.get(owner) {
                Some(e) => *e,
                None => 0,
            };
            let origin = match patch.origin {
                Some(o) => o,
                None => Vec3i::zero(),
            };
            let t = Teleporter {
                origin: crate::collide::clamp_vec3(origin),
                owner,
                owner_entity,
                level: match patch.level {
                    Some(l) => l,
                    None => 0,
                },
            };
            self.store_entity(slot, Entity::Teleporter(t));
        } else if str_is(cn, "CTFPlayer") {
            let patch = Player::parse(&pe.props, &self.ids);
            let uid: u32 = match self.user_entities.get(slot as u32) {
                Some(u) => *u,
                None => {
                    self.note_reference_miss();
                    0
                },
            };
            match self.summary_idx_of_uid(uid) {
                Some(idx) => {
                    let ghost pre = self.summaries@;
                    let t = self.tick;
                    self.summaries[idx].apply_player_entity_patch(&patch, t, true);
                    proof {
                        lemma_summaries_update_ok(pre, self.summaries@, self.uid_index@, idx as int);
                    }
                },
                None => {
                    self.note_reference_miss();
                },
            }
            self.note_weapon_owners(&patch, uid);
            let mut p = Player::blank(uid);
            p.apply(patch);
            self.store_entity(slot, Entity::Player(p));
        } else if str_is(cn, "CTFWearableDemoShield") {
            let patch = Shield::parse(&pe.props, &self.ids);
            let mut sh = Shield { class_name: cn.clone(), owner: 0, handle: 0, schema_id: 0 };
            sh.apply(patch);
            self.store_entity(slot, Entity::Shield(sh));
        } else if self.projectile_class_ids.contains_key(pe.server_class as u32) {
            match self.make_projectile(pe, cn) {
                Some(pr) => {
                    self.store_entity(slot, Entity::Projectile(pr));
                },
                None => {
                    self.note_reference_miss();
                    self.store_entity(slot, Entity::Unknown(Unknown {  }));
                },
            }
        } else if self.weapon_class_ids.contains_key(pe.server_class as u32) {
            let patch = Weapon::parse(&pe.props, &self.ids);
            let mut w = Weapon {
                class_name: cn.clone(),
                last_high_charge: 0,
                charge: 0,
                charge_released: false,
                handle: 0,
                owner: 0,
                schema_id: 0,
                model_id: 0,
                reset_parity: 0,
            };
            w.apply(patch);
            self.store_entity(slot, Entity::Weapon(w));
        } else {
            self.store_entity(slot, Entity::Unknown(Unknown {  }));
        }
    }

    /// Patches the entity already in a slot, with the kind-specific side
    /// effects: medigun charge events, sticky and contact-damage explosion
    /// records, and the summary-side player fields. The slot's entity is
    /// replaced by its kind's patch function applied to the decoded patch.
    fn preserve_entity(&mut self, slot: usize, pe: &PacketEntityModel)
        requires
            old(self).wf(),
            slot < old(self).entities@.len(),
        ensures
            final(self).wf(),
            final(self).spec_tick() == old(self).spec_tick(),
            final(self).spec_hurts() == old(self).spec_hurts(),
            (match old(self).spec_entities()[slot as int] {
                Some(Entity::Weapon(w)) => final(self).spec_entities()[slot as int] == Some(
                    Entity::Weapon(
                        crate::entity::weapon::spec_weapon_apply(
                            w,
                            crate::entity::weapon::spec_weapon_parse(
                                pe.props@,
                                old(self).spec_ids(),
                            ),
                        ),
                    ),
                ),
                Some(Entity::Shield(sh)) => final(self).spec_entities()[slot as int] == Some(
                    Entity::Shield(
                        crate::entity::shield::spec_shield_apply(
                            sh,
                            crate::entity::shield::spec_shield_parse(
                                pe.props@,
                                old(self).spec_ids(),
                            ),
                        ),
                    ),
                ),
                Some(Entity::Projectile(pr)) => (match final(self).spec_entities()[slot as int] {
                    Some(Entity::Projectile(pr2)) => pr2
                        == crate::entity::projectile::spec_projectile_apply(
                        pr,
                        crate::entity::projectile::spec_projectile_parse(
                            pe.props@,
                            old(self).spec_ids(),
                            pr.class_name@ == "CTFGrenadePipebombProjectile"@,
                        ),
                    ),
                    _ => false,
                }),
                Some(Entity::Player(p)) => (match final(self).spec_entities()[slot as int] {
                    Some(Entity::Player(p2)) => p2 == crate::entity::player::spec_player_apply(
                        p,
                        crate::entity::player::spec_player_parse(pe.props@, old(self).spec_ids()),
                    ),
                    _ => false,
                }),
                Some(_) => final(self).spec_entities()[slot as int] is Some,
                None => final(self).spec_entities() == old(self).spec_entities(),
            }),
            final(self).spec_tick_events() == (match old(self).spec_entities()[slot as int] {
                Some(Entity::Weapon(w)) => (if crate::entity::weapon::spec_weapon_parse(
                    pe.props@,
                    old(self).spec_ids(),
                ).charge_released == Some(true) && !w.charge_released {
                    old(self).spec_tick_events().push(Event::MedigunCharged(w.handle))
                } else {
                    old(self).spec_tick_events()
                }),
                _ => old(self).spec_tick_events(),
            }),
            (match old(self).spec_entities()[slot as int] {
                Some(Entity::Projectile(pr)) => (if spec_preserve_explodes(
                    pr,
                    crate::entity::projectile::spec_projectile_parse(
                        pe.props@,
                        old(self).spec_ids(),
                        pr.class_name@ == "CTFGrenadePipebombProjectile"@,
                    ),
                ) {
                    spec_explosion_pushed(
                        old(self).spec_explosions(),
                        final(self).spec_explosions(),
                        pr,
                        old(self).spec_tick(),
                    )
                } else {
                    final(self).spec_explosions() == old(self).spec_explosions()
                }),
                _ => final(self).spec_explosions() == old(self).spec_explosions(),
            }),
    {
        let tag: EntityClass = match &self.entities[slot] {
            Some(e) => e.class(),
            None => {
                self.note_reference_miss();
                return ;
            },
        };
        match tag {
            EntityClass::Player => {
                let patch = Player::parse(&pe.props, &self.ids);
                let uid: u32 = match &self.entities[slot] {
                    Some(Entity::Player(p)) => p.user_id,
                    _ => 0,
                };
                match self.summary_idx_of_uid(uid) {
                    Some(idx) => {
                        let ghost pre = self.summaries@;
                        let t = self.tick;
                        self.summaries[idx].apply_player_entity_patch(&patch, t, false);
                        proof {
                            lemma_summaries_update_ok(
                                pre,
                                self.summaries@,
                                self.uid_index@,
                                idx as int,
                            );
                        }
                    },
                    None => {
                        self.note_reference_miss();
                    },
                }
                self.note_weapon_owners(&patch, uid);
                let e = self.take_entity(slot);
                match e {
                    Some(Entity::Player(mut p)) => {
                        p.apply(patch);
                        self.store_entity(slot, Entity::Player(p));
                    },
                    _ => {
                        proof {
                            assert(false);
                        }
                    },
                }
            },
            EntityClass::Weapon => {
                let patch = Weapon::parse(&pe.props, &self.ids);
                let mut was_released = false;
                let mut wh: u32 = 0;
                match &self.entities[slot] {
                    Some(Entity::Weapon(w)) => {
                        was_released = w.charge_released;
                        wh = w.handle;
                    },
                    _ => {},
                }
                if patch.charge_released == Some(true) && !was_released {
                    self.tick_events.push(Event::MedigunCharged(wh));
                }
                let e = self.take_entity(slot);
                match e {
                    Some(Entity::Weapon(mut w)) => {
                        w.apply(patch);
                        self.store_entity(slot, Entity::Weapon(w));
                    },
                    _ => {
                        proof {
                            assert(false);
                        }
                    },
                }
            },
            EntityClass::Projectile => {
                let mut is_pipebomb = false;
                let mut kind = ProjectileType::Unknown;
                let mut effects_old: u32 = 0;
                let mut team_old = Team::Other;
                let mut owner_old: u32 = 0;
                match &self.entities[slot] {
                    Some(Entity::Projectile(pr)) => {
                        is_pipebomb = str_is(&pr.class_name, "CTFGrenadePipebombProjectile");
                        kind = pr.kind;
                        effects_old = pr.effects;
                        team_old = pr.team;
                        owner_old = pr.owner;
                    },
                    _ => {},
                }
                let patch = Projectile::parse(&pe.props, &self.ids, is_pipebomb);
                let owner_changed = match patch.owner {
                    Some(o) => o != owner_old,
                    None => false,
                };
                let team_changed = match patch.team {
                    Some(t) => t != team_old,
                    None => false,
                };
                if team_changed && !owner_changed {
                    self.note_inconsistency();
                }
                let disappeared = match patch.effects {
                    Some(ne) => crate::game::has_bits_u32(ne, crate::game::EFFECT_NO_DRAW)
                        && !crate::game::has_bits_u32(effects_old, crate::game::EFFECT_NO_DRAW),
                    None => false,
                };
                if crate::entity::projectile::can_hurt_without_exploding(kind) || (disappeared
                    && kind == ProjectileType::ScottishResistance) {
                    let dup: Option<Projectile> = match &self.entities[slot] {
                        Some(Entity::Projectile(pr)) => Some(pr.duplicate()),
                        _ => None,
                    };
                    if let Some(d) = dup {
                        let o = d.origin;
                        let ghost pree = self.explosions@;
                        self.explosions.push(
                            Explosion { projectile: d, origin: o, tick: Ghost(self.tick) },
                        );
                        proof {
                            assert forall|k: int|
                                0 <= k < self.explosions@.len() implies spec_explosion_ok(
                                #[trigger] self.explosions@[k],
                                self.tick,
                            ) by {
                                if k < pree.len() {
                                    assert(self.explosions@[k] == pree[k]);
                                }
                            }
                        }
                    }
                }
                proof {
                    crate::entity::projectile::lemma_projectile_patch_valid(
                        pe.props@,
                        self.ids,
                        is_pipebomb,
                    );
                }
                let e = self.take_entity(slot);
                match e {
                    Some(Entity::Projectile(mut pr)) => {
                        let ghost pr0 = pr;
                        pr.apply(patch);
                        proof {
                            assert(spec_valid_handle(pr.owner) || pr.original_launcher_handle
                                != 0) by {
                                match patch.owner {
                                    Some(o) => {
                                        assert(spec_valid_handle(o));
                                    },
                                    None => {
                                        assert(pr.owner == pr0.owner);
                                        match patch.original_launcher {
                                            Some(l) => {
                                                assert(spec_valid_handle(l));
                                            },
                                            None => {
                                                assert(pr.original_launcher_handle
                                                    == pr0.original_launcher_handle);
                                            },
                                        }
                                    },
                                }
                            }
                        }
                        self.store_entity(slot, Entity::Projectile(pr));
                    },
                    _ => {
                        proof {
                            assert(false);
                        }
                    },
                }
            },
            EntityClass::Sentry => {
                let patch = BuildingPatch::parse(&pe.props, &self.ids);
                let oe: Option<u32> = match patch.owner {
                    Some(o) => match self.entity_handles.get(o) {
                        Some(e) => Some(*e),
                        None => None,
                    },
                    None => None,
                };
                proof {
                    crate::entity::buildings::lemma_building_patch_bounded(pe.props@, self.ids);
                }
                let e = self.take_entity(slot);
                match e {
                    Some(Entity::Sentry(mut b)) => {
                        b.apply(patch, oe);
                        self.store_entity(slot, Entity::Sentry(b));
                    },
                    _ => {
                        proof {
                            assert(false);
                        }
                    },
                }
            },
            EntityClass::Dispenser => {
                let patch = BuildingPatch::parse(&pe.props, &self.ids);
                let oe: Option<u32> = match patch.owner {
                    Some(o) => match self.entity_handles.get(o) {
                        Some(e) => Some(*e),
                        None => None,
                    },
                    None => None,
                };
                proof {
                    crate::entity::buildings::lemma_building_patch_bounded(pe.props@, self.ids);
                }
                let e = self.take_entity(slot);
                match e {
                    Some(Entity::Dispenser(mut b)) => {
                        b.apply(patch, oe);
                        self.store_entity(slot, Entity::Dispenser(b));
                    },
                    _ => {
                        proof {
                            assert(false);
                        }
                    },
                }
            },
            EntityClass::Teleporter => {
                let patch = BuildingPatch::parse(&pe.props, &self.ids);
                let oe: Option<u32> = match patch.owner {
                    Some(o) => match self.entity_handles.get(o) {
                        Some(e) => Some(*e),
                        None => None,
                    },
                    None => None,
                };
                proof {
                    crate::entity::buildings::lemma_building_patch_bounded(pe.props@, self.ids);
                }
                let e = self.take_entity(slot);
                match e {
                    Some(Entity::Teleporter(mut b)) => {
                        b.apply(patch, oe);
                        self.store_entity(slot, Entity::Teleporter(b));
                    },
                    _ => {
                        proof {
                            assert(false);
                        }
                    },
                }
            },
            EntityClass::Shield => {
                let patch = Shield::parse(&pe.props, &self.ids);
                let e = self.take_entity(slot);
                match e {
                    Some(Entity::Shield(mut sh)) => {
                        sh.apply(patch);
                        self.store_entity(slot, Entity::Shield(sh));
                    },
                    _ => {
                        proof {
                            assert(false);
                        }
                    },
                }
            },
            _ => {},
        }
    }

    /// Removes the entity of a slot; exactly [`spec_remove_effect`]: a
    /// projectile leaves an explosion record for the current tick, a known
    /// player's summary is stamped with its end tick, and removal of an
    /// already empty slot only counts a reference miss.
    fn remove_entity(&mut self, slot: usize)
        requires
            old(self).wf(),
            slot < old(self).entities@.len(),
        ensures
            final(self).wf(),
            final(self).spec_tick() == old(self).spec_tick(),
            final(self).spec_handles() == old(self).spec_handles(),
            final(self).spec_hurts() == old(self).spec_hurts(),
            spec_remove_effect(
                old(self).spec_entities(),
                old(self).spec_summaries(),
                old(self).spec_uid_index(),
                old(self).spec_explosions(),
                old(self).spec_tick(),
                slot as int,
                final(self).spec_entities(),
                final(self).spec_summaries(),
                final(self).spec_explosions(),
            ),
    {
        let e = self.take_entity(slot);
        match e {
            Some(Entity::Projectile(pr)) => {
                let o = pr.origin;
                let ghost pree = self.explosions@;
                self.explosions.push(Explosion { projectile: pr, origin: o, tick: Ghost(self.tick) });
                proof {
                    assert forall|k: int|
                        0 <= k < self.explosions@.len() implies spec_explosion_ok(
                        #[trigger] self.explosions@[k],
                        self.tick,
                    ) by {
                        if k < pree.len() {
                            assert(self.explosions@[k] == pree[k]);
                        }
                    }
                }
            },
            Some(Entity::Player(p)) => {
                match self.summary_idx_of_uid(p.user_id) {
                    Some(idx) => {
                        if self.summaries[idx].tick_end.is_some() {
                            self.note_inconsistency();
                        }
                        let ghost pre = self.summaries@;
                        let t = self.tick;
                        self.summaries[idx].tick_end = Some(t);
                        proof {
                            assert(self.summaries@ =~= pre.update(
                                idx as int,
                                PlayerSummary { tick_end: Some(t), ..pre[idx as int] },
                            ));
                            lemma_summaries_update_ok(pre, self.summaries@, self.uid_index@, idx as int);
                        }
                    },
                    None => {
                        self.note_reference_miss();
                    },
                }
            },
            Some(_) => {},
            None => {
                self.note_reference_miss();
            },
        }
    }

    /// Applies a player-resource update: scoreboard totals and the healing
    /// accumulator, addressed per player by the property's name.
    /// Applies a player-resource update: each property lands on the
    /// scoreboard column of the player it addresses; a healing reading is
    /// booked as the positive difference against the stored value, after a
    /// first reading that only seeds it.
    pub fn handle_player_resource(&mut self, pe: &PacketEntityModel)
        requires
            old(self).wf(),
        ensures
            final(self).wf(),
            final(self).spec_tick() == old(self).spec_tick(),
    {
        let mut i: usize = 0;
        while i < pe.props.len()
            invariant
                self.wf(),
                self.tick == old(self).tick,
            decreases pe.props.len() - i,
        {
            let p = &pe.props[i];
            i = i + 1;
            let (tname, pname) = match &p.names {
                Some(ns) => (&ns.0, &ns.1),
                None => {
                    continue ;
                },
            };
            let pid = match crate::props::parse_u32(pname) {
                Some(v) => v,
                None => {
                    continue ;
                },
            };
            let idx = match self.summary_idx_of_entity(pid) {
                Some(x) => x,
                None => {
                    continue ;
                },
            };
            let val: i64 = match &p.value {
                PropValue::Int(v) => *v,
                _ => {
                    continue ;
                },
            };
            if str_is(tname, "m_iHealing") {
                if val < 0 {
                    self.note_decode_error();
                    return ;
                }
                let h = crate::props::clamp_u32_from_i64(val);
                let sb = self.summaries[idx].scoreboard_healing;
                if sb == 0 {
                    let ghost pre = self.summaries@;
                    self.summaries[idx].scoreboard_healing = h;
                    proof {
                        lemma_summaries_update_ok(pre, self.summaries@, self.uid_index@, idx as int);
                    }
                    return ;
                }
                let dh = if h >= sb {
                    h - sb
                } else {
                    0
                };
                if dh > 300 {
                    self.irregularities.anomalies = self.irregularities.anomalies.saturating_add(1);
                }
                let rs = self.round_state;
                let ghost pre = self.summaries@;
                self.summaries[idx].handle_healing(rs, dh);
                proof {
                    lemma_summaries_update_ok(pre, self.summaries@, self.uid_index@, idx as int);
                }
                let ghost pre2 = self.summaries@;
                self.summaries[idx].scoreboard_healing = h;
                self.round_dirty = true;
                proof {
                    lemma_summaries_update_ok(pre2, self.summaries@, self.uid_index@, idx as int);
                }
            } else if str_is(tname, "m_iTotalScore") {
                let ghost pre = self.summaries@;
                self.summaries[idx].points = Some(crate::props::clamp_u32_from_i64(val));
                proof {
                    lemma_summaries_update_ok(pre, self.summaries@, self.uid_index@, idx as int);
                }
            } else if str_is(tname, "m_iDamage") {
                let ghost pre = self.summaries@;
                self.summaries[idx].scoreboard_damage = Some(crate::props::clamp_u32_from_i64(val));
                proof {
                    lemma_summaries_update_ok(pre, self.summaries@, self.uid_index@, idx as int);
                }
            } else if str_is(tname, "m_iDeaths") {
                let ghost pre = self.summaries@;
                self.summaries[idx].scoreboard_deaths = Some(crate::props::clamp_u32_from_i64(val));
                proof {
                    lemma_summaries_update_ok(pre, self.summaries@, self.uid_index@, idx as int);
                }
            } else if str_is(tname, "m_iScore") {
                let ghost pre = self.summaries@;
                self.summaries[idx].scoreboard_kills = Some(crate::props::clamp_u32_from_i64(val));
                proof {
                    lemma_summaries_update_ok(pre, self.summaries@, self.uid_index@, idx as int);
                }
            } else if str_is(tname, "m_iBonusPoints") {
                let ghost pre = self.summaries@;
                self.summaries[idx].bonus_points = Some(crate::props::clamp_u32_from_i64(val));
                proof {
                    lemma_summaries_update_ok(pre, self.summaries@, self.uid_index@, idx as int);
                }
            }
        }
    }
}

impl MatchAnalyzer {
    /// Applies a player-death event: a self-kill counts a suicide outside
    /// the post-round phase; otherwise the victim's death lands (with the
    /// medic-charge bookkeeping), the attacker's kill is resolved to a
    /// weapon name and credited, and an assister is credited. The effect on
    /// the summaries is exactly [`spec_death_suicide_effect`] for a
    /// self-kill and [`spec_death_effect`] otherwise; nothing else of the
    /// analyzer's state moves.
    #[verifier::rlimit(100)]
    #[verifier::spinoff_prover]
    pub fn handle_player_death(&mut self, death: &PlayerDeath)
        requires
            old(self).wf(),
        ensures
            final(self).wf(),
            final(self).spec_tick() == old(self).spec_tick(),
            final(self).spec_entities() == old(self).spec_entities(),
            final(self).spec_handles() == old(self).spec_handles(),
            final(self).spec_explosions() == old(self).spec_explosions(),
            final(self).spec_hurts() == old(self).spec_hurts(),
            final(self).spec_tick_events() == old(self).spec_tick_events(),
            final(self).spec_server_tick() == old(self).spec_server_tick(),
            final(self).spec_summaries().len() == old(self).spec_summaries().len(),
            old(self).spec_waiting() ==> final(self).spec_summaries() == old(self).spec_summaries(),
            (!old(self).spec_waiting() && death.user_id == death.attacker)
                ==> spec_death_suicide_effect(
                old(self).spec_summaries(),
                old(self).spec_uid_index(),
                old(self).spec_round_state(),
                death.attacker as u32,
                final(self).spec_summaries(),
            ),
            (!old(self).spec_waiting() && death.user_id != death.attacker) ==> spec_death_effect(
                old(self).spec_entities(),
                old(self).spec_handles(),
                old(self).spec_schema_items(),
                old(self).spec_airblasts(),
                old(self).spec_hurts(),
                old(self).spec_summaries(),
                old(self).spec_uid_index(),
                old(self).spec_round_state(),
                old(self).spec_tick(),
                *death,
                final(self).spec_summaries(),
            ),
    {
        if self.waiting_for_players {
            return ;
        }
        if death.attacker == death.assister {
            self.note_inconsistency();
        }
        let flags = death.death_flags;
        let damage_type = if death.custom_kill <= 83 {
            crate::game::damage_type_from_u16(death.custom_kill)
        } else {
            self.note_decode_error();
            DamageType::Normal
        };
        if death.user_id == death.attacker {
            self.death_suicide(death.attacker as u32);
            return ;
        }
        let victim_uid = death.user_id as u32;
        let vidx = match self.summary_idx_of_uid(victim_uid) {
            Some(i) => i,
            None => {
                self.note_reference_miss();
                return ;
            },
        };
        let victim_e: Player = match self.get_player_entity(self.summaries[vidx].entity_id) {
            Some(p) => p,
            None => {
                self.note_reference_miss();
                return ;
            },
        };
        let rs = self.round_state;
        let airshot = self.death_victim(vidx, victim_e, flags);
        let ghost mid = self.spec_summaries();
        self.death_credit(death, rs, flags, damage_type, airshot, victim_e);
        proof {
            let s0 = old(self).spec_summaries();
            let u = old(self).spec_uid_index();
            let vu = death.user_id as u32;
            let vi = u[vu] as int;
            assert(vi == vidx as int);
            assert(spec_player_at(old(self).spec_entities(), s0[vi].entity_id) == Some(victim_e));
            let charge = spec_death_charge(
                old(self).spec_entities(),
                old(self).spec_handles(),
                s0[vi],
                victim_e,
            );
            assert(mid.len() == s0.len());
            assert(spec_summary_death_updated(s0[vi], mid[vi], rs, flags, charge));
            assert(forall|j: int| 0 <= j < s0.len() && j != vi ==> mid[j] == s0[j]);
            assert(damage_type == spec_dt_of(death.custom_kill));
            assert(airshot == spec_airshot(old(self).spec_tick(), s0[vi]));
            assert(spec_death_credit_effect(
                old(self).spec_entities(),
                old(self).spec_handles(),
                old(self).spec_schema_items(),
                old(self).spec_airblasts(),
                old(self).spec_hurts(),
                mid,
                u,
                rs,
                *death,
                flags,
                damage_type,
                airshot,
                victim_e,
                final(self).spec_summaries(),
            ));
        }
    }

    /// Books a self-kill: the player's suicide counter moves up by one
    /// outside the post-round phase; exactly [`spec_death_suicide_effect`].
    fn death_suicide(&mut self, uid: u32)
        requires
            old(self).wf(),
        ensures
            final(self).wf(),
            final(self).spec_tick() == old(self).spec_tick(),
            final(self).spec_entities() == old(self).spec_entities(),
            final(self).spec_handles() == old(self).spec_handles(),
            final(self).spec_explosions() == old(self).spec_explosions(),
            final(self).spec_hurts() == old(self).spec_hurts(),
            final(self).spec_uid_index() == old(self).spec_uid_index(),
            final(self).spec_tick_events() == old(self).spec_tick_events(),
            final(self).spec_server_tick() == old(self).spec_server_tick(),
            spec_death_suicide_effect(
                old(self).spec_summaries(),
                old(self).spec_uid_index(),
                old(self).spec_round_state(),
                uid,
                final(self).spec_summaries(),
            ),
    {
        match self.summary_idx_of_uid(uid) {
            Some(idx) => {
                if self.round_state != RoundState::TeamWin {
                    let ghost pre = self.summaries@;
                    self.summaries[idx].suicides = self.summaries[idx].suicides.saturating_add(1);
                    self.round_dirty = true;
                    proof {
                        lemma_summaries_update_ok(pre, self.summaries@, self.uid_index@, idx as int);
                    }
                }
            },
            None => {
                self.note_reference_miss();
            },
        }
    }

    /// Books the victim's side of a death: the medic charge is resolved
    /// from the second weapon slot, the death lands, and the airshot
    /// predicate is taken.
    fn death_victim(&mut self, vidx: usize, victim_e: Player, flags: u16) -> (airshot: bool)
        requires
            old(self).wf(),
            vidx < old(self).spec_summaries().len(),
        ensures
            final(self).wf(),
            final(self).spec_tick() == old(self).spec_tick(),
            final(self).spec_entities() == old(self).spec_entities(),
            final(self).spec_handles() == old(self).spec_handles(),
            final(self).spec_explosions() == old(self).spec_explosions(),
            final(self).spec_hurts() == old(self).spec_hurts(),
            final(self).spec_uid_index() == old(self).spec_uid_index(),
            final(self).spec_airblasts() == old(self).spec_airblasts(),
            final(self).spec_schema_items() == old(self).spec_schema_items(),
            final(self).spec_tick_events() == old(self).spec_tick_events(),
            final(self).spec_server_tick() == old(self).spec_server_tick(),
            final(self).spec_summaries().len() == old(self).spec_summaries().len(),
            spec_summary_death_updated(
                old(self).spec_summaries()[vidx as int],
                final(self).spec_summaries()[vidx as int],
                old(self).spec_round_state(),
                flags,
                spec_death_charge(
                    old(self).spec_entities(),
                    old(self).spec_handles(),
                    old(self).spec_summaries()[vidx as int],
                    victim_e,
                ),
            ),
            forall|j: int|
                0 <= j < old(self).spec_summaries().len() && j != vidx
                    ==> final(self).spec_summaries()[j] == old(self).spec_summaries()[j],
            airshot == spec_airshot(
                old(self).spec_tick(),
                old(self).spec_summaries()[vidx as int],
            ),
    {
        let rs = self.round_state;
        let mut charge = self.summaries[vidx].charge;
        if self.summaries[vidx].class == Class::Medic {
            match self.get_weapon(victim_e.wep_1) {
                Some(w) => {
                    charge = if w.last_high_charge > 1000 {
                        1000
                    } else {
                        w.last_high_charge
                    };
                },
                None => {
                    self.note_inconsistency();
                },
            }
        }
        proof {
            assert(charge == spec_death_charge(
                self.spec_entities(),
                self.spec_handles(),
                self.summaries@[vidx as int],
                victim_e,
            ));
        }
        let airshot = {
            let v = &self.summaries[vidx];
            !v.on_ground && !v.in_water && v.started_flying < u32::MAX - 16
                && v.started_flying + 16 < self.tick
        };
        let ghost pre = self.summaries@;
        self.summaries[vidx].charge = charge;
        self.summaries[vidx].handle_death(rs, flags);
        self.round_dirty = true;
        proof {
            assert(self.summaries@ =~= pre.update(vidx as int, self.summaries@[vidx as int]));
            lemma_summaries_update_ok(pre, self.summaries@, self.uid_index@, vidx as int);
        }
        airshot
    }

    /// Credits the attacker's kill and the assister's assist for a
    /// non-suicide death, after the victim's own bookkeeping; exactly
    /// [`spec_death_credit_effect`] over the state it is called in.
    #[verifier::rlimit(100)]
    #[verifier::spinoff_prover]
    fn death_credit(
        &mut self,
        death: &PlayerDeath,
        rs: RoundState,
        flags: u16,
        damage_type: DamageType,
        airshot: bool,
        victim_e: Player,
    )
        requires
            old(self).wf(),
        ensures
            final(self).wf(),
            final(self).spec_tick() == old(self).spec_tick(),
            final(self).spec_entities() == old(self).spec_entities(),
            final(self).spec_handles() == old(self).spec_handles(),
            final(self).spec_explosions() == old(self).spec_explosions(),
            final(self).spec_hurts() == old(self).spec_hurts(),
            final(self).spec_uid_index() == old(self).spec_uid_index(),
            final(self).spec_tick_events() == old(self).spec_tick_events(),
            final(self).spec_server_tick() == old(self).spec_server_tick(),
            spec_death_credit_effect(
                old(self).spec_entities(),
                old(self).spec_handles(),
                old(self).spec_schema_items(),
                old(self).spec_airblasts(),
                old(self).spec_hurts(),
                old(self).spec_summaries(),
                old(self).spec_uid_index(),
                rs,
                *death,
                flags,
                damage_type,
                airshot,
                victim_e,
                final(self).spec_summaries(),
            ),
    {
        if death.attacker == 0 || death.weapon_def_index == 0xffff {
            return ;
        }
        let feigned = crate::game::has_bits_u16(flags, crate::game::DEATH_FEIGNED);
        if feigned {
            return ;
        }
        let attacker_uid = death.attacker as u32;
        let aidx = match self.summary_idx_of_uid(attacker_uid) {
            Some(i) => i,
            None => {
                self.note_reference_miss();
                return ;
            },
        };
        if rs == RoundState::TeamWin {
            let ghost pre2 = self.summaries@;
            self.summaries[aidx].stats.postround_kills =
                self.summaries[aidx].stats.postround_kills.saturating_add(1);
            proof {
                lemma_summaries_update_ok(pre2, self.summaries@, self.uid_index@, aidx as int);
            }
        } else {
            let attacker_eid = self.summaries[aidx].entity_id;
            let attacker_e: Player = match self.get_player_entity(attacker_eid) {
                Some(p) => p,
                None => {
                    self.note_reference_miss();
                    return ;
                },
            };
            let name = self.weapon_name_from_damage(
                damage_type,
                death.damage_bits,
                &victim_e,
                &attacker_e,
                None,
            );
            let ghost pre2 = self.summaries@;
            let counted = self.summaries[aidx].handle_kill(rs, &name, flags, damage_type, airshot);
            proof {
                lemma_summaries_update_ok(pre2, self.summaries@, self.uid_index@, aidx as int);
            }
            if !counted {
                self.irregularities.anomalies = self.irregularities.anomalies.saturating_add(1);
            }
        }
        if death.assister == 0xffff {
            return ;
        }
        match self.summary_idx_of_uid(death.assister as u32) {
            Some(sidx) => {
                let ghost pre3 = self.summaries@;
                self.summaries[sidx].handle_assist(rs, flags);
                proof {
                    lemma_summaries_update_ok(pre3, self.summaries@, self.uid_index@, sidx as int);
                }
            },
            None => {
                self.note_reference_miss();
            },
        }
    }

    /// Applies a player-hurt event: self damage and the fall-damage
    /// signature are dropped without side effects; the hurt is traced to a
    /// sentry shot (consuming it) or to the closest qualifying explosion of
    /// this tick, re-owned when the attacker airblasted; the damage is
    /// booked on both sides under the resolved weapon name; a lethal hurt
    /// is kept for the death resolution. The effect is exactly
    /// [`spec_hurt_effect`].
    #[verifier::rlimit(100)]
    #[verifier::spinoff_prover]
    pub fn handle_player_hurt(&mut self, hurt: &PlayerHurtEvent)
        requires
            old(self).wf(),
        ensures
            final(self).wf(),
            final(self).spec_tick() == old(self).spec_tick(),
            final(self).spec_entities() == old(self).spec_entities(),
            final(self).spec_handles() == old(self).spec_handles(),
            final(self).spec_explosions() == old(self).spec_explosions(),
            final(self).spec_tick_events() == old(self).spec_tick_events(),
            final(self).spec_server_tick() == old(self).spec_server_tick(),
            spec_hurt_effect(
                old(self).spec_entities(),
                old(self).spec_handles(),
                old(self).spec_schema_items(),
                old(self).spec_airblasts(),
                old(self).spec_summaries(),
                old(self).spec_uid_index(),
                old(self).spec_sentry_shots(),
                old(self).spec_explosions(),
                *hurt,
                final(self).spec_summaries(),
                final(self).spec_sentry_shots(),
                old(self).spec_hurts(),
                final(self).spec_hurts(),
            ),
    {
        let damage_type = if hurt.custom <= 83 {
            crate::game::damage_type_from_u16(hurt.custom)
        } else {
            self.note_decode_error();
            DamageType::Normal
        };
        let fall_damage = hurt.attacker == 0 && !hurt.crit && !hurt.mini_crit && hurt.weapon_id
            == 0 && hurt.custom == 0 && hurt.bonus_effect == 0;
        if hurt.attacker == hurt.user_id || fall_damage {
            return ;
        }
        let attacker_uid = hurt.attacker as u32;
        let aidx = match self.summary_idx_of_uid(attacker_uid) {
            Some(i) => i,
            None => {
                self.note_reference_miss();
                return ;
            },
        };
        let victim_uid = hurt.user_id as u32;
        let vidx = match self.summary_idx_of_uid(victim_uid) {
            Some(i) => i,
            None => {
                self.note_reference_miss();
                return ;
            },
        };
        let attacker_entity: Option<Player> = self.get_player_entity(
            self.summaries[aidx].entity_id,
        );
        let attacker_team = match &attacker_entity {
            Some(p) => p.team,
            None => Team::Other,
        };
        let attacker_handle = match &attacker_entity {
            Some(p) => p.handle,
            None => {
                self.note_inconsistency();
                INVALID_HANDLE
            },
        };
        let origin = self.summaries[vidx].origin;
        let airblasted = contains_u32(&self.airblasts, attacker_handle);
        let source = self.hurt_source(
            aidx,
            origin,
            attacker_handle,
            attacker_team,
            airblasted,
            damage_type,
        );
        if hurt.attacker == 0 {
            return ;
        }
        let attacker_e: Player = match attacker_entity {
            Some(p) => p,
            None => {
                self.note_reference_miss();
                return ;
            },
        };
        let victim_e: Player = match self.get_player_entity(self.summaries[vidx].entity_id) {
            Some(p) => p,
            None => {
                self.note_reference_miss();
                return ;
            },
        };
        if vidx == aidx {
            self.note_inconsistency();
            return ;
        }
        let hurt_event = Hurt {
            victim: victim_uid,
            attacker: attacker_uid,
            wep: attacker_e.last_active_weapon_handle,
            origin,
            source,
        };
        let weapon_name = self.weapon_name_from_damage(
            damage_type,
            0,
            &victim_e,
            &attacker_e,
            Some(&hurt_event),
        );
        let ghost rec = hurt_event;
        self.hurt_book(vidx, aidx, &weapon_name, hurt.damage_amount, damage_type);
        if hurt.health == 0 {
            let ghost preh = self.hurts@;
            self.hurts.push(hurt_event);
            proof {
                assert(self.hurts@ == preh.push(rec));
                assert forall|k: int| 0 <= k < self.hurts@.len() implies spec_hurt_ok(
                    #[trigger] self.hurts@[k],
                ) by {
                    if k < preh.len() {
                        assert(self.hurts@[k] == preh[k]);
                    }
                }
            }
        }
        proof {
            let s0 = old(self).spec_summaries();
            let u = old(self).spec_uid_index();
            let exps = old(self).spec_explosions();
            let shots0 = old(self).spec_sentry_shots();
            let au = hurt.attacker as u32;
            let vu = hurt.user_id as u32;
            let ai = u[au] as int;
            let vi = u[vu] as int;
            assert(ai == aidx as int);
            assert(vi == vidx as int);
            let dtx = spec_dt_of(hurt.custom);
            assert(damage_type == dtx);
            let a_ent = spec_player_at(old(self).spec_entities(), s0[ai].entity_id);
            assert(a_ent == Some(attacker_e));
            assert(spec_player_at(old(self).spec_entities(), s0[vi].entity_id) == Some(victim_e));
            let sfind = if s0[ai].class == Class::Engineer && dtx == DamageType::Normal {
                spec_find_sentry_shot(shots0, s0[ai].entity_id)
            } else {
                None
            };
            let echoice = if sfind is Some {
                None
            } else {
                spec_hurt_exp_choice(exps, origin, attacker_handle, airblasted, dtx)
            };
            assert(rec.victim == vu);
            assert(rec.attacker == au);
            assert(rec.wep == attacker_e.last_active_weapon_handle);
            assert(rec.origin == origin);
            assert(spec_source_matches(
                rec.source,
                shots0,
                sfind,
                exps,
                echoice,
                airblasted,
                attacker_handle,
                attacker_team,
            ));
            let wname = spec_weapon_name_from_damage(
                old(self).spec_entities(),
                old(self).spec_handles(),
                old(self).spec_schema_items(),
                old(self).spec_airblasts(),
                old(self).spec_hurts(),
                dtx,
                0,
                victim_e,
                attacker_e,
                Some(rec),
            );
            assert(weapon_name@ == wname);
            assert(spec_summary_taken_updated(
                s0[vi],
                final(self).spec_summaries()[vi],
                wname,
                hurt.damage_amount,
                dtx,
            ));
            assert(spec_summary_dealt_updated(
                s0[ai],
                final(self).spec_summaries()[ai],
                wname,
                hurt.damage_amount,
                dtx,
            ));
            let shots_rel_holds = match sfind {
                Some(k) => final(self).spec_sentry_shots() == shots0.remove(k),
                None => final(self).spec_sentry_shots() == shots0,
            };
            assert(shots_rel_holds);
            assert(if hurt.health == 0 {
                final(self).spec_hurts() == old(self).spec_hurts().push(rec)
            } else {
                final(self).spec_hurts() == old(self).spec_hurts()
            });
            assert(exists|recx: Hurt|
                {
                    &&& #[trigger] recx.victim == vu
                    &&& recx.attacker == au
                    &&& recx.wep == attacker_e.last_active_weapon_handle
                    &&& recx.origin == origin
                    &&& spec_source_matches(
                        recx.source,
                        shots0,
                        sfind,
                        exps,
                        echoice,
                        airblasted,
                        attacker_handle,
                        attacker_team,
                    )
                    &&& {
                        let wn = spec_weapon_name_from_damage(
                            old(self).spec_entities(),
                            old(self).spec_handles(),
                            old(self).spec_schema_items(),
                            old(self).spec_airblasts(),
                            old(self).spec_hurts(),
                            dtx,
                            0,
                            victim_e,
                            attacker_e,
                            Some(recx),
                        );
                        &&& shots_rel_holds
                        &&& final(self).spec_summaries().len() == s0.len()
                        &&& spec_summary_taken_updated(
                            s0[vi],
                            final(self).spec_summaries()[vi],
                            wn,
                            hurt.damage_amount,
                            dtx,
                        )
                        &&& spec_summary_dealt_updated(
                            s0[ai],
                            final(self).spec_summaries()[ai],
                            wn,
                            hurt.damage_amount,
                            dtx,
                        )
                        &&& forall|j: int|
                            0 <= j < s0.len() && j != vi && j != ai
                                ==> final(self).spec_summaries()[j] == s0[j]
                        &&& if hurt.health == 0 {
                            final(self).spec_hurts() == old(self).spec_hurts().push(recx)
                        } else {
                            final(self).spec_hurts() == old(self).spec_hurts()
                        }
                    }
                }) by {
                assert(rec.victim == vu);
            }
        }
    }

    /// Books a hurt's damage on both sides: taken by the victim, dealt by
    /// the attacker, with the attacker's hit counted unless the damage is a
    /// burn tick, a flare burn or a sentry's.
    #[verifier::rlimit(100)]
    #[verifier::spinoff_prover]
    fn hurt_book(&mut self, vidx: usize, aidx: usize, wname: &String, amount: u16, dt: DamageType)
        requires
            old(self).wf(),
            vidx < old(self).spec_summaries().len(),
            aidx < old(self).spec_summaries().len(),
            vidx != aidx,
        ensures
            final(self).wf(),
            final(self).spec_tick() == old(self).spec_tick(),
            final(self).spec_entities() == old(self).spec_entities(),
            final(self).spec_handles() == old(self).spec_handles(),
            final(self).spec_explosions() == old(self).spec_explosions(),
            final(self).spec_hurts() == old(self).spec_hurts(),
            final(self).spec_sentry_shots() == old(self).spec_sentry_shots(),
            final(self).spec_uid_index() == old(self).spec_uid_index(),
            final(self).spec_airblasts() == old(self).spec_airblasts(),
            final(self).spec_schema_items() == old(self).spec_schema_items(),
            final(self).spec_tick_events() == old(self).spec_tick_events(),
            final(self).spec_server_tick() == old(self).spec_server_tick(),
            final(self).spec_summaries().len() == old(self).spec_summaries().len(),
            spec_summary_taken_updated(
                old(self).spec_summaries()[vidx as int],
                final(self).spec_summaries()[vidx as int],
                wname@,
                amount,
                dt,
            ),
            spec_summary_dealt_updated(
                old(self).spec_summaries()[aidx as int],
                final(self).spec_summaries()[aidx as int],
                wname@,
                amount,
                dt,
            ),
            forall|j: int|
                0 <= j < old(self).spec_summaries().len() && j != vidx && j != aidx
                    ==> final(self).spec_summaries()[j] == old(self).spec_summaries()[j],
    {
        let ghost pre = self.summaries@;
        self.summaries[vidx].handle_damage_taken(wname, amount, dt);
        self.round_dirty = true;
        proof {
            lemma_summaries_update_ok(pre, self.summaries@, self.uid_index@, vidx as int);
        }
        let ghost pre2 = self.summaries@;
        self.summaries[aidx].handle_damage_dealt(wname, amount, dt);
        proof {
            lemma_summaries_update_ok(pre2, self.summaries@, self.uid_index@, aidx as int);
        }
        let ghost dealt_mid = self.summaries@[aidx as int];
        if dt != DamageType::Burning && dt != DamageType::BurningFlare && !crate::weapon::is_sentry(
            wname,
        ) {
            let ghost pre3 = self.summaries@;
            self.summaries[aidx].handle_shot_hit(wname);
            proof {
                lemma_summaries_update_ok(pre3, self.summaries@, self.uid_index@, aidx as int);
                assert(spec_summary_one_dealt(pre[aidx as int], dealt_mid, wname@, amount, dt));
                assert(spec_summary_one_hit(dealt_mid, self.summaries@[aidx as int], wname@));
            }
        } else {
            proof {
                assert(spec_summary_one_dealt(pre[aidx as int], dealt_mid, wname@, amount, dt));
            }
        }
    }

    /// Resolves a hurt's source: an engineer's normal damage consumes the
    /// first matching sentry shot; otherwise the closest qualifying
    /// explosion is chosen and — for an airblasting attacker — re-owned
    /// with its original owner kept; none of the two yields an unknown
    /// source. Exactly [`spec_source_matches`] over the selections, with
    /// the sentry-shot buffer updated accordingly.
    #[verifier::rlimit(100)]
    #[verifier::spinoff_prover]
    fn hurt_source(
        &mut self,
        aidx: usize,
        origin: Vec3i,
        ah: u32,
        at: Team,
        airblasted: bool,
        dt: DamageType,
    ) -> (r: HurtSource)
        requires
            old(self).wf(),
            aidx < old(self).spec_summaries().len(),
            spec_vec3_bounded(origin),
        ensures
            final(self).wf(),
            final(self).spec_tick() == old(self).spec_tick(),
            final(self).spec_entities() == old(self).spec_entities(),
            final(self).spec_handles() == old(self).spec_handles(),
            final(self).spec_explosions() == old(self).spec_explosions(),
            final(self).spec_hurts() == old(self).spec_hurts(),
            final(self).spec_summaries() == old(self).spec_summaries(),
            final(self).spec_uid_index() == old(self).spec_uid_index(),
            final(self).spec_airblasts() == old(self).spec_airblasts(),
            final(self).spec_schema_items() == old(self).spec_schema_items(),
            final(self).spec_tick_events() == old(self).spec_tick_events(),
            final(self).spec_server_tick() == old(self).spec_server_tick(),
            ({
                let shots = old(self).spec_sentry_shots();
                let sfind = if old(self).spec_summaries()[aidx as int].class == Class::Engineer
                    && dt == DamageType::Normal {
                    spec_find_sentry_shot(
                        shots,
                        old(self).spec_summaries()[aidx as int].entity_id,
                    )
                } else {
                    None
                };
                let echoice = if sfind is Some {
                    None
                } else {
                    spec_hurt_exp_choice(
                        old(self).spec_explosions(),
                        origin,
                        ah,
                        airblasted,
                        dt,
                    )
                };
                &&& (match sfind {
                    Some(k) => final(self).spec_sentry_shots() == shots.remove(k),
                    None => final(self).spec_sentry_shots() == shots,
                })
                &&& spec_source_matches(
                    r,
                    shots,
                    sfind,
                    old(self).spec_explosions(),
                    echoice,
                    airblasted,
                    ah,
                    at,
                )
                &&& spec_source_ok(r)
            }),
    {
        if self.summaries[aidx].class == Class::Engineer && dt == DamageType::Normal {
            let aeid = self.summaries[aidx].entity_id;
            let sfound = find_sentry_shot(&self.sentry_shots, aeid);
            if let Some(fi) = sfound {
                let shot = self.sentry_shots[fi];
                self.sentry_shots.remove(fi);
                return HurtSource::SentryShot(shot);
            }
        }
        if dt == DamageType::Burning {
            return HurtSource::Unknown;
        }
        let best = self.closest_hit_explosion(origin, ah, airblasted);
        match best {
            Some(bi) => {
                let mut d = self.explosions[bi].projectile.duplicate();
                let dorigin = self.explosions[bi].origin;
                if airblasted {
                    d.is_reflected = true;
                    d.owner = ah;
                    d.team = at;
                }
                proof {
                    assert(d == spec_reowned(
                        self.explosions@[bi as int].projectile,
                        airblasted,
                        ah,
                        at,
                    ));
                    assert(spec_explosion_ok(self.explosions@[bi as int], self.tick));
                }
                let kindsel = d.kind;
                let exp = Explosion { projectile: d, origin: dorigin, tick: Ghost(self.tick) };
                if crate::entity::projectile::is_arrow(kindsel) || kindsel
                    == ProjectileType::ScorchShotFlare || kindsel == ProjectileType::Cleaver
                    || kindsel == ProjectileType::EnergyRing {
                    HurtSource::NonBlastProjectile(exp)
                } else {
                    HurtSource::Explosion(exp)
                }
            },
            None => HurtSource::Unknown,
        }
    }

    /// The closest explosion record of this tick that the attacker can be
    /// charged with and whose swept volume overlaps the victim's hit box;
    /// ties go to the earlier record. Exactly [`spec_best_hit_upto`] over
    /// the whole buffer.
    fn closest_hit_explosion(&self, origin: Vec3i, ah: u32, airblasted: bool) -> (r: Option<usize>)
        requires
            self.wf(),
            spec_vec3_bounded(origin),
        ensures
            match r {
                Some(b) => b < self.spec_explosions().len() && spec_best_hit_upto(
                    self.spec_explosions(),
                    origin,
                    ah,
                    airblasted,
                    self.spec_explosions().len() as int,
                ) == Some(b as int),
                None => spec_best_hit_upto(
                    self.spec_explosions(),
                    origin,
                    ah,
                    airblasted,
                    self.spec_explosions().len() as int,
                ) is None,
            },
    {
        let vbox = player_box(origin);
        let mut best: Option<usize> = None;
        let mut best_d2: i128 = 0;
        let mut ei: usize = 0;
        while ei < self.explosions.len()
            invariant
                self.wf(),
                spec_vec3_bounded(origin),
                ei <= self.explosions@.len(),
                vbox == spec_player_box(origin),
                match best {
                    Some(b) => b < self.explosions@.len() && spec_best_hit_upto(
                        self.explosions@,
                        origin,
                        ah,
                        airblasted,
                        ei as int,
                    ) == Some(b as int) && best_d2 == spec_d2(
                        self.explosions@[b as int].origin,
                        origin,
                    ),
                    None => spec_best_hit_upto(
                        self.explosions@,
                        origin,
                        ah,
                        airblasted,
                        ei as int,
                    ) is None,
                },
            decreases self.explosions@.len() - ei,
        {
            proof {
                assert(spec_explosion_ok(self.explosions@[ei as int], self.tick));
            }
            let e = &self.explosions[ei];
            if e.projectile.owner == ah || e.projectile.original_owner == ah || airblasted {
                let radius = crate::weapon::projectile_explosion_radius(&e.projectile.class_name);
                if e.projectile.check_hit(radius, &vbox) {
                    let dx = (e.origin.x - origin.x) as i128;
                    let dy = (e.origin.y - origin.y) as i128;
                    let dz = (e.origin.z - origin.z) as i128;
                    let d2 = sq_i128(dx) + sq_i128(dy) + sq_i128(dz);
                    proof {
                        assert(d2 == spec_d2(e.origin, origin));
                    }
                    let better = match best {
                        Some(_) => d2 < best_d2,
                        None => true,
                    };
                    if better {
                        best = Some(ei);
                        best_d2 = d2;
                    }
                }
            }
            ei = ei + 1;
        }
        best
    }

    /// Credits a released medigun charge to the weapon's owner, by the
    /// medigun's schema charge type; exactly [`spec_charged_effect`]. A
    /// charge type outside the known three is counted and credits nothing.
    pub fn handle_medigun_charged(&mut self, handle: u32)
        requires
            old(self).wf(),
        ensures
            final(self).wf(),
            final(self).spec_tick() == old(self).spec_tick(),
            final(self).spec_entities() == old(self).spec_entities(),
            final(self).spec_handles() == old(self).spec_handles(),
            final(self).spec_explosions() == old(self).spec_explosions(),
            final(self).spec_hurts() == old(self).spec_hurts(),
            final(self).spec_tick_events() == old(self).spec_tick_events(),
            final(self).spec_server_tick() == old(self).spec_server_tick(),
            spec_charged_effect(
                old(self).spec_entities(),
                old(self).spec_handles(),
                old(self).spec_schema_items(),
                old(self).spec_weapon_owners(),
                old(self).spec_uid_index(),
                old(self).spec_summaries(),
                handle,
                final(self).spec_summaries(),
            ),
    {
        let uid: u32 = match self.weapon_owners.get(handle) {
            Some(u) => *u,
            None => {
                self.note_reference_miss();
                return ;
            },
        };
        let idx = match self.summary_idx_of_uid(uid) {
            Some(i) => i,
            None => {
                self.note_reference_miss();
                return ;
            },
        };
        let schema_id: u32 = match self.get_weapon(handle) {
            Some(w) => w.schema_id,
            None => {
                self.note_inconsistency();
                return ;
            },
        };
        let known = match self.schema.items.get(schema_id) {
            Some(item) => {
                let ghost pre = self.summaries@;
                let k = self.summaries[idx].handle_charged(item);
                proof {
                    lemma_summaries_update_ok(pre, self.summaries@, self.uid_index@, idx as int);
                }
                self.round_dirty = true;
                k
            },
            None => {
                self.irregularities.schema_gaps = self.irregularities.schema_gaps.saturating_add(
                    1,
                );
                true
            },
        };
        if !known {
            self.note_decode_error();
        }
    }

    /// End-of-tick processing: drains the queued deaths, hurts and charge
    /// events in order, then discards the tick's explosion records.
    fn on_tick(&mut self)
        requires
            old(self).wf(),
        ensures
            final(self).wf(),
            final(self).spec_tick() == old(self).spec_tick(),
            final(self).spec_entities() == old(self).spec_entities(),
            final(self).spec_server_tick() == old(self).spec_server_tick(),
            final(self).spec_explosions().len() == 0,
            final(self).spec_tick_events().len() == 0,
    {
        let mut evs: Vec<Event> = Vec::new();
        core::mem::swap(&mut evs, &mut self.tick_events);
        let mut i: usize = 0;
        while i < evs.len()
            invariant
                self.wf(),
                self.tick == old(self).tick,
                self.entities@ == old(self).entities@,
                self.server_tick == old(self).server_tick,
                self.tick_events@.len() == 0,
            decreases evs.len() - i,
        {
            match &evs[i] {
                Event::Death(d) => {
                    self.handle_player_death(d);
                },
                Event::Hurt(h) => {
                    let hv = *h;
                    self.handle_player_hurt(&hv);
                },
                Event::MedigunCharged(handle) => {
                    let hh = *handle;
                    self.handle_medigun_charged(hh);
                },
            }
            i = i + 1;
        }
        self.explosions = Vec::new();
    }

    /// Closes the previous tick when the tick number moves — draining the
    /// deferred events and discarding the explosion records — then clears
    /// the per-tick buffers and adopts the new tick and server tick.
    pub fn handle_tick(&mut self, tick: u32, server_tick: Option<u32>)
        requires
            old(self).wf(),
        ensures
            final(self).wf(),
            final(self).spec_tick() == tick,
            final(self).spec_entities() == old(self).spec_entities(),
            final(self).spec_hurts().len() == 0,
            final(self).spec_sentry_shots().len() == 0,
            final(self).spec_airblasts().len() == 0,
            final(self).spec_server_tick() == (match server_tick {
                Some(st) => st,
                None => old(self).spec_server_tick(),
            }),
            tick != old(self).spec_tick() ==> final(self).spec_explosions().len() == 0
                && final(self).spec_tick_events().len() == 0,
            tick == old(self).spec_tick() ==> final(self).spec_explosions() == old(self).spec_explosions() && final(self).spec_tick_events() == old(self).spec_tick_events(),
    {
        if tick != self.tick {
            self.on_tick();
        }
        self.hurts = Vec::new();
        self.sentry_shots = Vec::new();
        self.airblasts = Vec::new();
        if tick != self.tick {
            self.explosions = Vec::new();
        }
        self.tick = tick;
        if let Some(st) = server_tick {
            self.server_tick = st;
        }
    }

    /// Applies one temp-entity effect: a pyro's secondary-attack animation
    /// marks an airblast, an effect dispatched at a sentry records a sentry
    /// shot, and a fire-bullets event counts a shot for the firer's active
    /// weapon.
    fn handle_temp_entity(&mut self, te: &TempEntityModel)
        requires
            old(self).wf(),
        ensures
            final(self).wf(),
            final(self).spec_tick() == old(self).spec_tick(),
    {
        let cn: String = match self.server_class_names.get(te.class_id as u32) {
            Some(n) => n.clone(),
            None => {
                self.note_decode_error();
                return ;
            },
        };
        if str_is(&cn, "CTEPlayerAnimEvent") {
            let mut event: Option<u32> = None;
            let mut player: Option<u32> = None;
            let mut i: usize = 0;
            while i < te.props.len()
                decreases te.props@.len() - i,
            {
                let p = &te.props[i];
                if let PropValue::Int(v) = &p.value {
                    if p.ident == self.ids.anim_id {
                        event = Some(crate::props::clamp_u32_from_i64(*v));
                    } else if p.ident == self.ids.anim_player {
                        player = Some(crate::props::clamp_u32_from_i64(*v));
                    }
                }
                i = i + 1;
            }
            if let (Some(ev), Some(ph)) = (event, player) {
                if ev > 38 {
                    self.note_decode_error();
                    return ;
                }
                let anim = crate::game::player_anim_from_u32(ev);
                if anim == crate::game::PlayerAnim::AttackSecondary {
                    let slot: Option<u32> = match self.entity_handles.get(ph) {
                        Some(sl) => Some(*sl),
                        None => None,
                    };
                    let pl: Option<Player> = match slot {
                        Some(sl) => self.get_player_entity(sl),
                        None => None,
                    };
                    match pl {
                        Some(p) => {
                            if p.class == Class::Pyro && p.active_weapon_handle == p.wep_0 {
                                self.airblasts.push(ph);
                            }
                        },
                        None => {
                            self.note_reference_miss();
                        },
                    }
                }
            }
        } else if str_is(&cn, "CTEEffectDispatch") {
            let mut i: usize = 0;
            while i < te.props.len()
                invariant
                    self.wf(),
                    self.tick == old(self).tick,
                decreases te.props@.len() - i,
            {
                let p = &te.props[i];
                i = i + 1;
                if let PropValue::Int(v) = &p.value {
                    if p.ident == self.ids.effect_entity {
                        let eid = crate::props::clamp_u32_from_i64(*v) as usize;
                        if eid < self.entities.len() {
                            let sn: Option<Sentry> = match &self.entities[eid] {
                                Some(Entity::Sentry(sn)) => Some(*sn),
                                _ => None,
                            };
                            if let Some(sn) = sn {
                                self.sentry_shots.push(SentryShot { sentry: sn });
                            }
                        }
                    }
                }
            }
        } else if str_is(&cn, "CTEFireBullets") {
            let mut player: Option<u32> = None;
            let mut i: usize = 0;
            while i < te.props.len()
                decreases te.props@.len() - i,
            {
                let p = &te.props[i];
                if let PropValue::Int(v) = &p.value {
                    if p.ident == self.ids.fire_bullets_player {
                        if *v >= 0 && *v < 0xffffffff {
                            player = Some(crate::props::clamp_u32_from_i64(*v + 1));
                        }
                    }
                }
                i = i + 1;
            }
            let pe: Option<Player> = match player {
                Some(eid) => self.get_player_entity(eid),
                None => None,
            };
            let p = match pe {
                Some(p) => p,
                None => {
                    self.note_reference_miss();
                    return ;
                },
            };
            let schema_id = match self.get_weapon(p.last_active_weapon_handle) {
                Some(w) => w.schema_id,
                None => {
                    self.note_reference_miss();
                    return ;
                },
            };
            let name: String = match self.schema.items.get(schema_id) {
                Some(item) => crate::weapon::weapon_name(item, p.class),
                None => {
                    self.irregularities.schema_gaps =
                        self.irregularities.schema_gaps.saturating_add(1);
                    return ;
                },
            };
            match self.summary_idx_of_uid(p.user_id) {
                Some(idx) => {
                    let ghost pre = self.summaries@;
                    self.summaries[idx].handle_fire_shot(&name);
                    self.round_dirty = true;
                    proof {
                        lemma_summaries_update_ok(pre, self.summaries@, self.uid_index@, idx as int);
                    }
                },
                None => {
                    self.note_reference_miss();
                },
            }
        }
    }

    /// Closes the current round on a round-win event: the winner is the
    /// decoded team (red and blue name winners and losers, the neutral team
    /// marks a stalemate), the round time and sudden-death flag are taken
    /// from the event, the live summaries are snapshotted into the round
    /// sorted by steam-id, and the per-round statistics reset to zero.
    pub fn handle_round_win(&mut self, e: &RoundWinEvent)
        requires
            old(self).wf(),
        ensures
            final(self).wf(),
            final(self).spec_tick() == old(self).spec_tick(),
            final(self).spec_rounds().len() == old(self).spec_rounds().len() + 1,
            forall|k: int|
                0 <= k < old(self).spec_rounds().len() ==> final(self).spec_rounds()[k] == old(self).spec_rounds()[k],
            ({
                let r = final(self).spec_rounds().last();
                let w = if e.team <= 3 {
                    crate::game::spec_team_from(e.team)
                } else {
                    Team::Spectator
                };
                &&& r.time_millis == e.round_time_millis
                &&& r.is_sudden_death == (e.was_sudden_death != 0)
                &&& r.winner == (if w == Team::Red || w == Team::Blue {
                    Some(w)
                } else {
                    None::<Team>
                })
                &&& r.is_stalemate == (w == Team::Other)
                &&& r.players@.len() == old(self).spec_summaries().len()
                &&& spec_sorted_by_steamid(r.players@)
            }),
            forall|j: int|
                0 <= j < final(self).spec_summaries().len()
                    ==> (#[trigger] final(self).spec_summaries()[j]).stats
                    == crate::stats::spec_stats_zero(),
    {
        let winner = if e.team <= 3 {
            team_from_u8(e.team)
        } else {
            self.note_decode_error();
            Team::Spectator
        };
        self.current_round.time_millis = e.round_time_millis;
        self.current_round.is_sudden_death = e.was_sudden_death != 0;
        self.current_round.winner = if winner == Team::Red || winner == Team::Blue {
            Some(winner)
        } else {
            None
        };
        self.current_round.is_stalemate = winner == Team::Other;
        if winner == Team::Red || winner == Team::Blue {
            let loser = if winner == Team::Red {
                Team::Blue
            } else {
                Team::Red
            };
            let mut i: usize = 0;
            while i < self.summaries.len()
                invariant
                    self.wf(),
                    self.tick == old(self).tick,
                    self.rounds@ == old(self).rounds@,
                    self.summaries@ == old(self).summaries@,
                    self.current_round.time_millis == e.round_time_millis,
                    self.current_round.is_sudden_death == (e.was_sudden_death != 0),
                    self.current_round.winner == Some(winner),
                    !self.current_round.is_stalemate,
                    winner == Team::Red || winner == Team::Blue,
                decreases self.summaries@.len() - i,
            {
                if self.summaries[i].tick_end.is_none() {
                    let sid = self.summaries[i].steamid.clone();
                    if self.summaries[i].team == winner {
                        self.current_round.winners.push(sid);
                    } else if self.summaries[i].team == loser {
                        self.current_round.losers.push(sid);
                    }
                }
                i = i + 1;
            }
        } else if winner == Team::Other {
            let mut i: usize = 0;
            while i < self.summaries.len()
                invariant
                    self.wf(),
                    self.tick == old(self).tick,
                    self.rounds@ == old(self).rounds@,
                    self.summaries@ == old(self).summaries@,
                    self.current_round.time_millis == e.round_time_millis,
                    self.current_round.is_sudden_death == (e.was_sudden_death != 0),
                    self.current_round.winner is None,
                    self.current_round.is_stalemate,
                    winner == Team::Other,
                decreases self.summaries@.len() - i,
            {
                if self.summaries[i].tick_end.is_none() && (self.summaries[i].team == Team::Red
                    || self.summaries[i].team == Team::Blue) {
                    let sid = self.summaries[i].steamid.clone();
                    self.current_round.losers.push(sid);
                }
                i = i + 1;
            }
        }
        let snap = sort_players(dup_summaries(&self.summaries));
        self.current_round.players = snap;
        let mut closed = RoundSummary::new();
        core::mem::swap(&mut closed, &mut self.current_round);
        self.rounds.push(closed);
        let ghost target_rounds = self.rounds@;
        let ghost pre_reset = self.summaries@;
        let mut i: usize = 0;
        while i < self.summaries.len()
            invariant
                i <= self.summaries@.len(),
                self.wf(),
                self.tick == old(self).tick,
                self.rounds@ == target_rounds,
                self.summaries@.len() == pre_reset.len(),
                forall|j: int|
                    0 <= j < i as int ==> (#[trigger] self.summaries@[j]).stats
                        == crate::stats::spec_stats_zero(),
            decreases self.summaries@.len() - i,
        {
            let ghost pre = self.summaries@;
            self.summaries[i].reset_stats();
            proof {
                lemma_summaries_update_ok(pre, self.summaries@, self.uid_index@, i as int);
                assert forall|j: int|
                    0 <= j < (i + 1) as int implies (#[trigger] self.summaries@[j]).stats
                    == crate::stats::spec_stats_zero() by {
                    if j < i as int {
                        assert(self.summaries@[j] == pre[j]);
                    }
                }
            }
            i = i + 1;
        }
                self.round_dirty = false;
    }

    /// Walks the class-inheritance graph of the declared send tables and
    /// marks every transitive descendant of the base combat-weapon table as
    /// a weapon class and of the base projectile table as a projectile
    /// class; also records the server classes' names.
    pub fn handle_data_tables(
        &mut self,
        tables: &Vec<SendTableInfo>,
        classes: &Vec<ServerClassInfo>,
    )
        requires
            old(self).wf(),
        ensures
            final(self).wf(),
            final(self).spec_tick() == old(self).spec_tick(),
            final(self).spec_summaries() == old(self).spec_summaries(),
            final(self).spec_entities() == old(self).spec_entities(),
            forall|c: u32|
                #![trigger spec_class_name_of(classes@, c)]
                match spec_class_name_of(classes@, c) {
                    Some(n) => final(self).spec_server_class_names().contains_key(c) && final(self).spec_server_class_names()[c]@ == n,
                    None => final(self).spec_server_class_names().contains_key(c) == old(self).spec_server_class_names().contains_key(c) && (old(self).spec_server_class_names().contains_key(c) ==> final(self).spec_server_class_names()[c] == old(self).spec_server_class_names()[c]),
                },
            forall|c: u32|
                #![trigger final(self).spec_weapon_class_ids().contains_key(c)]
                final(self).spec_weapon_class_ids().contains_key(c) <==> (old(self).spec_weapon_class_ids().contains_key(c) || exists|j: int|
                    0 <= j < classes@.len() && (#[trigger] classes@[j]).class_id as u32 == c
                        && spec_strs_contains(
                        spec_marked_from(tables@, "DT_BaseCombatWeapon"@),
                        classes@[j].data_table@,
                    )),
            forall|c: u32|
                #![trigger final(self).spec_projectile_class_ids().contains_key(c)]
                final(self).spec_projectile_class_ids().contains_key(c) <==> (old(self).spec_projectile_class_ids().contains_key(c) || exists|j: int|
                    0 <= j < classes@.len() && (#[trigger] classes@[j]).class_id as u32 == c
                        && spec_strs_contains(
                        spec_marked_from(tables@, "DT_BaseProjectile"@),
                        classes@[j].data_table@,
                    )),
    {
        let ghost names0 = self.server_class_names@;
        let mut i: usize = 0;
        proof {
            assert(classes@.take(0) =~= Seq::<ServerClassInfo>::empty());
        }
        while i < classes.len()
            invariant
                self.wf(),
                self.tick == old(self).tick,
                self.summaries@ == old(self).summaries@,
                self.entities@ == old(self).entities@,
                self.weapon_class_ids@ == old(self).weapon_class_ids@,
                self.projectile_class_ids@ == old(self).projectile_class_ids@,
                i <= classes@.len(),
                names0 == old(self).server_class_names@,
                forall|c: u32|
                    #![trigger spec_class_name_of(classes@.take(i as int), c)]
                    match spec_class_name_of(classes@.take(i as int), c) {
                        Some(n) => self.server_class_names@.contains_key(c)
                            && self.server_class_names@[c]@ == n,
                        None => self.server_class_names@.contains_key(c) == names0.contains_key(c)
                            && (names0.contains_key(c) ==> self.server_class_names@[c]
                            == names0[c]),
                    },
            decreases classes@.len() - i,
        {
            self.server_class_names.insert(classes[i].class_id as u32, classes[i].name.clone());
            proof {
                assert(classes@.take(i as int + 1).drop_last() =~= classes@.take(i as int));
                assert(classes@.take(i as int + 1).last() == classes@[i as int]);
                assert forall|c: u32|
                    #![trigger spec_class_name_of(classes@.take(i as int + 1), c)]
                    match spec_class_name_of(classes@.take(i as int + 1), c) {
                        Some(n) => self.server_class_names@.contains_key(c)
                            && self.server_class_names@[c]@ == n,
                        None => self.server_class_names@.contains_key(c) == names0.contains_key(c)
                            && (names0.contains_key(c) ==> self.server_class_names@[c]
                            == names0[c]),
                    } by {
                    let prev = spec_class_name_of(classes@.take(i as int), c);
                    if classes@[i as int].class_id as u32 != c {
                        assert(spec_class_name_of(classes@.take(i as int + 1), c) == prev);
                    }
                }
            }
            i = i + 1;
        }
        proof {
            assert(classes@.take(classes@.len() as int) =~= classes@);
        }
        let ghost names1 = self.server_class_names@;
        let weapon_marked = mark_descendants(tables, "DT_BaseCombatWeapon");
        let ghost wm = spec_marked_from(tables@, "DT_BaseCombatWeapon"@);
        let ghost w0 = self.weapon_class_ids@;
        let mut j: usize = 0;
        while j < classes.len()
            invariant
                self.wf(),
                self.tick == old(self).tick,
                self.summaries@ == old(self).summaries@,
                self.entities@ == old(self).entities@,
                self.server_class_names@ == names1,
                self.projectile_class_ids@ == old(self).projectile_class_ids@,
                j <= classes@.len(),
                w0 == old(self).weapon_class_ids@,
                spec_strs_view(weapon_marked@) == wm,
                forall|c: u32|
                    #![trigger self.weapon_class_ids@.contains_key(c)]
                    self.weapon_class_ids@.contains_key(c) <==> (w0.contains_key(c) || exists|
                        t: int,
                    |
                        0 <= t < j as int && (#[trigger] classes@[t]).class_id as u32 == c
                            && spec_strs_contains(wm, classes@[t].data_table@)),
            decreases classes@.len() - j,
        {
            let hit = contains_str(&weapon_marked, &classes[j].data_table);
            proof {
                lemma_strs_view_contains(weapon_marked@, classes@[j as int].data_table@);
            }
            if hit {
                self.weapon_class_ids.insert(classes[j].class_id as u32, true);
            }
            j = j + 1;
        }
        let ghost w1 = self.weapon_class_ids@;
        let projectile_marked = mark_descendants(tables, "DT_BaseProjectile");
        let ghost pm = spec_marked_from(tables@, "DT_BaseProjectile"@);
        let ghost p0 = self.projectile_class_ids@;
        let mut k: usize = 0;
        while k < classes.len()
            invariant
                self.wf(),
                self.tick == old(self).tick,
                self.summaries@ == old(self).summaries@,
                self.entities@ == old(self).entities@,
                self.server_class_names@ == names1,
                self.weapon_class_ids@ == w1,
                k <= classes@.len(),
                p0 == old(self).projectile_class_ids@,
                spec_strs_view(projectile_marked@) == pm,
                forall|c: u32|
                    #![trigger self.projectile_class_ids@.contains_key(c)]
                    self.projectile_class_ids@.contains_key(c) <==> (p0.contains_key(c) || exists|
                        t: int,
                    |
                        0 <= t < k as int && (#[trigger] classes@[t]).class_id as u32 == c
                            && spec_strs_contains(pm, classes@[t].data_table@)),
            decreases classes@.len() - k,
        {
            let hit = contains_str(&projectile_marked, &classes[k].data_table);
            proof {
                lemma_strs_view_contains(projectile_marked@, classes@[k as int].data_table@);
            }
            if hit {
                self.projectile_class_ids.insert(classes[k].class_id as u32, true);
            }
            k = k + 1;
        }
    }


    /// Applies one string-table entry: "userinfo" entries create or update
    /// the per-player summaries keyed by steam-id, counting reconnects;
    /// "modelprecache" entries fill the model index. The userinfo effect is
    /// exactly [`spec_user_upsert`] of the record the entry decodes to.
    pub fn handle_string_entry(
        &mut self,
        table: &String,
        index: usize,
        text: Option<&String>,
        data: Option<&Vec<u8>>,
    )
        requires
            old(self).wf(),
        ensures
            final(self).wf(),
            final(self).spec_tick() == old(self).spec_tick(),
            final(self).spec_entities() == old(self).spec_entities(),
            final(self).spec_handles() == old(self).spec_handles(),
            final(self).spec_explosions() == old(self).spec_explosions(),
            final(self).spec_hurts() == old(self).spec_hurts(),
            final(self).spec_summaries().len() >= old(self).spec_summaries().len(),
            (table@ == "userinfo"@ && data is Some && index <= 0xffff && spec_entry_text_ok(
                match text {
                    Some(t) => Some(t@),
                    None => None::<Seq<char>>,
                },
            )) ==> (match crate::external::user_info_of(
                index as u16,
                match text {
                    Some(t) => Some(t@),
                    None => None::<Seq<char>>,
                },
                data->Some_0@,
            ) {
                Some(rec) => spec_user_upsert(
                    old(self).spec_summaries(),
                    final(self).spec_summaries(),
                    final(self).spec_uid_index(),
                    rec,
                ) && final(self).spec_user_entities().contains_key(rec.3)
                    && final(self).spec_user_entities()[rec.3] == rec.2,
                None => final(self).spec_summaries() == old(self).spec_summaries(),
            }),
            (table@ == "modelprecache"@ && table@ != "userinfo"@ && index <= u32::MAX) ==> ({
                let k = index as u32;
                &&& final(self).spec_models().contains_key(k)
                &&& final(self).spec_models()[k]@ == (match text {
                    Some(t) => t@,
                    None => Seq::<char>::empty(),
                })
                &&& final(self).spec_summaries() == old(self).spec_summaries()
            }),
            (table@ != "userinfo"@ && table@ != "modelprecache"@) ==> final(self).spec_summaries()
                == old(self).spec_summaries(),
    {
        if str_is(table, "userinfo") {
            let d = match data {
                Some(d) => d,
                None => {
                    return ;
                },
            };
            if index > 0xffff {
                self.note_decode_error();
                return ;
            }
            if let Some(t) = text {
                if let Some(v) = crate::props::parse_entity_text(t) {
                    if v == u32::MAX {
                        self.note_decode_error();
                        return ;
                    }
                }
            }
            let decoded = parse_user_info(
                index as u16,
                match text {
                    Some(t) => Some(t.as_str()),
                    None => None,
                },
                d,
            );
            let rec = match decoded {
                Some(r) => r,
                None => {
                    return ;
                },
            };
            self.apply_user_record(rec);
        } else if str_is(table, "modelprecache") {
            if index > 0xffffffff {
                self.note_decode_error();
                return ;
            }
            let m: String = match text {
                Some(t) => t.clone(),
                None => String::new(),
            };
            self.models.insert(index as u32, m);
        }
    }

    /// Creates or updates the summary a userinfo record names; exactly
    /// [`spec_user_upsert`], plus the entity-id link.
    fn apply_user_record(&mut self, rec: (String, String, u32, u32, u8, u8, u8))
        requires
            old(self).wf(),
        ensures
            final(self).wf(),
            final(self).spec_tick() == old(self).spec_tick(),
            final(self).spec_entities() == old(self).spec_entities(),
            final(self).spec_handles() == old(self).spec_handles(),
            final(self).spec_explosions() == old(self).spec_explosions(),
            final(self).spec_hurts() == old(self).spec_hurts(),
            final(self).spec_summaries().len() >= old(self).spec_summaries().len(),
            spec_user_upsert(
                old(self).spec_summaries(),
                final(self).spec_summaries(),
                final(self).spec_uid_index(),
                (rec.0@, rec.1@, rec.2, rec.3, rec.4, rec.5, rec.6),
            ),
            final(self).spec_user_entities().contains_key(rec.3),
            final(self).spec_user_entities()[rec.3] == rec.2,
    {
        let (name, steamid, uid, eid, fake, tv, replay) = rec;
        let found = find_steamid(&self.summaries, &steamid);
        match found {
            Some(idx) => {
                let old_uid = self.summaries[idx].user_id;
                let ghost pre = self.summaries@;
                let ghost premap = self.uid_index@;
                self.summaries[idx].connection_count =
                    self.summaries[idx].connection_count.saturating_add(1);
                self.summaries[idx].entity_id = eid;
                self.summaries[idx].user_id = uid;
                self.summaries[idx].name = name;
                if old_uid != uid {
                    self.uid_index.take(old_uid);
                }
                self.uid_index.insert(uid, idx);
                proof {
                    assert(self.summaries@[idx as int].stats == pre[idx as int].stats);
                    assert(self.summaries@[idx as int].classes@ == pre[idx as int].classes@);
                    assert(self.summaries@[idx as int].weapons@ == pre[idx as int].weapons@);
                    assert(self.summaries@[idx as int].origin == pre[idx as int].origin);
                    assert forall|x: int|
                        0 <= x < self.summaries@.len() implies spec_summary_ok(
                        #[trigger] self.summaries@[x],
                    ) by {
                        if x != idx as int {
                            assert(self.summaries@[x] == pre[x]);
                        }
                    }
                    assert forall|u: u32|
                        self.uid_index@.contains_key(u) implies #[trigger] self.uid_index@[u]
                        < self.summaries@.len()
                        && self.summaries@[self.uid_index@[u] as int].user_id == u by {
                        if u != uid {
                            assert(premap.contains_key(u));
                            assert(self.uid_index@[u] == premap[u]);
                            if premap[u] as int == idx as int {
                                assert(pre[idx as int].user_id == u);
                                assert(u == old_uid);
                                assert(false);
                            } else {
                                assert(self.summaries@[premap[u] as int] == pre[premap[u] as int]);
                            }
                        }
                    }
                }
            },
            None => {
                let ps = PlayerSummary::new(name, steamid, eid, uid, fake > 0, tv > 0, replay > 0);
                let idx = self.summaries.len();
                let ghost pre = self.summaries@;
                self.summaries.push(ps);
                self.uid_index.insert(uid, idx);
                proof {
                    assert forall|x: int|
                        0 <= x < self.summaries@.len() implies spec_summary_ok(
                        #[trigger] self.summaries@[x],
                    ) by {
                        if x < pre.len() {
                            assert(self.summaries@[x] == pre[x]);
                        }
                    }
                    assert forall|u: u32|
                        self.uid_index@.contains_key(u) implies #[trigger] self.uid_index@[u]
                        < self.summaries@.len()
                        && self.summaries@[self.uid_index@[u] as int].user_id == u by {
                        if u != uid {
                            assert(self.summaries@[self.uid_index@[u] as int] == pre[self.uid_index@[u] as int]);
                        }
                    }
                }
            },
        }
        self.user_entities.insert(eid, uid);
    }

    /// Consumes one decoded demo message tagged with its tick    /// Consumes one decoded demo message tagged with its tick: a new tick
    /// number first closes the previous tick, then the message is
    /// dispatched by its kind. After the call the analyzer's current tick
    /// is the message's tick.
    pub fn handle_message(&mut self, msg: &DemoMessage, tick: u32)
        requires
            old(self).wf(),
        ensures
            final(self).wf(),
            final(self).spec_tick() == tick,
    {
        if tick != self.tick {
            self.handle_tick(tick, None);
        }
        match msg {
            DemoMessage::NetTick(t) => {
                self.handle_tick(tick, Some(*t));
            },
            DemoMessage::PacketEntities(v) => {
                let mut i: usize = 0;
                while i < v.len()
                    invariant
                        self.wf(),
                        self.tick == tick,
                    decreases v.len() - i,
                {
                    self.handle_packet_entity(&v[i]);
                    i = i + 1;
                }
            },
            DemoMessage::TempEntities(v) => {
                let mut i: usize = 0;
                while i < v.len()
                    invariant
                        self.wf(),
                        self.tick == tick,
                    decreases v.len() - i,
                {
                    self.handle_temp_entity(&v[i]);
                    i = i + 1;
                }
            },
            DemoMessage::GameEvent(ev) => {
                match ev {
                    GameEventModel::PlayerDeath(d) => {
                        self.tick_events.push(Event::Death(*d));
                    },
                    GameEventModel::PlayerHurt(h) => {
                        self.tick_events.push(Event::Hurt(*h));
                    },
                    GameEventModel::PointCaptured(c) => {
                        self.handle_point_captured(c);
                    },
                    GameEventModel::CaptureBlocked(c) => {
                        self.handle_capture_blocked(c);
                    },
                    GameEventModel::WinPanel(w) => {
                        self.handle_win_panel(w);
                    },
                    GameEventModel::RoundWin(r) => {
                        self.handle_round_win(r);
                    },
                    GameEventModel::Other => {},
                }
            },
            DemoMessage::UserMessage(um) => {
                self.handle_user_message(um);
            },
            DemoMessage::Other => {},
        }
    }

    /// Finishes the stream: a non-empty running round is flushed with every
    /// player's missing start and end ticks stamped with the final tick and
    /// its snapshot sorted by steam-id; the rounds and chat log are emitted.
    pub fn into_output(self) -> (r: DemoSummary)
        ensures
            r.chat@ == self.spec_chat(),
            r.rounds@.len() == self.spec_rounds().len() + (if self.spec_round_pending() {
                1int
            } else {
                0int
            }),
            forall|k: int|
                0 <= k < self.spec_rounds().len() ==> r.rounds@[k] == self.spec_rounds()[k],
            self.spec_round_pending() ==> ({
                let flushed = r.rounds@.last();
                &&& flushed.players@.len() == self.spec_summaries().len()
                &&& spec_sorted_by_steamid(flushed.players@)
                &&& forall|j: int|
                    0 <= j < flushed.players@.len()
                        ==> (#[trigger] flushed.players@[j]).tick_start is Some
                        && flushed.players@[j].tick_end is Some
            }),
    {
        let MatchAnalyzer {
            chat,
            mut rounds,
            summaries,
            mut current_round,
            round_dirty,
            tick,
            ..
        } = self;
        if current_round.time_millis > 0 || round_dirty {
            let mut snap = dup_summaries(&summaries);
            let ghost n0 = snap@.len();
            let mut i: usize = 0;
            while i < snap.len()
                invariant
                    i <= snap@.len(),
                    snap@.len() == n0,
                    forall|j: int|
                        0 <= j < i as int ==> (#[trigger] snap@[j]).tick_start is Some
                            && snap@[j].tick_end is Some,
                decreases snap.len() - i,
            {
                if snap[i].tick_start.is_none() {
                    snap[i].tick_start = Some(tick);
                }
                if snap[i].tick_end.is_none() {
                    snap[i].tick_end = Some(tick);
                }
                i = i + 1;
            }
            current_round.players = sort_players(snap);
            rounds.push(current_round);
        }
        DemoSummary { rounds, chat }
    }
}

/// The square of a bounded displacement.
fn sq_i128(d: i128) -> (r: i128)
    requires
        -4_000_000_000 <= d <= 4_000_000_000,
    ensures
        r == d * d,
        0 <= r <= 0x1000_0000_0000_0000_0000,
{
    proof {
        assert(0 <= d * d <= 16_000_000_000_000_000_000) by (nonlinear_arith)
            requires
                -4_000_000_000 <= d <= 4_000_000_000,
        ;
    }
    d * d
}

/// True when some entry of the list equals the string.
fn contains_str(v: &Vec<String>, s: &String) -> (r: bool)
    ensures
        r == (exists|i: int| 0 <= i < v@.len() && (#[trigger] v@[i])@ == s@),
{
    let mut i: usize = 0;
    while i < v.len()
        invariant
            i <= v.len(),
            forall|k: int| 0 <= k < i as int ==> (#[trigger] v@[k])@ != s@,
        decreases v.len() - i,
    {
        if string_eq(&v[i], s) {
            return true;
        }
        i = i + 1;
    }
    false
}

/// Marks the transitive descendants of a root table in the baseclass graph
/// by monotone passes over the table list, as many passes as tables.
/// The table list as pairs of table name and declared base-class name.
pub open spec fn spec_tables_view(ts: Seq<SendTableInfo>) -> Seq<(Seq<char>, Option<Seq<char>>)> {
    ts.map(
        |i: int, t: SendTableInfo|
            (
                t.name@,
                match t.baseclass {
                    Some(b) => Some(b@),
                    None => None::<Seq<char>>,
                },
            ),
    )
}

/// The collected names as character sequences.
pub open spec fn spec_strs_view(v: Seq<String>) -> Seq<Seq<char>> {
    v.map(|i: int, s: String| s@)
}

/// Whether a name is among the collected ones.
pub open spec fn spec_strs_contains(m: Seq<Seq<char>>, x: Seq<char>) -> bool {
    exists|k: int| 0 <= k < m.len() && m[k] == x
}

/// The first `i` tables scanned once over a collected set: a table whose
/// base class is collected and whose own name is not yet gets appended, in
/// list order.
pub open spec fn spec_mark_scan(
    tv: Seq<(Seq<char>, Option<Seq<char>>)>,
    m: Seq<Seq<char>>,
    i: int,
) -> Seq<Seq<char>>
    decreases i,
{
    if i <= 0 {
        m
    } else {
        let m1 = spec_mark_scan(tv, m, i - 1);
        match tv[i - 1].1 {
            Some(b) => if spec_strs_contains(m1, b) && !spec_strs_contains(m1, tv[i - 1].0) {
                m1.push(tv[i - 1].0)
            } else {
                m1
            },
            None => m1,
        }
    }
}

/// `n` whole scans of the table list over a collected set.
pub open spec fn spec_mark_passes(
    tv: Seq<(Seq<char>, Option<Seq<char>>)>,
    m: Seq<Seq<char>>,
    n: int,
) -> Seq<Seq<char>>
    decreases n,
{
    if n <= 0 {
        m
    } else {
        spec_mark_scan(tv, spec_mark_passes(tv, m, n - 1), tv.len() as int)
    }
}

/// The table names reachable from a root table after as many scans as
/// there are tables.
pub open spec fn spec_marked_from(ts: Seq<SendTableInfo>, root: Seq<char>) -> Seq<Seq<char>> {
    spec_mark_passes(spec_tables_view(ts), seq![root], ts.len() as int)
}

/// The class name the declaration list leaves for an id: its last
/// declaration wins.
pub open spec fn spec_class_name_of(cs: Seq<ServerClassInfo>, c: u32) -> Option<Seq<char>>
    decreases cs.len(),
{
    if cs.len() == 0 {
        None
    } else if cs.last().class_id as u32 == c {
        Some(cs.last().name@)
    } else {
        spec_class_name_of(cs.drop_last(), c)
    }
}

/// Membership survives appending another name.
proof fn lemma_contains_push(m: Seq<Seq<char>>, x: Seq<char>, y: Seq<char>)
    requires
        spec_strs_contains(m, x),
    ensures
        spec_strs_contains(m.push(y), x),
{
    let w = choose|k: int| 0 <= k < m.len() && m[k] == x;
    assert(m.push(y)[w] == x);
}

/// The name view of a string list contains a text exactly when some string
/// of the list reads as it.
proof fn lemma_strs_view_contains(v: Seq<String>, x: Seq<char>)
    ensures
        spec_strs_contains(spec_strs_view(v), x) == (exists|i: int|
            0 <= i < v.len() && (#[trigger] v[i])@ == x),
{
    if exists|i: int| 0 <= i < v.len() && (#[trigger] v[i])@ == x {
        let w = choose|i: int| 0 <= i < v.len() && (#[trigger] v[i])@ == x;
        assert(spec_strs_view(v)[w] == x);
    }
    if spec_strs_contains(spec_strs_view(v), x) {
        let w = choose|k: int| 0 <= k < spec_strs_view(v).len() && spec_strs_view(v)[k] == x;
        assert(v[w]@ == x);
    }
}

/// A scan only grows the collected set.
proof fn lemma_scan_mono(
    tv: Seq<(Seq<char>, Option<Seq<char>>)>,
    m: Seq<Seq<char>>,
    i: int,
    x: Seq<char>,
)
    requires
        spec_strs_contains(m, x),
    ensures
        spec_strs_contains(spec_mark_scan(tv, m, i), x),
    decreases i,
{
    if i > 0 {
        lemma_scan_mono(tv, m, i - 1, x);
        let m1 = spec_mark_scan(tv, m, i - 1);
        match tv[i - 1].1 {
            Some(b) => {
                if spec_strs_contains(m1, b) && !spec_strs_contains(m1, tv[i - 1].0) {
                    lemma_contains_push(m1, x, tv[i - 1].0);
                }
            },
            None => {},
        }
    }
}

/// Everything one scan collects was already collected, or is the name of a
/// table whose declared base class the scan's result holds.
proof fn lemma_scan_sound(
    tv: Seq<(Seq<char>, Option<Seq<char>>)>,
    m: Seq<Seq<char>>,
    i: int,
    x: Seq<char>,
)
    requires
        0 <= i <= tv.len(),
        spec_strs_contains(spec_mark_scan(tv, m, i), x),
    ensures
        spec_strs_contains(m, x) || exists|k: int|
            0 <= k < tv.len() && (#[trigger] tv[k]).0 == x && tv[k].1 is Some
                && spec_strs_contains(spec_mark_scan(tv, m, i), tv[k].1->Some_0),
    decreases i,
{
    if i > 0 {
        let m1 = spec_mark_scan(tv, m, i - 1);
        let grew = match tv[i - 1].1 {
            Some(b) => spec_strs_contains(m1, b) && !spec_strs_contains(m1, tv[i - 1].0),
            None => false,
        };
        if grew {
            let b = tv[i - 1].1->Some_0;
            if x == tv[i - 1].0 {
                lemma_contains_push(m1, b, tv[i - 1].0);
                assert((#[trigger] tv[i - 1]).0 == x && tv[i - 1].1 is Some
                    && spec_strs_contains(spec_mark_scan(tv, m, i), tv[i - 1].1->Some_0));
            } else {
                let w = choose|k: int|
                    0 <= k < m1.push(tv[i - 1].0).len() && (#[trigger] m1.push(tv[i - 1].0)[k])
                        == x;
                assert(m1[w] == x);
                lemma_scan_sound(tv, m, i - 1, x);
                if !spec_strs_contains(m, x) {
                    let k0 = choose|k: int|
                        0 <= k < tv.len() && (#[trigger] tv[k]).0 == x && tv[k].1 is Some
                            && spec_strs_contains(m1, tv[k].1->Some_0);
                    lemma_contains_push(m1, tv[k0].1->Some_0, tv[i - 1].0);
                    assert((#[trigger] tv[k0]).0 == x);
                }
            }
        } else {
            lemma_scan_sound(tv, m, i - 1, x);
        }
    }
}

/// Every name the table scan collects is the root itself, or the name of a
/// table whose declared base class it collects too: marked names trace
/// back to the root along base-class edges.
pub proof fn lemma_marked_sound(ts: Seq<SendTableInfo>, root: Seq<char>, x: Seq<char>)
    requires
        spec_strs_contains(spec_marked_from(ts, root), x),
    ensures
        x == root || exists|k: int|
            0 <= k < spec_tables_view(ts).len() && (#[trigger] spec_tables_view(ts)[k]).0 == x
                && spec_tables_view(ts)[k].1 is Some && spec_strs_contains(
                spec_marked_from(ts, root),
                spec_tables_view(ts)[k].1->Some_0,
            ),
{
    lemma_passes_sound(spec_tables_view(ts), seq![root], ts.len() as int, x);
    if spec_strs_contains(seq![root], x) {
        let w = choose|k: int| 0 <= k < seq![root].len() && seq![root][k] == x;
        assert(x == root);
    }
}

/// Everything the repeated scans collect was in the seed, or is the name of
/// a table whose declared base class the final result holds.
proof fn lemma_passes_sound(
    tv: Seq<(Seq<char>, Option<Seq<char>>)>,
    m: Seq<Seq<char>>,
    n: int,
    x: Seq<char>,
)
    requires
        0 <= n,
        spec_strs_contains(spec_mark_passes(tv, m, n), x),
    ensures
        spec_strs_contains(m, x) || exists|k: int|
            0 <= k < tv.len() && (#[trigger] tv[k]).0 == x && tv[k].1 is Some
                && spec_strs_contains(spec_mark_passes(tv, m, n), tv[k].1->Some_0),
    decreases n,
{
    if n > 0 {
        let prev = spec_mark_passes(tv, m, n - 1);
        lemma_scan_sound(tv, prev, tv.len() as int, x);
        if spec_strs_contains(prev, x) {
            lemma_passes_sound(tv, m, n - 1, x);
            if !spec_strs_contains(m, x) {
                let k0 = choose|k: int|
                    0 <= k < tv.len() && (#[trigger] tv[k]).0 == x && tv[k].1 is Some
                        && spec_strs_contains(prev, tv[k].1->Some_0);
                lemma_scan_mono(tv, prev, tv.len() as int, tv[k0].1->Some_0);
                assert((#[trigger] tv[k0]).0 == x);
            }
        }
    }
}

fn mark_descendants(tables: &Vec<SendTableInfo>, root: &str) -> (r: Vec<String>)
    ensures
        spec_strs_view(r@) == spec_marked_from(tables@, root@),
{
    let ghost tv = spec_tables_view(tables@);
    let mut marked: Vec<String> = Vec::new();
    marked.push(root.to_owned());
    proof {
        assert(spec_strs_view(marked@) =~= seq![root@]);
    }
    let mut pass: usize = 0;
    while pass < tables.len()
        invariant
            tv == spec_tables_view(tables@),
            tv.len() == tables@.len(),
            pass <= tables@.len(),
            spec_strs_view(marked@) == spec_mark_passes(tv, seq![root@], pass as int),
        decreases tables.len() - pass,
    {
        let ghost m0 = spec_strs_view(marked@);
        let mut i: usize = 0;
        while i < tables.len()
            invariant
                tv == spec_tables_view(tables@),
                tv.len() == tables@.len(),
                i <= tables@.len(),
                spec_strs_view(marked@) == spec_mark_scan(tv, m0, i as int),
            decreases tables.len() - i,
        {
            proof {
                assert(tv[i as int] == (
                    tables@[i as int].name@,
                    match tables@[i as int].baseclass {
                        Some(b) => Some(b@),
                        None => None::<Seq<char>>,
                    },
                ));
            }
            if let Some(b) = &tables[i].baseclass {
                let hit_base = contains_str(&marked, b);
                let hit_self = contains_str(&marked, &tables[i].name);
                proof {
                    lemma_strs_view_contains(marked@, b@);
                    lemma_strs_view_contains(marked@, tables@[i as int].name@);
                }
                if hit_base && !hit_self {
                    let ghost before = marked@;
                    marked.push(tables[i].name.clone());
                    proof {
                        assert(spec_strs_view(marked@) =~= spec_strs_view(before).push(
                            tables@[i as int].name@,
                        ));
                    }
                }
            }
            i = i + 1;
        }
        pass = pass + 1;
    }
    proof {
        assert(spec_mark_passes(tv, seq![root@], tables@.len() as int) == spec_marked_from(
            tables@,
            root@,
        ));
    }
    marked
}

/// Every slot of a well-formed analyzer holding a player whose self-handle
/// is set has that handle bound to the slot in the handle index.
pub proof fn lemma_player_handle_indexed(m: &MatchAnalyzer, i: int, p: Player)
    requires
        m.wf(),
        0 <= i < m.spec_entities().len(),
        m.spec_entities()[i] == Some(Entity::Player(p)),
        spec_valid_handle(p.handle),
    ensures
        m.spec_handles().contains_key(p.handle),
        m.spec_handles()[p.handle] == i as u32,
{
    assert(spec_slot_ok(m.spec_handles(), m.spec_entities()[i], i));
}

/// Every projectile in a well-formed analyzer's world has an owner handle
/// that points at something, or remembers its original launcher.
pub proof fn lemma_projectile_owned(
    m: &MatchAnalyzer,
    i: int,
    pr: Projectile,
)
    requires
        m.wf(),
        0 <= i < m.spec_entities().len(),
        m.spec_entities()[i] == Some(Entity::Projectile(pr)),
    ensures
        spec_valid_handle(pr.owner) || pr.original_launcher_handle != 0,
{
    assert(spec_slot_ok(m.spec_handles(), m.spec_entities()[i], i));
}

/// Every explosion record a well-formed analyzer holds was produced in the
/// analyzer's current tick: resolvers only ever see same-tick explosions.
pub proof fn lemma_explosions_are_current(m: &MatchAnalyzer, k: int)
    requires
        m.wf(),
        0 <= k < m.spec_explosions().len(),
    ensures
        m.spec_explosions()[k].tick@ == m.spec_tick(),
{
    assert(spec_explosion_ok(m.spec_explosions()[k], m.spec_tick()));
}

/// Every summary a well-formed analyzer holds satisfies both kill-sum
/// accounts.
pub proof fn lemma_analyzer_kills_account(m: &MatchAnalyzer, j: int)
    requires
        m.wf(),
        0 <= j < m.spec_summaries().len(),
    ensures
        spec_sum_kills(m.spec_summaries()[j].weapons@) == m.spec_summaries()[j].stats.kills as int,
        spec_sum_kills(m.spec_summaries()[j].classes@) == m.spec_summaries()[j].stats.kills as int,
{
    assert(spec_summary_ok(m.spec_summaries()[j]));
}


impl MatchAnalyzer {
    /// The per-player summaries accumulated so far, in order of first
    /// appearance.
    pub fn summaries(&self) -> (r: &Vec<PlayerSummary>)
        ensures
            r@ == self.spec_summaries(),
    {
        &self.summaries
    }

    /// The current round state, as last decoded from the game rules.
    pub fn round_state(&self) -> (r: RoundState)
        ensures
            r == self.spec_round_state(),
    {
        self.round_state
    }

    /// The current tick.
    pub fn tick(&self) -> (r: u32)
        ensures
            r == self.spec_tick(),
    {
        self.tick
    }
}

} // verus!
