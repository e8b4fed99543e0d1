//! The analyzer's view of the decoded demo stream: messages tagged with a
//! tick, already turned into plain values by the caller.
use crate::props::Prop;
use vstd::prelude::*;

verus! {

/// How a packet-entities record changes its slot.
#[derive(Clone, Copy, Debug, PartialEq, Eq, Structural)]
pub enum UpdateType {
    /// A new entity takes the slot.
    Enter,
    /// The slot's entity is patched in place.
    Preserve,
    /// The slot's entity is destroyed for good.
    Delete,
    /// The slot's entity leaves but may re-enter later.
    Leave,
}

/// One entity record of a packet-entities message.
#[derive(Debug)]
pub struct PacketEntityModel {
    pub entity_index: u16,
    pub server_class: u16,
    pub update_type: UpdateType,
    pub props: Vec<Prop>,
}

/// One one-shot effect of a temp-entities message.
#[derive(Debug)]
pub struct TempEntityModel {
    pub class_id: u16,
    pub props: Vec<Prop>,
}

/// A player-death game event.
#[derive(Clone, Copy, Debug, PartialEq, Eq, Structural)]
pub struct PlayerDeath {
    pub user_id: u16,
    pub attacker: u16,
    pub assister: u16,
    pub weapon_def_index: u32,
    pub damage_bits: u32,
    pub custom_kill: u16,
    pub death_flags: u16,
}

/// A player-hurt game event.
#[derive(Clone, Copy, Debug, PartialEq, Eq, Structural)]
pub struct PlayerHurtEvent {
    pub user_id: u16,
    pub health: u16,
    pub attacker: u16,
    pub damage_amount: u16,
    pub custom: u16,
    pub crit: bool,
    pub mini_crit: bool,
    pub weapon_id: u16,
    pub bonus_effect: u8,
}

/// A point-captured game event; each byte of `cappers` is an entity id.
#[derive(Debug)]
pub struct PointCapturedEvent {
    pub cappers: Vec<u8>,
}

/// A capture-blocked game event.
#[derive(Clone, Copy, Debug, PartialEq, Eq, Structural)]
pub struct CaptureBlockedEvent {
    pub blocker: u8,
}

/// A win-panel game event naming up to three most valuable players by
/// entity id.
#[derive(Clone, Copy, Debug, PartialEq, Eq, Structural)]
pub struct WinPanelEvent {
    pub player_1: u16,
    pub player_2: u16,
    pub player_3: u16,
}

/// A round-win game event; the round time is carried in milliseconds.
#[derive(Clone, Copy, Debug, PartialEq, Eq, Structural)]
pub struct RoundWinEvent {
    pub team: u8,
    pub round_time_millis: u32,
    pub was_sudden_death: u8,
}

/// A semantic game event, as far as the analyzer consumes them.
#[derive(Debug)]
pub enum GameEventModel {
    PlayerDeath(PlayerDeath),
    PlayerHurt(PlayerHurtEvent),
    PointCaptured(PointCapturedEvent),
    CaptureBlocked(CaptureBlockedEvent),
    WinPanel(WinPanelEvent),
    RoundWin(RoundWinEvent),
    /// Any other game event; the analyzer ignores it.
    Other,
}

/// The audience of a chat line.
#[derive(Clone, Copy, Debug, PartialEq, Eq, Structural)]
pub enum ChatKind {
    ChatAll,
    ChatAllDead,
    ChatTeam,
    ChatTeamDead,
    ChatAllSpec,
    NameChange,
}

/// A chat user message.
#[derive(Debug)]
pub struct SayText2Model {
    pub client: u16,
    pub text: String,
    pub kind: ChatKind,
}

/// A user message, as far as the analyzer consumes them.
#[derive(Debug)]
pub enum UserMessageModel {
    SayText2(SayText2Model),
    /// Any other user message; the analyzer ignores it.
    Other,
}

/// One decoded demo message handed to the analyzer together with its tick.
#[derive(Debug)]
pub enum DemoMessage {
    /// The authoritative server tick counter.
    NetTick(u32),
    /// The delta-compressed world view.
    PacketEntities(Vec<PacketEntityModel>),
    /// One-shot effects.
    TempEntities(Vec<TempEntityModel>),
    /// A semantic game event.
    GameEvent(GameEventModel),
    /// A user message.
    UserMessage(UserMessageModel),
    /// Any other message; the analyzer ignores it.
    Other,
}

/// One send-table declaration: its name and the name of the table its
/// "baseclass" property points at, if any.
#[derive(Debug)]
pub struct SendTableInfo {
    pub name: String,
    pub baseclass: Option<String>,
}

/// One server-class declaration: its numeric id, class name and data-table
/// name.
#[derive(Debug)]
pub struct ServerClassInfo {
    pub class_id: u16,
    pub name: String,
    pub data_table: String,
}

} // verus!
