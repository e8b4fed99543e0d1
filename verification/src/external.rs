//! The crate's trusted boundary: the two places where the analyzer calls
//! into the demo-parsing crates instead of computing itself.
//!
//! Each outside result is a pure function of the call's arguments, so it is
//! given a name (an uninterpreted spec function) and the wrapper's contract
//! states that the call returns that named value.
use vstd::prelude::*;

verus! {

/// The stable identifier that the demo protocol derives from a network
/// property's (table name, property name) pair.
pub uninterp spec fn prop_id_of(table: Seq<char>, name: Seq<char>) -> u64;

/// Relies on `tf_demo_parser::demo::sendprop::SendPropIdentifier::new`: the
/// identifier is a hash of the two names and depends on them alone.
#[verifier::external_body]
pub fn prop_id(table: &str, name: &str) -> (r: u64)
    ensures
        r == prop_id_of(table@, name@),
{
    u64::from(tf_demo_parser::demo::sendprop::SendPropIdentifier::new(table, name))
}

/// The player-identity record carried by one entry of the "userinfo" string
/// table, decoded from the entry's text and payload bytes: name, steam-id,
/// user id, entity id, and the fake-player / tv / replay flags; nothing when
/// the payload does not decode to a record with a steam-id.
pub uninterp spec fn user_info_of(index: u16, text: Option<Seq<char>>, data: Seq<u8>) -> Option<
    (Seq<char>, Seq<char>, u32, u32, u8, u8, u8),
>;

/// Relies on `tf_demo_parser::demo::data::UserInfo::parse_from_string_table`:
/// the decoded record depends on the entry's index, text and bytes alone.
/// The outside function adds one to the entity id the standard parser reads
/// from the entry's text, so every text that parser maps to the largest
/// entity id — an optional leading plus sign included — is left out: on
/// those the addition would overflow.
#[verifier::external_body]
pub fn parse_user_info(index: u16, text: Option<&str>, data: &Vec<u8>) -> (r: Option<
    (String, String, u32, u32, u8, u8, u8),
>)
    requires
        match text {
            Some(t) => crate::props::spec_parse_entity_text(t@) != Some(u32::MAX as int),
            None => true,
        },
    ensures
        match r {
            None => user_info_of(
                index,
                match text {
                    Some(t) => Some(t@),
                    None => None,
                },
                data@,
            ) is None,
            Some(t) => user_info_of(
                index,
                match text {
                    Some(t) => Some(t@),
                    None => None,
                },
                data@,
            ) == Some((t.0@, t.1@, t.2, t.3, t.4, t.5, t.6)),
        },
{
    let buffer = bitbuffer::BitReadBuffer::new_owned(data.clone(), bitbuffer::LittleEndian);
    let stream = bitbuffer::BitReadStream::new(buffer);
    match tf_demo_parser::demo::data::UserInfo::parse_from_string_table(index, text, Some(stream)) {
        Ok(Some(u)) => Some((
            u.player_info.name,
            u.player_info.steam_id,
            u32::from(u.player_info.user_id),
            u32::from(u.entity_id),
            u.player_info.is_fake_player,
            u.player_info.is_hl_tv,
            u.player_info.is_replay,
        )),
        _ => None,
    }
}

} // verus!
