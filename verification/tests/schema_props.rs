//! Checks of the schema registry and the trusted property identifiers.
use tf2_demostats::schema::{overwrite, Attribute, ItemRaw, Schema, StringAttribute};

fn raw(logname: Option<&str>, prefab: &[&str]) -> ItemRaw {
    let mut r = ItemRaw::new();
    r.item_logname = logname.map(|s| s.to_owned());
    r.prefab = prefab.iter().map(|s| s.to_string()).collect();
    r
}

#[test]
fn overwrite_rule() {
    let mut left = Some(1u32);
    overwrite(&mut left, None);
    assert_eq!(left, Some(1));
    overwrite(&mut left, Some(2));
    assert_eq!(left, Some(2));
    let mut empty: Option<u32> = None;
    overwrite(&mut empty, Some(5));
    assert_eq!(empty, Some(5));
}

#[test]
fn prefab_merge_right_wins() {
    let mut schema = Schema::new();
    schema.prefabs.push(("base".to_owned(), raw(Some("base_log"), &[])));
    schema.prefabs.push(("over".to_owned(), raw(Some("over_log"), &[])));
    schema.prefabs.push(("both".to_owned(), raw(None, &["base", "over"])));
    let resolved = schema.make_prefab(&"both".to_owned(), 8);
    assert_eq!(resolved.item_logname.as_deref(), Some("over_log"));
}

#[test]
fn unknown_prefab_is_empty() {
    let schema = Schema::new();
    let resolved = schema.make_prefab(&"missing".to_owned(), 8);
    assert!(resolved.item_logname.is_none());
    assert!(resolved.prefab.is_empty());
}

#[test]
fn attribute_lookup_last_wins() {
    let mut r = ItemRaw::new();
    r.attributes.push((
        "set_charge_type".to_owned(),
        Attribute::Float("set_charge_type".to_owned(), 1000),
    ));
    r.attributes.push((
        "set_charge_type".to_owned(),
        Attribute::Float("set_charge_type".to_owned(), 2000),
    ));
    let item = r.into_item();
    match item.get_attribute(&"set_charge_type".to_owned()) {
        Some(Attribute::Float(_, v)) => assert_eq!(*v, 2000),
        _ => panic!("expected the later float attribute"),
    }
    assert!(item.get_attribute(&"absent".to_owned()).is_none());
}

#[test]
fn string_attribute_holds_class_and_value() {
    let a = StringAttribute { attribute_class: "set_weapon_mode".to_owned(), value: "3".to_owned() };
    assert_eq!(a.attribute_class, "set_weapon_mode");
    assert_eq!(a.value, "3");
}

#[test]
fn prop_identifiers_match_the_demo_protocol() {
    // The trusted identifier hash must agree with the demo parser's own.
    let ours = tf2_demostats::external::prop_id("DT_BasePlayer", "m_iHealth");
    let theirs: u64 =
        tf_demo_parser::demo::sendprop::SendPropIdentifier::new("DT_BasePlayer", "m_iHealth")
            .into();
    assert_eq!(ours, theirs);
}

#[test]
fn user_info_decodes_through_the_demo_parser() {
    // 132-byte userinfo payload: name, user id, steam id, padding.
    let mut b = Vec::new();
    let mut nb = [0u8; 32];
    nb[..3].copy_from_slice(b"Eve");
    b.extend_from_slice(&nb);
    b.extend_from_slice(&9u32.to_le_bytes());
    let mut sb = [0u8; 32];
    sb[..11].copy_from_slice(b"STEAM_0:1:5");
    b.extend_from_slice(&sb);
    b.extend_from_slice(&[0u8; 8]);
    b.extend_from_slice(&[0u8; 32]);
    b.extend_from_slice(&[1, 0, 0, 0]);
    b.extend_from_slice(&[0u8; 16]);
    b.extend_from_slice(&0u32.to_le_bytes());
    assert_eq!(b.len(), 132);
    let r = tf2_demostats::external::parse_user_info(2, None, &b).expect("record expected");
    assert_eq!(r.0, "Eve");
    assert_eq!(r.1, "STEAM_0:1:5");
    assert_eq!(r.2, 9);
    assert_eq!(r.3, 3); // no text: the entity id is the index plus one
    assert_eq!(r.4, 1); // fake-player flag byte
}
