use gather_convert::convert::{
    convert_item_document, convert_items, convert_node_document, convert_nodes, map_item,
    map_node, position_of, slot_of,
};
use gather_convert::decode::{decode_item, decode_items, decode_node, decode_nodes, DecodeError};
use gather_convert::json::{JsonValue, Number};
use gather_convert::records::{Item, Items, LocalizedString, Node, Nodes, Position};

fn text(t: &str) -> JsonValue {
    JsonValue::Str(t.to_string())
}

fn whole(n: i128) -> JsonValue {
    JsonValue::Number(Number::Int(n))
}

fn object(members: Vec<(&str, JsonValue)>) -> JsonValue {
    JsonValue::Object(members.into_iter().map(|(k, v)| (k.to_string(), v)).collect())
}

fn item_members(id: &str) -> Vec<(&'static str, JsonValue)> {
    vec![
        ("id", text(id)),
        ("slot", whole(2)),
        ("name", text("A")),
        ("nameFr", text("B")),
        ("nameDe", text("C")),
        ("level", text("50")),
        ("gatheringSkill", text("100")),
        ("perception", text("80")),
        ("imageUrl", text("http://img/1.png")),
        ("description", text("desc")),
        ("descriptionFr", text("descFr")),
        ("descriptionDe", text("descDe")),
        ("patch", JsonValue::Number(Number::Float(7))),
    ]
}

fn node_members(id: &str) -> Vec<(&'static str, JsonValue)> {
    vec![
        ("id", text(id)),
        ("type", text("Mining")),
        ("subType", text("Rocky")),
        ("zone", text("Zone")),
        ("zoneFr", text("ZoneFr")),
        ("zoneDe", text("ZoneDe")),
        ("teleport", text("Tp")),
        ("teleportFr", text("TpFr")),
        ("teleportDe", text("TpDe")),
        ("position", object(vec![("x", whole(3)), ("y", whole(4))])),
        ("startTime", text("00:00")),
        ("endTime", text("02:00")),
        ("itemIds", JsonValue::Array(vec![text("a"), text("b"), text("a")])),
    ]
}

fn without(members: Vec<(&'static str, JsonValue)>, key: &str) -> Vec<(&'static str, JsonValue)> {
    members.into_iter().filter(|(k, _)| *k != key).collect()
}

fn replaced(
    members: Vec<(&'static str, JsonValue)>,
    key: &'static str,
    value: JsonValue,
) -> Vec<(&'static str, JsonValue)> {
    let mut out = without(members, key);
    out.push((key, value));
    out
}

fn item(members: Vec<(&'static str, JsonValue)>) -> Item {
    decode_item(object(members), 0).unwrap()
}

fn node(members: Vec<(&'static str, JsonValue)>) -> Node {
    decode_node(object(members), 0).unwrap()
}

fn item_document(ids: &[&str]) -> JsonValue {
    let records = ids.iter().map(|id| object(item_members(id))).collect();
    object(vec![("items", JsonValue::Array(records))])
}

fn node_document(ids: &[&str]) -> JsonValue {
    let records = ids.iter().map(|id| object(node_members(id))).collect();
    object(vec![("nodes", JsonValue::Array(records))])
}

#[test]
fn item_count_and_order_kept() {
    let items = decode_items(item_document(&["a", "b", "c"])).unwrap();
    let out = convert_items(items);
    let ids: Vec<&str> = out.iter().map(|o| o.id.as_str()).collect();
    assert_eq!(ids, vec!["a", "b", "c"]);
}

#[test]
fn node_count_and_order_kept() {
    let nodes = decode_nodes(node_document(&["n3", "n1", "n2"])).unwrap();
    let out = convert_nodes(nodes);
    let ids: Vec<&str> = out.iter().map(|o| o.id.as_str()).collect();
    assert_eq!(ids, vec!["n3", "n1", "n2"]);
}

#[test]
fn empty_datasets_convert_to_empty_lists() {
    assert_eq!(convert_item_document(item_document(&[])).unwrap().len(), 0);
    assert_eq!(convert_node_document(node_document(&[])).unwrap().len(), 0);
    assert_eq!(convert_items(Items { items: vec![] }).len(), 0);
    assert_eq!(convert_nodes(Nodes { nodes: vec![] }).len(), 0);
}

#[test]
fn localized_name_round_trip() {
    let out = map_item(item(item_members("x")));
    assert_eq!(out.name.en, "A");
    assert_eq!(out.name.fr, "B");
    assert_eq!(out.name.de, "C");
}

#[test]
fn item_fields_copied() {
    let out = map_item(item(item_members("x")));
    assert_eq!(out.id, "x");
    assert_eq!(out.slot, 2);
    assert_eq!(out.level, "50");
    assert_eq!(out.gathering_skill, "100");
    assert_eq!(out.perception, "80");
    assert_eq!(out.image_url, "http://img/1.png");
    assert_eq!(out.description.en, "desc");
    assert_eq!(out.description.fr, "descFr");
    assert_eq!(out.description.de, "descDe");
}

#[test]
fn slot_number_kept() {
    let out = map_item(item(replaced(item_members("x"), "slot", whole(5))));
    assert_eq!(out.slot, 5);
}

#[test]
fn slot_string_gives_zero() {
    let out = map_item(item(replaced(item_members("x"), "slot", text("foo"))));
    assert_eq!(out.slot, 0);
}

#[test]
fn slot_absent_gives_zero() {
    let out = map_item(item(without(item_members("x"), "slot")));
    assert_eq!(out.slot, 0);
}

#[test]
fn slot_other_kinds_give_zero() {
    assert_eq!(slot_of(&Some(JsonValue::Null)), 0);
    assert_eq!(slot_of(&Some(JsonValue::Bool(true))), 0);
    assert_eq!(slot_of(&Some(JsonValue::Array(vec![whole(3)]))), 0);
    assert_eq!(slot_of(&Some(object(vec![("slot", whole(3))]))), 0);
}

#[test]
fn fractional_slot_truncated_and_saturated() {
    // 5.7 and 5.0 have integer part 5; 1e3 has 1000; -2.5 has -2
    assert_eq!(slot_of(&Some(JsonValue::Number(Number::Float(5)))), 5);
    let out = map_item(item(replaced(item_members("x"), "slot", JsonValue::Number(Number::Float(5)))));
    assert_eq!(out.slot, 5);
    assert_eq!(slot_of(&Some(JsonValue::Number(Number::Float(1000)))), 127);
    assert_eq!(slot_of(&Some(JsonValue::Number(Number::Float(-2)))), -2);
    assert_eq!(slot_of(&Some(JsonValue::Number(Number::Float(-1000)))), -128);
}

#[test]
fn slot_saturates_to_byte_range() {
    assert_eq!(slot_of(&Some(whole(127))), 127);
    assert_eq!(slot_of(&Some(whole(128))), 127);
    assert_eq!(slot_of(&Some(whole(1000))), 127);
    assert_eq!(slot_of(&Some(whole(-128))), -128);
    assert_eq!(slot_of(&Some(whole(-129))), -128);
    assert_eq!(slot_of(&Some(whole(-7))), -7);
}

#[test]
fn description_defaults_to_empty() {
    let members = without(without(item_members("x"), "descriptionFr"), "descriptionDe");
    let out = map_item(item(replaced(members, "description", text("only english"))));
    assert_eq!(out.description.en, "only english");
    assert_eq!(out.description.fr, "");
    assert_eq!(out.description.de, "");
}

#[test]
fn optional_texts_null_or_absent_give_empty() {
    let members = replaced(without(item_members("x"), "imageUrl"), "description", JsonValue::Null);
    let out = map_item(item(members));
    assert_eq!(out.image_url, "");
    assert_eq!(out.description.en, "");
    let out = map_node(node(without(node_members("n"), "subType")));
    assert_eq!(out.sub_type, "");
}

#[test]
fn position_integer_pair_kept() {
    let out = map_node(node(node_members("n")));
    assert_eq!(out.position, Position { x: 3, y: 4 });
}

#[test]
fn position_fraction_gives_origin() {
    let pos = object(vec![("x", JsonValue::Number(Number::Float(3))), ("y", whole(4))]);
    let out = map_node(node(replaced(node_members("n"), "position", pos)));
    assert_eq!(out.position, Position { x: 0, y: 0 });
}

#[test]
fn position_missing_y_gives_origin() {
    let pos = object(vec![("x", whole(3))]);
    assert_eq!(position_of(&Some(pos)), Position { x: 0, y: 0 });
}

#[test]
fn position_not_object_gives_origin() {
    assert_eq!(position_of(&Some(text("3,4"))), Position { x: 0, y: 0 });
    assert_eq!(position_of(&Some(JsonValue::Array(vec![whole(3), whole(4)]))), Position { x: 0, y: 0 });
    assert_eq!(position_of(&None), Position { x: 0, y: 0 });
    let out = map_node(node(without(node_members("n"), "position")));
    assert_eq!(out.position, Position { x: 0, y: 0 });
}

#[test]
fn position_beyond_i64_gives_origin() {
    let big = i64::MAX as i128 + 1;
    let pos = object(vec![("x", whole(big)), ("y", whole(4))]);
    assert_eq!(position_of(&Some(pos)), Position { x: 0, y: 0 });
    let pos = object(vec![("y", whole(-9)), ("x", whole(i64::MIN as i128))]);
    assert_eq!(position_of(&Some(pos)), Position { x: i64::MIN, y: -9 });
}

#[test]
fn item_ids_pass_through() {
    let out = map_node(node(node_members("n")));
    assert_eq!(out.items, vec!["a".to_string(), "b".to_string(), "a".to_string()]);
}

#[test]
fn node_fields_copied() {
    let out = map_node(node(node_members("n")));
    assert_eq!(out.id, "n");
    assert_eq!(out.type_field, "Mining");
    assert_eq!(out.sub_type, "Rocky");
    assert_eq!(out.zone, LocalizedString::new("Zone".into(), "ZoneFr".into(), "ZoneDe".into()));
    assert_eq!(out.teleport, LocalizedString::new("Tp".into(), "TpFr".into(), "TpDe".into()));
    assert_eq!(out.start_time, "00:00");
    assert_eq!(out.end_time, "02:00");
}

#[test]
fn conversion_repeatable() {
    let first = convert_item_document(item_document(&["a", "b"])).unwrap();
    let second = convert_item_document(item_document(&["a", "b"])).unwrap();
    assert_eq!(first, second);
    let first = convert_node_document(node_document(&["n"])).unwrap();
    let second = convert_node_document(node_document(&["n"])).unwrap();
    assert_eq!(first, second);
}

#[test]
fn malformed_top_level_rejected() {
    assert_eq!(convert_item_document(object(vec![])), Err(DecodeError::Shape));
    assert_eq!(convert_node_document(object(vec![])), Err(DecodeError::Shape));
    assert_eq!(convert_item_document(JsonValue::Array(vec![])), Err(DecodeError::Shape));
    let wrong = object(vec![("items", object(vec![]))]);
    assert_eq!(convert_item_document(wrong), Err(DecodeError::Shape));
    let wrong_key = object(vec![("nodes", JsonValue::Array(vec![]))]);
    assert_eq!(convert_item_document(wrong_key), Err(DecodeError::Shape));
}

#[test]
fn record_that_is_not_an_object_rejected() {
    let doc = object(vec![("items", JsonValue::Array(vec![object(item_members("a")), whole(1)]))]);
    assert_eq!(convert_item_document(doc), Err(DecodeError::NotAnObject { index: 1 }));
}

#[test]
fn first_bad_field_reported() {
    let members = replaced(without(item_members("a"), "nameFr"), "level", whole(3));
    let doc = object(vec![(
        "items",
        JsonValue::Array(vec![object(item_members("ok")), object(members), whole(0)]),
    )]);
    let expected = DecodeError::BadField { index: 1, field: "nameFr".to_string() };
    assert_eq!(convert_item_document(doc), Err(expected));
}

#[test]
fn optional_field_of_wrong_type_rejected() {
    let members = replaced(item_members("a"), "imageUrl", whole(3));
    let expected = DecodeError::BadField { index: 4, field: "imageUrl".to_string() };
    assert_eq!(decode_item(object(members), 4), Err(expected));
    let members = replaced(node_members("n"), "subType", JsonValue::Bool(false));
    let expected = DecodeError::BadField { index: 0, field: "subType".to_string() };
    assert_eq!(decode_node(object(members), 0), Err(expected));
}

#[test]
fn patch_must_be_a_number_when_present() {
    let members = replaced(item_members("a"), "patch", text("7.1"));
    let expected = DecodeError::BadField { index: 0, field: "patch".to_string() };
    assert_eq!(decode_item(object(members), 0), Err(expected));
    assert!(decode_item(object(replaced(item_members("a"), "patch", whole(7))), 0).is_ok());
    assert!(decode_item(object(without(item_members("a"), "patch")), 0).is_ok());
}

#[test]
fn item_ids_must_be_strings() {
    let ids = JsonValue::Array(vec![text("a"), whole(2)]);
    let members = replaced(node_members("n"), "itemIds", ids);
    let doc = object(vec![("nodes", JsonValue::Array(vec![object(members)]))]);
    let expected = DecodeError::BadField { index: 0, field: "itemIds".to_string() };
    assert_eq!(convert_node_document(doc), Err(expected));
    let members = without(node_members("n"), "itemIds");
    let expected = DecodeError::BadField { index: 2, field: "itemIds".to_string() };
    assert_eq!(decode_node(object(members), 2), Err(expected));
}

#[test]
fn first_of_repeated_keys_wins() {
    let mut members = item_members("first");
    members.push(("id", text("second")));
    assert_eq!(map_item(item(members)).id, "first");
}

#[test]
fn unknown_members_ignored() {
    let mut members = node_members("n");
    members.push(("comment", JsonValue::Bool(true)));
    assert_eq!(map_node(node(members)).id, "n");
}

#[test]
fn localized_string_new_keeps_order() {
    let l = LocalizedString::new("en".into(), "fr".into(), "de".into());
    assert_eq!((l.en.as_str(), l.fr.as_str(), l.de.as_str()), ("en", "fr", "de"));
}

#[test]
fn position_default_is_origin() {
    assert_eq!(Position::default(), Position { x: 0, y: 0 });
}
