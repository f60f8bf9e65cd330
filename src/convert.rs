use vstd::prelude::*;

use crate::decode::{
    decode_items,
    decode_nodes,
    item_decoded,
    item_document_error,
    item_record_fault,
    list_member,
    node_decoded,
    node_document_error,
    node_record_fault,
    text_list_member,
    text_member,
    texts_view,
    DecodeError,
};
use crate::json::{find_member, lookup, JsonValue, Number};
use crate::records::{
    Item,
    Items,
    LocalizedString,
    LocalizedText,
    Node,
    Nodes,
    OutputItem,
    OutputItemView,
    OutputNode,
    OutputNodeView,
    Position,
};

verus! {

/// An integer saturated to the range of `i8`.
pub open spec fn saturate_i8(n: i128) -> i8 {
    if n < -128 {
        -128i8
    } else if n > 127 {
        127i8
    } else {
        n as i8
    }
}

/// The slot of an output item: a numeric slot, truncated toward zero and saturated to
/// the range of `i8`; 0 for anything else (absent, or not a number).
pub open spec fn slot_value(v: Option<JsonValue>) -> i8 {
    match v {
        Some(JsonValue::Number(Number::Int(n))) => saturate_i8(n),
        Some(JsonValue::Number(Number::Float(n))) => saturate_i8(n),
        _ => 0i8,
    }
}

/// The integer that `v` holds, where it is an integer in the range of `i64`.
pub open spec fn whole_value(v: Option<JsonValue>) -> Option<i64> {
    match v {
        Some(JsonValue::Number(Number::Int(n))) => if i64::MIN <= n <= i64::MAX {
            Some(n as i64)
        } else {
            None
        },
        _ => None,
    }
}

/// The position of an output node: the `x` and `y` members of an object where both are
/// integers in the range of `i64`; the origin for anything else.
pub open spec fn position_value(v: Option<JsonValue>) -> Position {
    match v {
        Some(JsonValue::Object(m)) => {
            let x = whole_value(lookup(m@, "x"@));
            let y = whole_value(lookup(m@, "y"@));
            if x is Some && y is Some {
                Position { x: x->0, y: y->0 }
            } else {
                Position { x: 0, y: 0 }
            }
        },
        _ => Position { x: 0, y: 0 },
    }
}

/// The text of an optional string, empty where it is absent.
pub open spec fn text_or_empty(o: Option<String>) -> Seq<char> {
    match o {
        Some(s) => s@,
        None => Seq::empty(),
    }
}

/// The output record of an input item.
pub open spec fn item_output(i: Item) -> OutputItemView {
    OutputItemView {
        id: i.id@,
        slot: slot_value(i.slot),
        name: LocalizedText { en: i.name@, fr: i.name_fr@, de: i.name_de@ },
        level: i.level@,
        gathering_skill: i.gathering_skill@,
        perception: i.perception@,
        image_url: text_or_empty(i.image_url),
        description: LocalizedText {
            en: text_or_empty(i.description),
            fr: text_or_empty(i.description_fr),
            de: text_or_empty(i.description_de),
        },
    }
}

/// The output record of an input node.
pub open spec fn node_output(n: Node) -> OutputNodeView {
    OutputNodeView {
        id: n.id@,
        type_field: n.type_field@,
        sub_type: text_or_empty(n.sub_type),
        zone: LocalizedText { en: n.zone@, fr: n.zone_fr@, de: n.zone_de@ },
        teleport: LocalizedText { en: n.teleport@, fr: n.teleport_fr@, de: n.teleport_de@ },
        position: position_value(n.position),
        start_time: n.start_time@,
        end_time: n.end_time@,
        items: n.item_ids@.map_values(|s: String| s@),
    }
}

/// What each of a list of output items says.
pub open spec fn item_views(s: Seq<OutputItem>) -> Seq<OutputItemView> {
    s.map_values(|o: OutputItem| o@)
}

/// What each of a list of output nodes says.
pub open spec fn node_views(s: Seq<OutputNode>) -> Seq<OutputNodeView> {
    s.map_values(|o: OutputNode| o@)
}

/// The slot of an output item, read from the loosely typed input slot.
pub fn slot_of(v: &Option<JsonValue>) -> (r: i8)
    ensures
        r == slot_value(*v),
{
    match v {
        Some(JsonValue::Number(Number::Int(n))) => saturating_i8(*n),
        Some(JsonValue::Number(Number::Float(n))) => saturating_i8(*n),
        _ => 0,
    }
}

fn saturating_i8(n: i128) -> (r: i8)
    ensures
        r == saturate_i8(n),
{
    if n < -128 {
        -128
    } else if n > 127 {
        127
    } else {
        n as i8
    }
}

fn whole_of(v: Option<&JsonValue>) -> (r: Option<i64>)
    ensures
        r == whole_value(
            match v {
                Some(x) => Some(*x),
                None => None,
            },
        ),
{
    match v {
        Some(JsonValue::Number(Number::Int(n))) => {
            let n: i128 = *n;
            if i64::MIN as i128 <= n && n <= i64::MAX as i128 {
                Some(n as i64)
            } else {
                None
            }
        },
        _ => None,
    }
}

fn member<'a>(m: &'a Vec<(String, JsonValue)>, key: &str) -> (r: Option<&'a JsonValue>)
    ensures
        lookup(m@, key@) == match r {
            Some(x) => Some(*x),
            None => None,
        },
{
    match find_member(m, key) {
        Some(i) => Some(&m[i].1),
        None => None,
    }
}

/// The position of an output node, read from the loosely typed input position.
pub fn position_of(v: &Option<JsonValue>) -> (r: Position)
    ensures
        r == position_value(*v),
{
    match v {
        Some(JsonValue::Object(m)) => {
            let x = whole_of(member(m, "x"));
            let y = whole_of(member(m, "y"));
            match (x, y) {
                (Some(x), Some(y)) => Position { x, y },
                _ => Position::default(),
            }
        },
        _ => Position::default(),
    }
}

fn text_or_empty_of(o: Option<String>) -> (r: String)
    ensures
        r@ == text_or_empty(o),
{
    match o {
        Some(s) => s,
        None => String::new(),
    }
}

/// Reshapes one item: the localized keys become one text per field, the slot
/// and the optional texts get their defaults.
pub fn map_item(item: Item) -> (r: OutputItem)
    ensures
        r@ == item_output(item),
{
    let slot = slot_of(&item.slot);
    OutputItem {
        id: item.id,
        slot,
        name: LocalizedString::new(item.name, item.name_fr, item.name_de),
        level: item.level,
        gathering_skill: item.gathering_skill,
        perception: item.perception,
        image_url: text_or_empty_of(item.image_url),
        description: LocalizedString::new(
            text_or_empty_of(item.description),
            text_or_empty_of(item.description_fr),
            text_or_empty_of(item.description_de),
        ),
    }
}

/// Reshapes one node: the localized keys become one text per field, the
/// position and the sub-type get their defaults, the item list is kept as it is.
pub fn map_node(node: Node) -> (r: OutputNode)
    ensures
        r@ == node_output(node),
{
    let position = position_of(&node.position);
    OutputNode {
        id: node.id,
        type_field: node.type_field,
        sub_type: text_or_empty_of(node.sub_type),
        zone: LocalizedString::new(node.zone, node.zone_fr, node.zone_de),
        teleport: LocalizedString::new(node.teleport, node.teleport_fr, node.teleport_de),
        position,
        start_time: node.start_time,
        end_time: node.end_time,
        items: node.item_ids,
    }
}

/// Converts the item dataset: one output item per input item, in the same order.
pub fn convert_items(items: Items) -> (r: Vec<OutputItem>)
    ensures
        r@.len() == items.items@.len(),
        forall|j: int| 0 <= j < r@.len() ==> (#[trigger] r@[j])@ == item_output(items.items@[j]),
{
    let ghost input = items.items@;
    let mut out: Vec<OutputItem> = Vec::new();
    for item in it: items.items.into_iter()
        invariant
            it.seq() == input,
            out@.len() == it.index(),
            forall|j: int| 0 <= j < out@.len() ==> (#[trigger] out@[j])@ == item_output(input[j]),
    {
        out.push(map_item(item));
    }
    out
}

/// Converts the node dataset: one output node per input node, in the same order.
pub fn convert_nodes(nodes: Nodes) -> (r: Vec<OutputNode>)
    ensures
        r@.len() == nodes.nodes@.len(),
        forall|j: int| 0 <= j < r@.len() ==> (#[trigger] r@[j])@ == node_output(nodes.nodes@[j]),
{
    let ghost input = nodes.nodes@;
    let mut out: Vec<OutputNode> = Vec::new();
    for node in it: nodes.nodes.into_iter()
        invariant
            it.seq() == input,
            out@.len() == it.index(),
            forall|j: int| 0 <= j < out@.len() ==> (#[trigger] out@[j])@ == node_output(input[j]),
    {
        out.push(map_node(node));
    }
    out
}

/// The text held in `o`, empty where there is none.
pub open spec fn text_of(o: Option<Seq<char>>) -> Seq<char> {
    match o {
        Some(t) => t,
        None => Seq::empty(),
    }
}

/// The output record of an item record with members `m`.
pub open spec fn record_item_output(m: Seq<(String, JsonValue)>) -> OutputItemView {
    OutputItemView {
        id: text_of(text_member(m, "id"@)),
        slot: slot_value(lookup(m, "slot"@)),
        name: LocalizedText {
            en: text_of(text_member(m, "name"@)),
            fr: text_of(text_member(m, "nameFr"@)),
            de: text_of(text_member(m, "nameDe"@)),
        },
        level: text_of(text_member(m, "level"@)),
        gathering_skill: text_of(text_member(m, "gatheringSkill"@)),
        perception: text_of(text_member(m, "perception"@)),
        image_url: text_of(text_member(m, "imageUrl"@)),
        description: LocalizedText {
            en: text_of(text_member(m, "description"@)),
            fr: text_of(text_member(m, "descriptionFr"@)),
            de: text_of(text_member(m, "descriptionDe"@)),
        },
    }
}

/// The output record of a node record with members `m`.
pub open spec fn record_node_output(m: Seq<(String, JsonValue)>) -> OutputNodeView {
    OutputNodeView {
        id: text_of(text_member(m, "id"@)),
        type_field: text_of(text_member(m, "type"@)),
        sub_type: text_of(text_member(m, "subType"@)),
        zone: LocalizedText {
            en: text_of(text_member(m, "zone"@)),
            fr: text_of(text_member(m, "zoneFr"@)),
            de: text_of(text_member(m, "zoneDe"@)),
        },
        teleport: LocalizedText {
            en: text_of(text_member(m, "teleport"@)),
            fr: text_of(text_member(m, "teleportFr"@)),
            de: text_of(text_member(m, "teleportDe"@)),
        },
        position: position_value(lookup(m, "position"@)),
        start_time: text_of(text_member(m, "startTime"@)),
        end_time: text_of(text_member(m, "endTime"@)),
        items: match text_list_member(m, "itemIds"@) {
            Some(t) => t,
            None => Seq::empty(),
        },
    }
}

/// The output dataset of an item document; `None` where the document does not fit the schema.
pub open spec fn item_document_output(doc: JsonValue) -> Option<Seq<OutputItemView>> {
    match list_member(doc, "items"@) {
        Some(a) => if forall|j: int| 0 <= j < a.len() ==> #[trigger] item_record_fault(a[j]) is None {
            Some(a.map_values(|v: JsonValue| record_item_output(v->Object_0@)))
        } else {
            None
        },
        None => None,
    }
}

/// The output dataset of a node document; `None` where the document does not fit the schema.
pub open spec fn node_document_output(doc: JsonValue) -> Option<Seq<OutputNodeView>> {
    match list_member(doc, "nodes"@) {
        Some(a) => if forall|j: int| 0 <= j < a.len() ==> #[trigger] node_record_fault(a[j]) is None {
            Some(a.map_values(|v: JsonValue| record_node_output(v->Object_0@)))
        } else {
            None
        },
        None => None,
    }
}

proof fn lemma_item_output_of_record(m: Seq<(String, JsonValue)>, it: Item)
    requires
        item_decoded(m, it),
    ensures
        item_output(it) == record_item_output(m),
{
}

proof fn lemma_node_output_of_record(m: Seq<(String, JsonValue)>, n: Node)
    requires
        node_decoded(m, n),
    ensures
        node_output(n) == record_node_output(m),
{
    assert(texts_view(n.item_ids@) == n.item_ids@.map_values(|s: String| s@));
}

/// Reads an item document and converts it. Fails, with the error that
/// [`decode_items`] gives, exactly where the document does not fit the schema.
pub fn convert_item_document(doc: JsonValue) -> (r: Result<Vec<OutputItem>, DecodeError>)
    ensures
        match r {
            Ok(out) => item_document_output(doc) == Some(item_views(out@)),
            Err(e) => item_document_output(doc) is None && item_document_error(doc, e),
        },
{
    let ghost d = doc;
    match decode_items(doc) {
        Ok(items) => {
            let ghost decoded = items.items@;
            let out = convert_items(items);
            proof {
                let a = list_member(d, "items"@)->0;
                assert forall|j: int| 0 <= j < a.len() implies item_views(out@)[j]
                    == record_item_output(a[j]->Object_0@) by {
                    assert(item_record_fault(a[j]) is None);
                    lemma_item_output_of_record(a[j]->Object_0@, decoded[j]);
                }
                assert(item_views(out@) =~= a.map_values(
                    |v: JsonValue| record_item_output(v->Object_0@),
                ));
            }
            Ok(out)
        },
        Err(e) => Err(e),
    }
}

/// Reads a node document and converts it. Fails, with the error that
/// [`decode_nodes`] gives, exactly where the document does not fit the schema.
pub fn convert_node_document(doc: JsonValue) -> (r: Result<Vec<OutputNode>, DecodeError>)
    ensures
        match r {
            Ok(out) => node_document_output(doc) == Some(node_views(out@)),
            Err(e) => node_document_output(doc) is None && node_document_error(doc, e),
        },
{
    let ghost d = doc;
    match decode_nodes(doc) {
        Ok(nodes) => {
            let ghost decoded = nodes.nodes@;
            let out = convert_nodes(nodes);
            proof {
                let a = list_member(d, "nodes"@)->0;
                assert forall|j: int| 0 <= j < a.len() implies node_views(out@)[j]
                    == record_node_output(a[j]->Object_0@) by {
                    assert(node_record_fault(a[j]) is None);
                    lemma_node_output_of_record(a[j]->Object_0@, decoded[j]);
                }
                assert(node_views(out@) =~= a.map_values(
                    |v: JsonValue| record_node_output(v->Object_0@),
                ));
            }
            Ok(out)
        },
        Err(e) => Err(e),
    }
}

} // verus!
