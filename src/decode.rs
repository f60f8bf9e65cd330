use vstd::prelude::*;

use crate::json::{find_member, lookup, JsonValue};
use crate::records::{Item, Items, Node, Nodes};

verus! {

/// Why an input document could not be read as a dataset.
#[derive(Debug, PartialEq, Eq)]
pub enum DecodeError {
    /// The document is not an object whose list member holds an array.
    Shape,
    /// The record at `index` of the list is not an object.
    NotAnObject { index: usize },
    /// The member `field` of the record at `index` is missing or of the wrong type.
    BadField { index: usize, field: String },
}

/// The text of member `key`, where it is a string.
pub open spec fn text_member(m: Seq<(String, JsonValue)>, key: Seq<char>) -> Option<Seq<char>> {
    match lookup(m, key) {
        Some(JsonValue::Str(s)) => Some(s@),
        _ => None,
    }
}

/// Member `key` is absent, null or a string.
pub open spec fn optional_text_fits(m: Seq<(String, JsonValue)>, key: Seq<char>) -> bool {
    match lookup(m, key) {
        None => true,
        Some(JsonValue::Null) => true,
        Some(JsonValue::Str(_)) => true,
        _ => false,
    }
}

/// Member `key` is absent, null or a number.
pub open spec fn optional_number_fits(m: Seq<(String, JsonValue)>, key: Seq<char>) -> bool {
    match lookup(m, key) {
        None => true,
        Some(JsonValue::Null) => true,
        Some(JsonValue::Number(_)) => true,
        _ => false,
    }
}

/// The texts of member `key`, where it is an array of strings.
pub open spec fn text_list_member(m: Seq<(String, JsonValue)>, key: Seq<char>) -> Option<
    Seq<Seq<char>>,
> {
    match lookup(m, key) {
        Some(JsonValue::Array(a)) => if forall|j: int| 0 <= j < a@.len() ==> (#[trigger] a@[j]) is Str {
            Some(a@.map_values(|v: JsonValue| v->Str_0@))
        } else {
            None
        },
        _ => None,
    }
}

/// The text of an optional string, where there is one.
pub open spec fn opt_view(o: Option<String>) -> Option<Seq<char>> {
    match o {
        Some(s) => Some(s@),
        None => None,
    }
}

/// The texts of a list of strings.
pub open spec fn texts_view(v: Seq<String>) -> Seq<Seq<char>> {
    v.map_values(|s: String| s@)
}

/// `e` says that member `key` of record `index` is missing or of the wrong type.
pub open spec fn names_field(e: DecodeError, index: int, key: Seq<char>) -> bool {
    e matches DecodeError::BadField { index: i, field } && i == index && field@ == key
}

/// `e` reports the fault of record `index`: `None` where it is not an object,
/// else the first member that does not fit.
pub open spec fn reports(e: DecodeError, index: int, fault: Option<Seq<char>>) -> bool {
    match fault {
        None => e matches DecodeError::NotAnObject { index: i } && i == index,
        Some(key) => names_field(e, index, key),
    }
}

/// The first member of an item record, in schema order, that does not fit the schema.
pub open spec fn item_fault(m: Seq<(String, JsonValue)>) -> Option<Seq<char>> {
    if text_member(m, "id"@) is None {
        Some("id"@)
    } else if text_member(m, "name"@) is None {
        Some("name"@)
    } else if text_member(m, "nameFr"@) is None {
        Some("nameFr"@)
    } else if text_member(m, "nameDe"@) is None {
        Some("nameDe"@)
    } else if text_member(m, "level"@) is None {
        Some("level"@)
    } else if text_member(m, "gatheringSkill"@) is None {
        Some("gatheringSkill"@)
    } else if text_member(m, "perception"@) is None {
        Some("perception"@)
    } else if !optional_text_fits(m, "imageUrl"@) {
        Some("imageUrl"@)
    } else if !optional_text_fits(m, "description"@) {
        Some("description"@)
    } else if !optional_text_fits(m, "descriptionFr"@) {
        Some("descriptionFr"@)
    } else if !optional_text_fits(m, "descriptionDe"@) {
        Some("descriptionDe"@)
    } else if !optional_number_fits(m, "patch"@) {
        Some("patch"@)
    } else {
        None
    }
}

/// `it` is the item that the record with members `m` describes.
pub open spec fn item_decoded(m: Seq<(String, JsonValue)>, it: Item) -> bool {
    &&& text_member(m, "id"@) == Some(it.id@)
    &&& lookup(m, "slot"@) == it.slot
    &&& text_member(m, "name"@) == Some(it.name@)
    &&& text_member(m, "nameFr"@) == Some(it.name_fr@)
    &&& text_member(m, "nameDe"@) == Some(it.name_de@)
    &&& text_member(m, "level"@) == Some(it.level@)
    &&& text_member(m, "gatheringSkill"@) == Some(it.gathering_skill@)
    &&& text_member(m, "perception"@) == Some(it.perception@)
    &&& text_member(m, "imageUrl"@) == opt_view(it.image_url)
    &&& text_member(m, "description"@) == opt_view(it.description)
    &&& text_member(m, "descriptionFr"@) == opt_view(it.description_fr)
    &&& text_member(m, "descriptionDe"@) == opt_view(it.description_de)
}

/// `None` where `v` is a well-formed item record; else `Some` of what [`reports`] reads.
pub open spec fn item_record_fault(v: JsonValue) -> Option<Option<Seq<char>>> {
    match v {
        JsonValue::Object(m) => match item_fault(m@) {
            None => None,
            Some(key) => Some(Some(key)),
        },
        _ => Some(None),
    }
}

/// The first member of a node record, in schema order, that does not fit the schema.
pub open spec fn node_fault(m: Seq<(String, JsonValue)>) -> Option<Seq<char>> {
    if text_member(m, "id"@) is None {
        Some("id"@)
    } else if text_member(m, "type"@) is None {
        Some("type"@)
    } else if !optional_text_fits(m, "subType"@) {
        Some("subType"@)
    } else if text_member(m, "zone"@) is None {
        Some("zone"@)
    } else if text_member(m, "zoneFr"@) is None {
        Some("zoneFr"@)
    } else if text_member(m, "zoneDe"@) is None {
        Some("zoneDe"@)
    } else if text_member(m, "teleport"@) is None {
        Some("teleport"@)
    } else if text_member(m, "teleportFr"@) is None {
        Some("teleportFr"@)
    } else if text_member(m, "teleportDe"@) is None {
        Some("teleportDe"@)
    } else if text_member(m, "startTime"@) is None {
        Some("startTime"@)
    } else if text_member(m, "endTime"@) is None {
        Some("endTime"@)
    } else if text_list_member(m, "itemIds"@) is None {
        Some("itemIds"@)
    } else {
        None
    }
}

/// `n` is the node that the record with members `m` describes.
pub open spec fn node_decoded(m: Seq<(String, JsonValue)>, n: Node) -> bool {
    &&& text_member(m, "id"@) == Some(n.id@)
    &&& text_member(m, "type"@) == Some(n.type_field@)
    &&& text_member(m, "subType"@) == opt_view(n.sub_type)
    &&& text_member(m, "zone"@) == Some(n.zone@)
    &&& text_member(m, "zoneFr"@) == Some(n.zone_fr@)
    &&& text_member(m, "zoneDe"@) == Some(n.zone_de@)
    &&& text_member(m, "teleport"@) == Some(n.teleport@)
    &&& text_member(m, "teleportFr"@) == Some(n.teleport_fr@)
    &&& text_member(m, "teleportDe"@) == Some(n.teleport_de@)
    &&& lookup(m, "position"@) == n.position
    &&& text_member(m, "startTime"@) == Some(n.start_time@)
    &&& text_member(m, "endTime"@) == Some(n.end_time@)
    &&& text_list_member(m, "itemIds"@) == Some(texts_view(n.item_ids@))
}

/// `None` where `v` is a well-formed node record; else `Some` of what [`reports`] reads.
pub open spec fn node_record_fault(v: JsonValue) -> Option<Option<Seq<char>>> {
    match v {
        JsonValue::Object(m) => match node_fault(m@) {
            None => None,
            Some(key) => Some(Some(key)),
        },
        _ => Some(None),
    }
}

/// The records of a dataset document: the array held by member `key` of the top-level object.
pub open spec fn list_member(doc: JsonValue, key: Seq<char>) -> Option<Seq<JsonValue>> {
    match doc {
        JsonValue::Object(m) => match lookup(m@, key) {
            Some(JsonValue::Array(a)) => Some(a@),
            _ => None,
        },
        _ => None,
    }
}

/// `e` is the error of an item document: `Shape` where it has no `items` array, else the
/// fault of its first record that does not fit the schema.
pub open spec fn item_document_error(doc: JsonValue, e: DecodeError) -> bool {
    match list_member(doc, "items"@) {
        None => e is Shape,
        Some(a) => exists|i: int|
            {
                &&& 0 <= i < a.len()
                &&& forall|j: int| 0 <= j < i ==> #[trigger] item_record_fault(a[j]) is None
                &&& #[trigger] item_record_fault(a[i]) is Some
                &&& reports(e, i, item_record_fault(a[i])->0)
            },
    }
}

/// `e` is the error of an node document: `Shape` where it has no `nodes` array, else the
/// fault of its first record that does not fit the schema.
pub open spec fn node_document_error(doc: JsonValue, e: DecodeError) -> bool {
    match list_member(doc, "nodes"@) {
        None => e is Shape,
        Some(a) => exists|i: int|
            {
                &&& 0 <= i < a.len()
                &&& forall|j: int| 0 <= j < i ==> #[trigger] node_record_fault(a[j]) is None
                &&& #[trigger] node_record_fault(a[i]) is Some
                &&& reports(e, i, node_record_fault(a[i])->0)
            },
    }
}

fn bad_field(key: &str, index: usize) -> (e: DecodeError)
    ensures
        names_field(e, index as int, key@),
{
    DecodeError::BadField { index, field: key.to_owned() }
}

fn text_field(m: &Vec<(String, JsonValue)>, key: &str, index: usize) -> (r: Result<
    String,
    DecodeError,
>)
    ensures
        match r {
            Ok(s) => text_member(m@, key@) == Some(s@),
            Err(e) => text_member(m@, key@) is None && names_field(e, index as int, key@),
        },
{
    match find_member(m, key) {
        Some(i) => match &m[i].1 {
            JsonValue::Str(s) => Ok(s.clone()),
            _ => Err(bad_field(key, index)),
        },
        None => Err(bad_field(key, index)),
    }
}

fn optional_text_field(m: &Vec<(String, JsonValue)>, key: &str, index: usize) -> (r: Result<
    Option<String>,
    DecodeError,
>)
    ensures
        match r {
            Ok(o) => optional_text_fits(m@, key@) && text_member(m@, key@) == opt_view(o),
            Err(e) => !optional_text_fits(m@, key@) && names_field(e, index as int, key@),
        },
{
    match find_member(m, key) {
        Some(i) => match &m[i].1 {
            JsonValue::Str(s) => Ok(Some(s.clone())),
            JsonValue::Null => Ok(None),
            _ => Err(bad_field(key, index)),
        },
        None => Ok(None),
    }
}

fn optional_number_field(m: &Vec<(String, JsonValue)>, key: &str, index: usize) -> (r: Result<
    (),
    DecodeError,
>)
    ensures
        match r {
            Ok(_) => optional_number_fits(m@, key@),
            Err(e) => !optional_number_fits(m@, key@) && names_field(e, index as int, key@),
        },
{
    match find_member(m, key) {
        Some(i) => match &m[i].1 {
            JsonValue::Number(_) => Ok(()),
            JsonValue::Null => Ok(()),
            _ => Err(bad_field(key, index)),
        },
        None => Ok(()),
    }
}

fn text_list_field(m: &Vec<(String, JsonValue)>, key: &str, index: usize) -> (r: Result<
    Vec<String>,
    DecodeError,
>)
    ensures
        match r {
            Ok(v) => text_list_member(m@, key@) == Some(texts_view(v@)),
            Err(e) => text_list_member(m@, key@) is None && names_field(e, index as int, key@),
        },
{
    let i = match find_member(m, key) {
        Some(i) => i,
        None => return Err(bad_field(key, index)),
    };
    let a = match &m[i].1 {
        JsonValue::Array(a) => a,
        _ => return Err(bad_field(key, index)),
    };
    assert(lookup(m@, key@) == Some(JsonValue::Array(*a)));
    let mut out: Vec<String> = Vec::new();
    let mut j: usize = 0;
    while j < a.len()
        invariant
            j <= a@.len(),
            lookup(m@, key@) == Some(JsonValue::Array(*a)),
            out@.len() == j,
            forall|k: int| 0 <= k < j ==> (#[trigger] a@[k]) is Str && out@[k]@ == a@[k]->Str_0@,
        decreases a@.len() - j,
    {
        match &a[j] {
            JsonValue::Str(s) => out.push(s.clone()),
            _ => {
                assert(!(a@[j as int] is Str));
                return Err(bad_field(key, index));
            },
        }
        j = j + 1;
    }
    assert(texts_view(out@) =~= a@.map_values(|v: JsonValue| v->Str_0@));
    Ok(out)
}

/// Moves out the value of member `key`, if there is one.
fn take_member(m: Vec<(String, JsonValue)>, key: &str) -> (r: Option<JsonValue>)
    ensures
        r == lookup(m@, key@),
{
    let mut m = m;
    match find_member(&m, key) {
        Some(i) => {
            let (_, v) = m.remove(i);
            Some(v)
        },
        None => None,
    }
}

/// Reads record `index` of the item list.
pub fn decode_item(v: JsonValue, index: usize) -> (r: Result<Item, DecodeError>)
    ensures
        match item_record_fault(v) {
            None => r matches Ok(it) && item_decoded(v->Object_0@, it),
            Some(fault) => r matches Err(e) && reports(e, index as int, fault),
        },
{
    let m = match v {
        JsonValue::Object(m) => m,
        _ => return Err(DecodeError::NotAnObject { index }),
    };
    let id = match text_field(&m, "id", index) {
        Ok(s) => s,
        Err(e) => return Err(e),
    };
    let name = match text_field(&m, "name", index) {
        Ok(s) => s,
        Err(e) => return Err(e),
    };
    let name_fr = match text_field(&m, "nameFr", index) {
        Ok(s) => s,
        Err(e) => return Err(e),
    };
    let name_de = match text_field(&m, "nameDe", index) {
        Ok(s) => s,
        Err(e) => return Err(e),
    };
    let level = match text_field(&m, "level", index) {
        Ok(s) => s,
        Err(e) => return Err(e),
    };
    let gathering_skill = match text_field(&m, "gatheringSkill", index) {
        Ok(s) => s,
        Err(e) => return Err(e),
    };
    let perception = match text_field(&m, "perception", index) {
        Ok(s) => s,
        Err(e) => return Err(e),
    };
    let image_url = match optional_text_field(&m, "imageUrl", index) {
        Ok(o) => o,
        Err(e) => return Err(e),
    };
    let description = match optional_text_field(&m, "description", index) {
        Ok(o) => o,
        Err(e) => return Err(e),
    };
    let description_fr = match optional_text_field(&m, "descriptionFr", index) {
        Ok(o) => o,
        Err(e) => return Err(e),
    };
    let description_de = match optional_text_field(&m, "descriptionDe", index) {
        Ok(o) => o,
        Err(e) => return Err(e),
    };
    match optional_number_field(&m, "patch", index) {
        Ok(_) => {},
        Err(e) => return Err(e),
    }
    let slot = take_member(m, "slot");
    Ok(
        Item {
            id,
            slot,
            name,
            name_fr,
            name_de,
            level,
            gathering_skill,
            perception,
            image_url,
            description,
            description_fr,
            description_de,
        },
    )
}

/// Reads record `index` of the node list.
pub fn decode_node(v: JsonValue, index: usize) -> (r: Result<Node, DecodeError>)
    ensures
        match node_record_fault(v) {
            None => r matches Ok(n) && node_decoded(v->Object_0@, n),
            Some(fault) => r matches Err(e) && reports(e, index as int, fault),
        },
{
    let m = match v {
        JsonValue::Object(m) => m,
        _ => return Err(DecodeError::NotAnObject { index }),
    };
    let id = match text_field(&m, "id", index) {
        Ok(s) => s,
        Err(e) => return Err(e),
    };
    let type_field = match text_field(&m, "type", index) {
        Ok(s) => s,
        Err(e) => return Err(e),
    };
    let sub_type = match optional_text_field(&m, "subType", index) {
        Ok(o) => o,
        Err(e) => return Err(e),
    };
    let zone = match text_field(&m, "zone", index) {
        Ok(s) => s,
        Err(e) => return Err(e),
    };
    let zone_fr = match text_field(&m, "zoneFr", index) {
        Ok(s) => s,
        Err(e) => return Err(e),
    };
    let zone_de = match text_field(&m, "zoneDe", index) {
        Ok(s) => s,
        Err(e) => return Err(e),
    };
    let teleport = match text_field(&m, "teleport", index) {
        Ok(s) => s,
        Err(e) => return Err(e),
    };
    let teleport_fr = match text_field(&m, "teleportFr", index) {
        Ok(s) => s,
        Err(e) => return Err(e),
    };
    let teleport_de = match text_field(&m, "teleportDe", index) {
        Ok(s) => s,
        Err(e) => return Err(e),
    };
    let start_time = match text_field(&m, "startTime", index) {
        Ok(s) => s,
        Err(e) => return Err(e),
    };
    let end_time = match text_field(&m, "endTime", index) {
        Ok(s) => s,
        Err(e) => return Err(e),
    };
    let item_ids = match text_list_field(&m, "itemIds", index) {
        Ok(v) => v,
        Err(e) => return Err(e),
    };
    let position = take_member(m, "position");
    Ok(
        Node {
            id,
            type_field,
            sub_type,
            zone,
            zone_fr,
            zone_de,
            teleport,
            teleport_fr,
            teleport_de,
            position,
            start_time,
            end_time,
            item_ids,
        },
    )
}

/// Reads an item dataset: a top-level object whose `items` member is an array of item records.
/// The first record that does not fit the schema decides the error.
pub fn decode_items(doc: JsonValue) -> (r: Result<Items, DecodeError>)
    ensures
        match r {
            Ok(d) => list_member(doc, "items"@) matches Some(a) && d.items@.len() == a.len()
                && forall|j: int|
                0 <= j < a.len() ==> #[trigger] item_record_fault(a[j]) is None && item_decoded(
                    a[j]->Object_0@,
                    d.items@[j],
                ),
            Err(e) => item_document_error(doc, e),
        },
{
    let m = match doc {
        JsonValue::Object(m) => m,
        _ => return Err(DecodeError::Shape),
    };
    let mut records = match take_member(m, "items") {
        Some(JsonValue::Array(a)) => a,
        _ => return Err(DecodeError::Shape),
    };
    let ghost all = records@;
    let n = records.len();
    let mut out: Vec<Item> = Vec::new();
    let mut i: usize = 0;
    while i < n
        invariant
            list_member(doc, "items"@) == Some(all),
            n == all.len(),
            records@.len() == n,
            i <= n,
            out@.len() == i,
            forall|j: int| i <= j < n ==> records@[j] == all[j],
            forall|j: int|
                0 <= j < i ==> #[trigger] item_record_fault(all[j]) is None && item_decoded(
                    all[j]->Object_0@,
                    out@[j],
                ),
        decreases n - i,
    {
        let mut record = JsonValue::Null;
        std::mem::swap(&mut records[i], &mut record);
        match decode_item(record, i) {
            Ok(it) => out.push(it),
            Err(e) => {
                assert(item_record_fault(all[i as int]) is Some);
                return Err(e);
            },
        }
        i = i + 1;
    }
    Ok(Items { items: out })
}

/// Reads a node dataset: a top-level object whose `nodes` member is an array of node records.
/// The first record that does not fit the schema decides the error.
pub fn decode_nodes(doc: JsonValue) -> (r: Result<Nodes, DecodeError>)
    ensures
        match r {
            Ok(d) => list_member(doc, "nodes"@) matches Some(a) && d.nodes@.len() == a.len()
                && forall|j: int|
                0 <= j < a.len() ==> #[trigger] node_record_fault(a[j]) is None && node_decoded(
                    a[j]->Object_0@,
                    d.nodes@[j],
                ),
            Err(e) => node_document_error(doc, e),
        },
{
    let m = match doc {
        JsonValue::Object(m) => m,
        _ => return Err(DecodeError::Shape),
    };
    let mut records = match take_member(m, "nodes") {
        Some(JsonValue::Array(a)) => a,
        _ => return Err(DecodeError::Shape),
    };
    let ghost all = records@;
    let n = records.len();
    let mut out: Vec<Node> = Vec::new();
    let mut i: usize = 0;
    while i < n
        invariant
            list_member(doc, "nodes"@) == Some(all),
            n == all.len(),
            records@.len() == n,
            i <= n,
            out@.len() == i,
            forall|j: int| i <= j < n ==> records@[j] == all[j],
            forall|j: int|
                0 <= j < i ==> #[trigger] node_record_fault(all[j]) is None && node_decoded(
                    all[j]->Object_0@,
                    out@[j],
                ),
        decreases n - i,
    {
        let mut record = JsonValue::Null;
        std::mem::swap(&mut records[i], &mut record);
        match decode_node(record, i) {
            Ok(n) => out.push(n),
            Err(e) => {
                assert(node_record_fault(all[i as int]) is Some);
                return Err(e);
            },
        }
        i = i + 1;
    }
    Ok(Nodes { nodes: out })
}

} // verus!
