use vstd::prelude::*;

use crate::json::JsonValue;

verus! {

/// An item as the input dataset writes it: one key per language.
#[derive(Debug, PartialEq, Eq)]
pub struct Item {
    pub id: String,
    /// The slot as written, loosely typed; `None` where the key is absent.
    pub slot: Option<JsonValue>,
    pub name: String,
    pub name_fr: String,
    pub name_de: String,
    pub level: String,
    pub gathering_skill: String,
    pub perception: String,
    pub image_url: Option<String>,
    pub description: Option<String>,
    pub description_fr: Option<String>,
    pub description_de: Option<String>,
}

/// The item dataset, in file order.
#[derive(Debug, PartialEq, Eq)]
pub struct Items {
    pub items: Vec<Item>,
}

/// A gathering node as the input dataset writes it.
#[derive(Debug, PartialEq, Eq)]
pub struct Node {
    pub id: String,
    pub type_field: String,
    pub sub_type: Option<String>,
    pub zone: String,
    pub zone_fr: String,
    pub zone_de: String,
    pub teleport: String,
    pub teleport_fr: String,
    pub teleport_de: String,
    /// The position as written, loosely typed; `None` where the key is absent.
    pub position: Option<JsonValue>,
    pub start_time: String,
    pub end_time: String,
    pub item_ids: Vec<String>,
}

/// The node dataset, in file order.
#[derive(Debug, PartialEq, Eq)]
pub struct Nodes {
    pub nodes: Vec<Node>,
}

/// One text in the three languages of the output.
#[derive(Debug, PartialEq, Eq)]
pub struct LocalizedString {
    pub en: String,
    pub fr: String,
    pub de: String,
}

impl LocalizedString {
    pub fn new(en: String, fr: String, de: String) -> (r: LocalizedString)
        ensures
            r.en == en,
            r.fr == fr,
            r.de == de,
    {
        LocalizedString { en, fr, de }
    }
}

/// A point on a map, in whole units.
#[derive(Clone, Copy, Debug, PartialEq, Eq, Structural)]
pub struct Position {
    pub x: i64,
    pub y: i64,
}

impl Default for Position {
    fn default() -> (r: Position)
        ensures
            r == (Position { x: 0, y: 0 }),
    {
        Position { x: 0, y: 0 }
    }
}

/// An item of the output dataset.
#[derive(Debug, PartialEq, Eq)]
pub struct OutputItem {
    pub id: String,
    pub slot: i8,
    pub name: LocalizedString,
    pub level: String,
    pub gathering_skill: String,
    pub perception: String,
    pub image_url: String,
    pub description: LocalizedString,
}

/// A gathering node of the output dataset.
#[derive(Debug, PartialEq, Eq)]
pub struct OutputNode {
    pub id: String,
    pub type_field: String,
    pub sub_type: String,
    pub zone: LocalizedString,
    pub teleport: LocalizedString,
    pub position: Position,
    pub start_time: String,
    pub end_time: String,
    pub items: Vec<String>,
}

/// What a [`LocalizedString`] says.
pub struct LocalizedText {
    pub en: Seq<char>,
    pub fr: Seq<char>,
    pub de: Seq<char>,
}

impl View for LocalizedString {
    type V = LocalizedText;

    open spec fn view(&self) -> LocalizedText {
        LocalizedText { en: self.en@, fr: self.fr@, de: self.de@ }
    }
}

/// What an [`OutputItem`] says: the content of its serialized form.
pub struct OutputItemView {
    pub id: Seq<char>,
    pub slot: i8,
    pub name: LocalizedText,
    pub level: Seq<char>,
    pub gathering_skill: Seq<char>,
    pub perception: Seq<char>,
    pub image_url: Seq<char>,
    pub description: LocalizedText,
}

impl View for OutputItem {
    type V = OutputItemView;

    open spec fn view(&self) -> OutputItemView {
        OutputItemView {
            id: self.id@,
            slot: self.slot,
            name: self.name@,
            level: self.level@,
            gathering_skill: self.gathering_skill@,
            perception: self.perception@,
            image_url: self.image_url@,
            description: self.description@,
        }
    }
}

/// What an [`OutputNode`] says: the content of its serialized form.
pub struct OutputNodeView {
    pub id: Seq<char>,
    pub type_field: Seq<char>,
    pub sub_type: Seq<char>,
    pub zone: LocalizedText,
    pub teleport: LocalizedText,
    pub position: Position,
    pub start_time: Seq<char>,
    pub end_time: Seq<char>,
    pub items: Seq<Seq<char>>,
}

impl View for OutputNode {
    type V = OutputNodeView;

    open spec fn view(&self) -> OutputNodeView {
        OutputNodeView {
            id: self.id@,
            type_field: self.type_field@,
            sub_type: self.sub_type@,
            zone: self.zone@,
            teleport: self.teleport@,
            position: self.position,
            start_time: self.start_time@,
            end_time: self.end_time@,
            items: self.items@.map_values(|s: String| s@),
        }
    }
}

} // verus!
