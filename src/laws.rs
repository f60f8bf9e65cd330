use vstd::prelude::*;

use crate::convert::{
    item_document_output,
    item_output,
    item_views,
    node_document_output,
    node_views,
    record_item_output,
    record_node_output,
};
use crate::decode::list_member;
use crate::json::JsonValue;
use crate::records::{Item, LocalizedText, OutputItem, OutputNode};

verus! {

/// Converting the same item document twice gives the same output records, in the
/// same order, both times: what is written out does not depend on the run.
pub proof fn lemma_item_conversion_repeatable(
    doc: JsonValue,
    first: Seq<OutputItem>,
    second: Seq<OutputItem>,
)
    requires
        item_document_output(doc) == Some(item_views(first)),
        item_document_output(doc) == Some(item_views(second)),
    ensures
        item_views(first) == item_views(second),
        first.len() == second.len(),
{
    assert(item_views(first).len() == first.len());
    assert(item_views(second).len() == second.len());
}

/// Converting the same node document twice gives the same output records, in the
/// same order, both times: what is written out does not depend on the run.
pub proof fn lemma_node_conversion_repeatable(
    doc: JsonValue,
    first: Seq<OutputNode>,
    second: Seq<OutputNode>,
)
    requires
        node_document_output(doc) == Some(node_views(first)),
        node_document_output(doc) == Some(node_views(second)),
    ensures
        node_views(first) == node_views(second),
        first.len() == second.len(),
{
    assert(node_views(first).len() == first.len());
    assert(node_views(second).len() == second.len());
}

/// A converted item document holds one output item for each input record, in file
/// order: output `j` is the mapping of record `j`; nothing is dropped, added or moved.
pub proof fn lemma_item_records_kept_in_order(doc: JsonValue, out: Seq<OutputItem>)
    requires
        item_document_output(doc) == Some(item_views(out)),
    ensures
        list_member(doc, "items"@) is Some,
        out.len() == list_member(doc, "items"@)->0.len(),
        forall|j: int|
            0 <= j < out.len() ==> (#[trigger] out[j])@ == record_item_output(
                list_member(doc, "items"@)->0[j]->Object_0@,
            ),
{
    let a = list_member(doc, "items"@)->0;
    assert(item_views(out).len() == out.len());
    assert forall|j: int| 0 <= j < out.len() implies (#[trigger] out[j])@ == record_item_output(
        a[j]->Object_0@,
    ) by {
        assert(item_views(out)[j] == out[j]@);
    }
}

/// A converted node document holds one output node for each input record, in file
/// order: output `j` is the mapping of record `j`; nothing is dropped, added or moved.
pub proof fn lemma_node_records_kept_in_order(doc: JsonValue, out: Seq<OutputNode>)
    requires
        node_document_output(doc) == Some(node_views(out)),
    ensures
        list_member(doc, "nodes"@) is Some,
        out.len() == list_member(doc, "nodes"@)->0.len(),
        forall|j: int|
            0 <= j < out.len() ==> (#[trigger] out[j])@ == record_node_output(
                list_member(doc, "nodes"@)->0[j]->Object_0@,
            ),
{
    let a = list_member(doc, "nodes"@)->0;
    assert(node_views(out).len() == out.len());
    assert forall|j: int| 0 <= j < out.len() implies (#[trigger] out[j])@ == record_node_output(
        a[j]->Object_0@,
    ) by {
        assert(node_views(out)[j] == out[j]@);
    }
}

/// An item with an English description and no French or German one gets that
/// description in English and empty texts in the other two languages.
pub proof fn lemma_description_defaults(it: Item)
    requires
        it.description is Some,
        it.description_fr is None,
        it.description_de is None,
    ensures
        item_output(it).description == (LocalizedText {
            en: it.description->0@,
            fr: Seq::empty(),
            de: Seq::empty(),
        }),
{
}

} // verus!
