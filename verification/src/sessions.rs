//! What holds after any sequence of requests to the synthesizers.
use crate::integrity::{
    lemma_array_buffer_keeps_resolved, lemma_record_keeps_resolved,
    lemma_typed_array_keeps_resolved, references_resolved, type_resolved,
};
use crate::interface::has_type_def;
use crate::kinds::TypedArrayKind;
use crate::laws::{lemma_array_buffer_once, lemma_record_once, lemma_typed_array_once, well_formed};
use crate::synth::{after_array_buffer, after_record, after_typed_array};
use crate::text::{array_buffer_name, record_name_of_text};
use crate::types::{ItemModel, TypeModel};
use vstd::prelude::*;

verus! {

/// One request to a synthesizer. A record is asked for with the text
/// that its value type renders to and the value type itself.
pub enum Request {
    ArrayBuffer,
    TypedArray(TypedArrayKind),
    Record(Seq<char>, TypeModel),
}

/// The items after one request.
pub open spec fn after_request(items: Seq<ItemModel>, r: Request) -> Seq<ItemModel> {
    match r {
        Request::ArrayBuffer => after_array_buffer(items),
        Request::TypedArray(k) => after_typed_array(items, k),
        Request::Record(text, value) => after_record(items, record_name_of_text(text), value),
    }
}

/// The items after a sequence of requests, served in order.
pub open spec fn after_requests(items: Seq<ItemModel>, rs: Seq<Request>) -> Seq<ItemModel>
    decreases rs.len(),
{
    if rs.len() == 0 {
        items
    } else {
        after_request(after_requests(items, rs.drop_last()), rs.last())
    }
}

/// Whether what a request will refer to is present when it is served: a
/// typed array refers to the array buffer, a record to whatever its value
/// type names.
pub open spec fn served_in_order(items: Seq<ItemModel>, r: Request) -> bool {
    match r {
        Request::ArrayBuffer => true,
        Request::TypedArray(_) => has_type_def(items, array_buffer_name()),
        Request::Record(_, value) => type_resolved(value, items),
    }
}

/// Whether every request of the sequence is served in order.
pub open spec fn all_served_in_order(items: Seq<ItemModel>, rs: Seq<Request>) -> bool
    decreases rs.len(),
{
    rs.len() == 0 || (all_served_in_order(items, rs.drop_last()) && served_in_order(
        after_requests(items, rs.drop_last()),
        rs.last(),
    ))
}

/// Whether `items` is what `after` begins with.
pub open spec fn begins_with(after: Seq<ItemModel>, items: Seq<ItemModel>) -> bool {
    after.len() >= items.len() && after.subrange(0, items.len() as int) == items
}

/// A request only appends: what was there stays, in place.
pub proof fn lemma_request_appends(items: Seq<ItemModel>, r: Request)
    ensures
        begins_with(after_request(items, r), items),
{
    assert(after_request(items, r).subrange(0, items.len() as int) =~= items);
}

/// The interface only grows, whatever is asked for and in whatever order.
pub proof fn lemma_session_appends(items: Seq<ItemModel>, rs: Seq<Request>)
    ensures
        begins_with(after_requests(items, rs), items),
    decreases rs.len(),
{
    if rs.len() == 0 {
        assert(items.subrange(0, items.len() as int) =~= items);
    } else {
        let before = after_requests(items, rs.drop_last());
        lemma_session_appends(items, rs.drop_last());
        lemma_request_appends(before, rs.last());
        let after = after_requests(items, rs);
        assert(after.subrange(0, items.len() as int) =~= before.subrange(
            0,
            items.len() as int,
        ));
    }
}

/// A request keeps a well-formed interface well formed.
pub proof fn lemma_request_well_formed(items: Seq<ItemModel>, r: Request)
    requires
        well_formed(items),
    ensures
        well_formed(after_request(items, r)),
{
    match r {
        Request::ArrayBuffer => lemma_array_buffer_once(items),
        Request::TypedArray(k) => lemma_typed_array_once(items, k),
        Request::Record(text, value) => lemma_record_once(items, text, value, value),
    }
}

/// Names stay unique, and auxiliary types stay with their resource,
/// whatever is asked for and in whatever order.
pub proof fn lemma_session_well_formed(items: Seq<ItemModel>, rs: Seq<Request>)
    requires
        well_formed(items),
    ensures
        well_formed(after_requests(items, rs)),
    decreases rs.len(),
{
    if rs.len() > 0 {
        lemma_session_well_formed(items, rs.drop_last());
        lemma_request_well_formed(after_requests(items, rs.drop_last()), rs.last());
    }
}

/// No reference is left unresolved after any sequence of requests that
/// are served in order.
pub proof fn lemma_session_resolved(items: Seq<ItemModel>, rs: Seq<Request>)
    requires
        references_resolved(items),
        all_served_in_order(items, rs),
    ensures
        references_resolved(after_requests(items, rs)),
    decreases rs.len(),
{
    if rs.len() > 0 {
        lemma_session_resolved(items, rs.drop_last());
        let before = after_requests(items, rs.drop_last());
        match rs.last() {
            Request::ArrayBuffer => lemma_array_buffer_keeps_resolved(before),
            Request::TypedArray(k) => lemma_typed_array_keeps_resolved(before, k),
            Request::Record(text, value) => lemma_record_keeps_resolved(
                before,
                record_name_of_text(text),
                value,
            ),
        }
    }
}

} // verus!
