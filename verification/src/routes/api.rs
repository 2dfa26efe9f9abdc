//! Posting a status.

use vstd::prelude::*;

use crate::activitypub::object::{is_note, spec_is_note, Object, ObjectView};
use crate::attribute::{is_string_attr, AttributeValue, Item};
use crate::dynamodb::{
    get_uuid, is_drawn_uuid, is_v4_uuid_bytes, lower_hex, DrawnUuid, is_get_item_request, is_put_item_request, is_simple_v4_uuid, lemma_read_names_written_item,
    put_item_request, GetItemRequest, PutItemRequest, PARTITION_KEY_NAME,
};

verus! {

/// What posting a status comes to: the request that stores it under a fresh
/// identifier, which is then the answer; or, for an object that is not a note,
/// nothing stored and no answer.
pub enum StatusPost {
    Store { partition: String, request: PutItemRequest },
    Refuse,
}

/// `post` is what posting `object`, stored as `values`, to `table_name` comes
/// to: a note is stored under a fresh random identifier, which is the answer;
/// any other object is refused.
pub open spec fn is_status_post(
    post: StatusPost,
    table_name: Seq<char>,
    object: ObjectView,
    values: Map<Seq<char>, AttributeValue>,
) -> bool {
    &&& spec_is_note(object) <==> post is Store
    &&& post matches StatusPost::Store { partition, request } ==> {
        &&& is_simple_v4_uuid(partition@)
        &&& is_drawn_uuid(partition@)
        &&& is_put_item_request(request, table_name, partition@, values)
    }
}

pub fn statuses(table_name: &str, object: &Object, values: Item) -> (post: StatusPost)
    ensures
        is_status_post(post, table_name@, object@, values@),
{
    if !is_note(object) {
        return StatusPost::Refuse;
    }
    let partition = get_uuid();
    let request = put_item_request(table_name, partition.as_str(), values);
    StatusPost::Store { partition, request }
}

/// A posted note is read back by the identifier its post answered with: the
/// read of that identifier names the item the post wrote (where the values the
/// note is stored as do not set the partition key themselves).
pub proof fn lemma_posted_status_read_back_by_answer(
    post: StatusPost,
    table_name: Seq<char>,
    object: ObjectView,
    values: Map<Seq<char>, AttributeValue>,
    get: GetItemRequest,
)
    requires
        is_status_post(post, table_name, object, values),
        spec_is_note(object),
        !values.dom().contains(PARTITION_KEY_NAME@),
        is_get_item_request(get, table_name, post->partition@),
    ensures
        post matches StatusPost::Store { partition, request } && {
            &&& get.table_name@ == request.table_name@
            &&& get.key@.dom().subset_of(request.item@.dom())
            &&& forall|name: Seq<char>| #[trigger] get.key@.dom().contains(name) ==> {
                &&& is_string_attr(get.key@[name], partition@)
                &&& is_string_attr(request.item@[name], partition@)
            }
        },
{
    match post {
        StatusPost::Store { partition, request } => {
            lemma_read_names_written_item(request, get, table_name, partition@, values);
        },
        StatusPost::Refuse => {},
    }
}

/// A posted note is stored under an identifier drawn from the random source
/// for that post, which is the answer; the write carries that identifier as
/// its partition key unless the stored values set the key themselves.
pub proof fn lemma_status_stored_under_drawn_uuid(
    post: StatusPost,
    table_name: Seq<char>,
    object: ObjectView,
    values: Map<Seq<char>, AttributeValue>,
)
    requires
        is_status_post(post, table_name, object, values),
        object.object_type == "Note"@,
    ensures
        post matches StatusPost::Store { partition, request } && {
            &&& exists|drawn: DrawnUuid| is_v4_uuid_bytes(drawn@) && partition@ == #[trigger] lower_hex(drawn@)
            &&& request.table_name@ == table_name
            &&& !values.dom().contains(PARTITION_KEY_NAME@) ==> is_string_attr(
                request.item@[PARTITION_KEY_NAME@],
                partition@,
            )
        },
{
}

/// Posting an object that is not a note stores nothing.
pub proof fn lemma_non_note_refused(
    post: StatusPost,
    table_name: Seq<char>,
    object: ObjectView,
    values: Map<Seq<char>, AttributeValue>,
)
    requires
        is_status_post(post, table_name, object, values),
        object.object_type != "Note"@,
    ensures
        post is Refuse,
{
}

} // verus!
