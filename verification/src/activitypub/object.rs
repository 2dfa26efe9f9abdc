//! The ActivityPub object that clients post as a status.

use vstd::prelude::*;

verus! {

/// The type name of the objects that are stored as statuses.
pub const NOTE_TYPE: &'static str = "Note";

/// An ActivityPub object, with the properties this service reads.
pub struct Object {
    /// The object's `type`, such as `Note`.
    pub object_type: String,
    pub content: Option<String>,
    pub published: Option<String>,
    pub sensitive: Option<bool>,
}

/// The object's properties as values.
pub struct ObjectView {
    pub object_type: Seq<char>,
    pub content: Option<Seq<char>>,
    pub published: Option<Seq<char>>,
    pub sensitive: Option<bool>,
}

pub open spec fn option_string_view(s: Option<String>) -> Option<Seq<char>> {
    match s {
        Some(t) => Some(t@),
        None => None,
    }
}

impl View for Object {
    type V = ObjectView;

    open spec fn view(&self) -> ObjectView {
        ObjectView {
            object_type: self.object_type@,
            content: option_string_view(self.content),
            published: option_string_view(self.published),
            sensitive: self.sensitive,
        }
    }
}

/// The object is a note.
pub open spec fn spec_is_note(object: ObjectView) -> bool {
    object.object_type == NOTE_TYPE@
}

/// The object has every property that a stored note is made of.
pub open spec fn note_is_complete(object: ObjectView) -> bool {
    &&& object.content is Some
    &&& object.published is Some
    &&& object.sensitive is Some
}

/// Whether the object is a note, the only kind of status this service stores.
pub fn is_note(object: &Object) -> (note: bool)
    ensures
        note == spec_is_note(object@),
        note == (object.object_type@ == "Note"@),
{
    object.object_type == NOTE_TYPE.to_owned()
}

/// An object is a note, and so stored as a status, exactly when its type is
/// the text `Note`.
pub proof fn lemma_note_is_type_note(object: ObjectView)
    ensures
        spec_is_note(object) <==> object.object_type == "Note"@,
{
}

} // verus!
