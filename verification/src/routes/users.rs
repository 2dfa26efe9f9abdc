//! Reading one status of a user.

use vstd::prelude::*;

use crate::activitypub::object::Object;

verus! {

/// The answer to a status read: the status itself, or a 404 with the given body.
pub enum ObjectResponder {
    A(Object),
    B(String),
}

/// The answer once the stored item has been decoded into a status, or has
/// failed to decode (`None`): the status, or an empty 404.
pub fn user_statuses_response(decoded: Option<Object>) -> (response: ObjectResponder)
    ensures
        match decoded {
            Some(object) => response == ObjectResponder::A(object),
            None => response matches ObjectResponder::B(body) && body@ == Seq::<char>::empty(),
        },
{
    match decoded {
        Some(object) => ObjectResponder::A(object),
        None => ObjectResponder::B(String::new()),
    }
}

} // verus!
