//! ActivityPub vocabulary: the objects that clients post and the JSON-LD
//! context that accompanies them.

pub mod context;
pub mod object;
