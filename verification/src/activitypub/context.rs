//! The JSON-LD context of ActivityPub documents as Mastodon writes it.

use vstd::prelude::*;

verus! {

/// The `focalPoint` term of the context.
pub struct FocalPoint {
    /// The term's `@container`.
    pub _container: String,
    /// The term's `@id`.
    pub _id: String,
}

/// The extension terms that Mastodon adds to the ActivityStreams context.
pub struct Context {
    pub ostatus: String,
    pub atom_uri: String,
    pub in_reply_to_atom_uri: String,
    pub conversation: String,
    pub sensitive: String,
    pub toot: String,
    pub voters_count: String,
    pub blurhash: String,
    pub focal_point: FocalPoint,
    /// The `Hashtag` term, which documents may leave out.
    pub hashtag: Option<String>,
}

/// An entry of a `@context` list: either the URL of a context or a context
/// written out.
pub enum StringOrContext {
    String(String),
    Context(Box<Context>),
}

} // verus!
