//! The NodeInfo 2.0 document of this server.

use vstd::prelude::*;

verus! {

/// The NodeInfo 2.0 document, as compact JSON with its keys in order.
pub const NODEINFO_DOCUMENT: &'static str = "{\"openRegistrations\":true,\"protocols\":[\"activitypub\"],\"services\":{\"inbound\":[],\"outbound\":[]},\"software\":{\"name\":\"rust_lambda\",\"version\":1},\"usage\":{\"localPosts\":1,\"users\":{\"total\":1}},\"version\":2.0}";

/// The media type the document is served with: `application/json` with the
/// NodeInfo 2.0 schema as its `profile` parameter.
pub const NODEINFO_MEDIA_TOP: &'static str = "application";
pub const NODEINFO_MEDIA_SUB: &'static str = "json";
pub const NODEINFO_PROFILE_PARAM: &'static str = "profile";
pub const NODEINFO_PROFILE: &'static str = "http://nodeinfo.diaspora.software/ns/schema/2.0#,";

/// A media type: top-level type, subtype and parameters.
pub struct MediaType {
    pub top: String,
    pub sub: String,
    pub params: Vec<(String, String)>,
}

/// The NodeInfo response: the document and its media type.
pub enum NodeInfo {
    A(String, MediaType),
}

/// The NodeInfo document with the media type that names its schema.
pub fn nodeinfo() -> (info: NodeInfo)
    ensures
        info matches NodeInfo::A(doc, media) && {
            &&& doc@ == NODEINFO_DOCUMENT@
            &&& media.top@ == NODEINFO_MEDIA_TOP@
            &&& media.sub@ == NODEINFO_MEDIA_SUB@
            &&& media.params@.len() == 1
            &&& media.params@[0].0@ == NODEINFO_PROFILE_PARAM@
            &&& media.params@[0].1@ == NODEINFO_PROFILE@
        },
{
    let mut params: Vec<(String, String)> = Vec::new();
    params.push((NODEINFO_PROFILE_PARAM.to_owned(), NODEINFO_PROFILE.to_owned()));
    NodeInfo::A(
        NODEINFO_DOCUMENT.to_owned(),
        MediaType { top: NODEINFO_MEDIA_TOP.to_owned(), sub: NODEINFO_MEDIA_SUB.to_owned(), params },
    )
}

} // verus!
