//! The request handler of the serverless deployment, as a state machine: it
//! takes the request, asks for the outside work it needs (parsing a body, a
//! table read or write, decoding or rendering a status) one action at a time,
//! and ends with the response. Posted notes are stored under identifiers it
//! draws itself; a status is read under the identifier its path names.

use vstd::prelude::*;

use crate::activitypub::object::{is_note, note_is_complete, spec_is_note, Object, ObjectView};
use crate::attribute::{is_bool_attr, is_string_attr, AttributeValue, Item};
use crate::dynamodb::{
    get_item_request, get_uuid, is_drawn_uuid, is_v4_uuid_bytes, lower_hex, DrawnUuid, is_get_item_request, is_put_item_request, is_simple_v4_uuid,
    lower_hex_digits, put_item_request, GetItemRequest, PutItemRequest, PARTITION_KEY_NAME,
};
use crate::http::{
    bad_request, is_bad_request, is_json_ok, is_plain_ok, json_ok, plain_ok, Body, Request,
    Response,
};
use crate::routes::nodeinfo::NODEINFO_DOCUMENT;
use crate::routing::{
    is_segment, lemma_route_of_user_status_path, route, route_of, user_status_path, Route, RouteView,
    NODEINFO_PATH, STATUSES_PATH,
};

verus! {

/// The attribute names a note is stored with, besides the partition key.
pub const TYPE_ATTR: &'static str = "type";
pub const CONTENT_ATTR: &'static str = "content";
pub const PUBLISHED_ATTR: &'static str = "published";
pub const SENSITIVE_ATTR: &'static str = "sensitive";

/// `item` is what a note is stored as (besides its partition key): its type,
/// content and publication time as strings and its sensitivity as a boolean.
pub open spec fn is_note_item(item: Map<Seq<char>, AttributeValue>, note: ObjectView) -> bool {
    &&& item.dom() == set![TYPE_ATTR@, CONTENT_ATTR@, PUBLISHED_ATTR@, SENSITIVE_ATTR@]
    &&& is_string_attr(item[TYPE_ATTR@], note.object_type)
    &&& is_string_attr(item[CONTENT_ATTR@], note.content.unwrap())
    &&& is_string_attr(item[PUBLISHED_ATTR@], note.published.unwrap())
    &&& is_bool_attr(item[SENSITIVE_ATTR@], note.sensitive.unwrap())
}

/// The attributes a complete note is stored with.
pub fn note_item(note: Object) -> (item: Item)
    requires
        note_is_complete(note@),
    ensures
        is_note_item(item@, note@),
{
    let ghost v = note@;
    let Object { object_type, content, published, sensitive } = note;
    let content = content.unwrap();
    let published = published.unwrap();
    let sensitive = sensitive.unwrap();
    proof {
        reveal_strlit("type");
        reveal_strlit("content");
        reveal_strlit("published");
        reveal_strlit("sensitive");
        assert(TYPE_ATTR@[0] != CONTENT_ATTR@[0]);
        assert(TYPE_ATTR@[0] != PUBLISHED_ATTR@[0]);
        assert(TYPE_ATTR@[0] != SENSITIVE_ATTR@[0]);
        assert(CONTENT_ATTR@[0] != PUBLISHED_ATTR@[0]);
        assert(CONTENT_ATTR@[0] != SENSITIVE_ATTR@[0]);
        assert(PUBLISHED_ATTR@[0] != SENSITIVE_ATTR@[0]);
    }
    let mut item = Item::new();
    item.insert(TYPE_ATTR.to_owned(), AttributeValue::S(object_type));
    item.insert(CONTENT_ATTR.to_owned(), AttributeValue::S(content));
    item.insert(PUBLISHED_ATTR.to_owned(), AttributeValue::S(published));
    item.insert(SENSITIVE_ATTR.to_owned(), AttributeValue::Bool(sensitive));
    proof {
        assert(item@.dom() =~= set![TYPE_ATTR@, CONTENT_ATTR@, PUBLISHED_ATTR@, SENSITIVE_ATTR@]);
    }
    item
}

/// The write of a note's attributes under a partition key stores the note
/// under that key.
proof fn lemma_note_put(
    request: PutItemRequest,
    table_name: Seq<char>,
    partition: Seq<char>,
    values: Map<Seq<char>, AttributeValue>,
    note: ObjectView,
)
    requires
        is_put_item_request(request, table_name, partition, values),
        is_note_item(values, note),
    ensures
        is_note_put(request, table_name, partition, note),
{
    reveal_strlit("partition");
    reveal_strlit("type");
    reveal_strlit("content");
    reveal_strlit("published");
    reveal_strlit("sensitive");
    assert(PARTITION_KEY_NAME@[0] != TYPE_ATTR@[0]);
    assert(PARTITION_KEY_NAME@[0] != CONTENT_ATTR@[0]);
    assert(PARTITION_KEY_NAME@[1] != PUBLISHED_ATTR@[1]);
    assert(PARTITION_KEY_NAME@[0] != SENSITIVE_ATTR@[0]);
    assert(!values.dom().contains(PARTITION_KEY_NAME@));
    assert(request.item@.remove(PARTITION_KEY_NAME@) =~= values);
}

/// Where the handler stands.
pub enum Phase {
    /// Waiting for the posted body to be parsed into an object.
    AwaitParsed,
    /// Waiting for the note stored under `partition` to be written.
    AwaitStored { partition: String },
    /// Waiting for the item read from the table (which must be there).
    AwaitFetched,
    /// Waiting for the item to be decoded into a status.
    AwaitDecoded,
    /// Waiting for the status to be rendered as JSON.
    AwaitRendered,
    /// Answered.
    Done,
}

/// What the outside world reports back to the handler.
pub enum Event {
    /// The posted body, parsed.
    Parsed(Object),
    /// The item was written.
    Stored,
    /// The item was read, and was there.
    Fetched,
    /// The item was decoded into a status (`true`) or failed to (`false`).
    Decoded(bool),
    /// The status rendered as JSON.
    Rendered(String),
}

/// What the handler asks of the outside world next.
pub enum Action {
    /// Answer with this response; handling is over.
    Respond(Response),
    /// Parse this body into an object.
    ParseStatus(String),
    /// Send this write.
    PutItem(PutItemRequest),
    /// Send this read.
    GetItem(GetItemRequest),
    /// Decode the item that was read into a status.
    DecodeItem,
    /// Render the decoded status as JSON.
    RenderJson,
    /// Fail with the decoding error; handling is over.
    Fail,
}

/// The request handler: the table it works on and where it stands.
pub struct Handler {
    pub table_name: String,
    pub phase: Phase,
}

/// An upper bound on the events a handler in `phase` still takes.
pub open spec fn steps_left(phase: Phase) -> nat {
    match phase {
        Phase::AwaitParsed => 2,
        Phase::AwaitStored { .. } => 1,
        Phase::AwaitFetched => 3,
        Phase::AwaitDecoded => 2,
        Phase::AwaitRendered => 1,
        Phase::Done => 0,
    }
}

/// `action` ends the handling.
pub open spec fn is_final(action: Action) -> bool {
    action is Respond || action is Fail
}

/// `a` answers with a 400 and an empty body.
pub open spec fn answers_bad_request(a: Action) -> bool {
    a matches Action::Respond(r) && is_bad_request(r)
}

/// `a` answers with a 200 and the plain body `body`.
pub open spec fn answers_plain_ok(a: Action, body: Seq<char>) -> bool {
    a matches Action::Respond(r) && is_plain_ok(r, body)
}

/// `a` answers with a 200 and the JSON body `body`.
pub open spec fn answers_json_ok(a: Action, body: Seq<char>) -> bool {
    a matches Action::Respond(r) && is_json_ok(r, body)
}

/// `a` asks for `text` to be parsed into an object.
pub open spec fn asks_to_parse(a: Action, text: Seq<char>) -> bool {
    a matches Action::ParseStatus(t) && t@ == text
}

/// `request` stores, in the table `table_name`, the note `note` under the
/// partition key `partition`: the partition key and the note's attributes.
pub open spec fn is_note_put(request: PutItemRequest, table_name: Seq<char>, partition: Seq<char>, note: ObjectView) -> bool {
    &&& request.table_name@ == table_name
    &&& request.item@.dom().contains(PARTITION_KEY_NAME@)
    &&& is_string_attr(request.item@[PARTITION_KEY_NAME@], partition)
    &&& is_note_item(request.item@.remove(PARTITION_KEY_NAME@), note)
}

/// `a` writes the note `note` under `partition` into `table_name`.
pub open spec fn puts_note(a: Action, table_name: Seq<char>, partition: Seq<char>, note: ObjectView) -> bool {
    a matches Action::PutItem(request) && is_note_put(request, table_name, partition, note)
}

/// `a` reads the item under `partition` from `table_name`.
pub open spec fn gets_key(a: Action, table_name: Seq<char>, partition: Seq<char>) -> bool {
    a matches Action::GetItem(request) && is_get_item_request(request, table_name, partition)
}

/// What starting on `request` with the table `table_name` gives.
pub open spec fn start_spec(table_name: Seq<char>, request: Request, h: Handler, a: Action) -> bool {
    &&& h.table_name@ == table_name
    &&& match route_of(request.path@) {
        RouteView::Statuses => match request.body {
            Body::Text(text) => h.phase is AwaitParsed && asks_to_parse(a, text@),
            _ => h.phase is Done && answers_bad_request(a),
        },
        RouteView::NodeInfo => h.phase is Done && answers_json_ok(a, NODEINFO_DOCUMENT@),
        RouteView::UserStatus(id) => h.phase is AwaitFetched && gets_key(a, table_name, id),
        RouteView::Unknown => h.phase is Done && answers_bad_request(a),
    }
}

impl Handler {
    /// The handler takes `event` where it stands; a posted note must have the
    /// properties it is stored with.
    pub open spec fn expects(self, event: Event) -> bool {
        match event {
            Event::Parsed(object) => self.phase is AwaitParsed && (spec_is_note(object@)
                ==> note_is_complete(object@)),
            Event::Stored => self.phase is AwaitStored,
            Event::Fetched => self.phase is AwaitFetched,
            Event::Decoded(_) => self.phase is AwaitDecoded,
            Event::Rendered(_) => self.phase is AwaitRendered,
        }
    }

    /// Whether the handler takes `event` where it stands.
    pub fn accepts(&self, event: &Event) -> (ok: bool)
        ensures
            ok == self.expects(*event),
    {
        match event {
            Event::Parsed(object) => matches!(self.phase, Phase::AwaitParsed) && (!is_note(object)
                || (object.content.is_some() && object.published.is_some()
                && object.sensitive.is_some())),
            Event::Stored => matches!(self.phase, Phase::AwaitStored { .. }),
            Event::Fetched => matches!(self.phase, Phase::AwaitFetched),
            Event::Decoded(_) => matches!(self.phase, Phase::AwaitDecoded),
            Event::Rendered(_) => matches!(self.phase, Phase::AwaitRendered),
        }
    }

    /// What taking `event` in `self` gives: the next handler `h` and action
    /// `a`. A posted note is stored under a fresh random identifier.
    pub open spec fn step_spec(self, event: Event, h: Handler, a: Action) -> bool {
        &&& h.table_name@ == self.table_name@
        &&& match event {
            Event::Parsed(object) => if spec_is_note(object@) {
                &&& h.phase matches Phase::AwaitStored { partition } && {
                    &&& is_simple_v4_uuid(partition@)
                    &&& is_drawn_uuid(partition@)
                    &&& puts_note(a, self.table_name@, partition@, object@)
                }
            } else {
                h.phase is Done && answers_bad_request(a)
            },
            Event::Stored => match self.phase {
                Phase::AwaitStored { partition } => h.phase is Done && answers_plain_ok(a, partition@),
                _ => false,
            },
            Event::Fetched => h.phase is AwaitDecoded && a is DecodeItem,
            Event::Decoded(ok) => if ok {
                h.phase is AwaitRendered && a is RenderJson
            } else {
                h.phase is Done && a is Fail
            },
            Event::Rendered(json) => h.phase is Done && answers_json_ok(a, json@),
        }
    }

    /// Takes `event`: the next handler and what it asks for.
    pub fn step(self, event: Event) -> (res: (Handler, Action))
        requires
            self.expects(event),
        ensures
            self.step_spec(event, res.0, res.1),
            steps_left(res.0.phase) < steps_left(self.phase),
            is_final(res.1) <==> res.0.phase is Done,
    {
        let Handler { table_name, phase } = self;
        match event {
            Event::Parsed(object) => {
                if is_note(&object) {
                    let ghost note_view = object@;
                    let partition = get_uuid();
                    let values = note_item(object);
                    let ghost values_view = values@;
                    let request = put_item_request(table_name.as_str(), partition.as_str(), values);
                    proof {
                        lemma_note_put(request, table_name@, partition@, values_view, note_view);
                    }
                    (Handler { table_name, phase: Phase::AwaitStored { partition } }, Action::PutItem(request))
                } else {
                    (Handler { table_name, phase: Phase::Done }, Action::Respond(bad_request()))
                }
            },
            Event::Stored => match phase {
                Phase::AwaitStored { partition } => {
                    (Handler { table_name, phase: Phase::Done }, Action::Respond(plain_ok(partition)))
                },
                _ => {
                    proof {
                        assert(false);
                    }
                    (Handler { table_name, phase: Phase::Done }, Action::Fail)
                },
            },
            Event::Fetched => (Handler { table_name, phase: Phase::AwaitDecoded }, Action::DecodeItem),
            Event::Decoded(ok) => {
                if ok {
                    (Handler { table_name, phase: Phase::AwaitRendered }, Action::RenderJson)
                } else {
                    (Handler { table_name, phase: Phase::Done }, Action::Fail)
                }
            },
            Event::Rendered(json) => {
                (Handler { table_name, phase: Phase::Done }, Action::Respond(json_ok(json)))
            },
        }
    }

    /// Starts handling `request` against the table `table_name`.
    pub fn start(table_name: String, request: &Request) -> (res: (Handler, Action))
        ensures
            start_spec(table_name@, *request, res.0, res.1),
            steps_left(res.0.phase) <= 3,
            is_final(res.1) <==> res.0.phase is Done,
    {
        match route(request.path.as_str()) {
            Route::Statuses => match &request.body {
                Body::Text(text) => (
                    Handler { table_name, phase: Phase::AwaitParsed },
                    Action::ParseStatus(text.clone()),
                ),
                _ => (Handler { table_name, phase: Phase::Done }, Action::Respond(bad_request())),
            },
            Route::NodeInfo => (
                Handler { table_name, phase: Phase::Done },
                Action::Respond(json_ok(NODEINFO_DOCUMENT.to_owned())),
            ),
            Route::UserStatus(id) => {
                let request = get_item_request(table_name.as_str(), id.as_str());
                (Handler { table_name, phase: Phase::AwaitFetched }, Action::GetItem(request))
            },
            Route::Unknown => (Handler { table_name, phase: Phase::Done }, Action::Respond(bad_request())),
        }
    }
}

/// A note posted as text is parsed, stored under a fresh random identifier
/// as its partition key together with its type, content, publication time
/// and sensitivity, and the answer is that identifier.
pub proof fn lemma_posted_note_answered_with_its_key(
    table_name: Seq<char>,
    request: Request,
    h0: Handler,
    a0: Action,
    object: Object,
    h1: Handler,
    a1: Action,
    h2: Handler,
    a2: Action,
)
    requires
        request.path@ == STATUSES_PATH@,
        request.body is Text,
        start_spec(table_name, request, h0, a0),
        spec_is_note(object@),
        h0.step_spec(Event::Parsed(object), h1, a1),
        h1.step_spec(Event::Stored, h2, a2),
    ensures
        asks_to_parse(a0, request.body->Text_0@),
        h1.phase matches Phase::AwaitStored { partition } && {
            &&& is_simple_v4_uuid(partition@)
            &&& puts_note(a1, table_name, partition@, object@)
            &&& answers_plain_ok(a2, partition@)
        },
        h2.phase is Done,
{
}

/// A status identifier is a path segment: it holds no `/`.
proof fn lemma_uuid_is_segment(id: Seq<char>)
    requires
        is_simple_v4_uuid(id),
    ensures
        is_segment(id),
{
    let d = lower_hex_digits();
    assert forall|i: int| 0 <= i < id.len() implies id[i] != '/' by {
        assert(d.contains(id[i]));
        let k = choose|k: int| 0 <= k < d.len() && d[k] == id[i];
        assert(k == 0 || k == 1 || k == 2 || k == 3 || k == 4 || k == 5 || k == 6 || k == 7 || k == 8
            || k == 9 || k == 10 || k == 11 || k == 12 || k == 13 || k == 14 || k == 15);
    }
}

/// A posted note is read back by the identifier its post answered with: the
/// path of that identifier, under any user, routes to a read of that key in
/// the same table, which is the partition key of the item the post wrote.
pub proof fn lemma_posted_note_read_back_by_its_key(
    table_name: Seq<char>,
    post: Request,
    h0: Handler,
    a0: Action,
    object: Object,
    h1: Handler,
    a1: Action,
    h2: Handler,
    a2: Action,
    user: Seq<char>,
    read: Request,
    h3: Handler,
    a3: Action,
)
    requires
        post.path@ == STATUSES_PATH@,
        post.body is Text,
        start_spec(table_name, post, h0, a0),
        spec_is_note(object@),
        h0.step_spec(Event::Parsed(object), h1, a1),
        h1.step_spec(Event::Stored, h2, a2),
        is_segment(user),
        h1.phase matches Phase::AwaitStored { partition } && read.path@ == user_status_path(user, partition@),
        start_spec(table_name, read, h3, a3),
    ensures
        h3.phase is AwaitFetched,
        a1 matches Action::PutItem(w) && a3 matches Action::GetItem(g) && {
            &&& g.table_name@ == w.table_name@
            &&& g.key@.dom().subset_of(w.item@.dom())
            &&& forall|name: Seq<char>| #[trigger] g.key@.dom().contains(name) ==> {
                &&& is_string_attr(g.key@[name], h1.phase->partition@)
                &&& is_string_attr(w.item@[name], h1.phase->partition@)
            }
        },
{
    let id = h1.phase->partition@;
    lemma_uuid_is_segment(id);
    lemma_route_of_user_status_path(user, id);
}

/// Reading a user's status does not depend on the user: the paths of one
/// status identifier under any two users start the same read of that key.
pub proof fn lemma_user_status_read_ignores_user(
    table_name: Seq<char>,
    u1: Seq<char>,
    u2: Seq<char>,
    id: Seq<char>,
    r1: Request,
    h1: Handler,
    a1: Action,
    r2: Request,
    h2: Handler,
    a2: Action,
)
    requires
        is_segment(u1),
        is_segment(u2),
        is_segment(id),
        r1.path@ == user_status_path(u1, id),
        r2.path@ == user_status_path(u2, id),
        start_spec(table_name, r1, h1, a1),
        start_spec(table_name, r2, h2, a2),
    ensures
        h1.phase is AwaitFetched,
        h2.phase is AwaitFetched,
        gets_key(a1, table_name, id),
        gets_key(a2, table_name, id),
{
    lemma_route_of_user_status_path(u1, id);
    lemma_route_of_user_status_path(u2, id);
}

/// The status read answers with the status rendered as JSON, or fails where
/// the item read does not decode.
pub proof fn lemma_status_read_answered_with_rendering(
    h0: Handler,
    h1: Handler,
    a1: Action,
    decoded: bool,
    h2: Handler,
    a2: Action,
)
    requires
        h0.phase is AwaitFetched,
        h0.step_spec(Event::Fetched, h1, a1),
        h1.step_spec(Event::Decoded(decoded), h2, a2),
    ensures
        a1 is DecodeItem,
        decoded ==> a2 is RenderJson && h2.phase is AwaitRendered,
        !decoded ==> a2 is Fail && h2.phase is Done,
        forall|json: String, h3: Handler, a3: Action|
            decoded && #[trigger] h2.step_spec(Event::Rendered(json), h3, a3) ==> answers_json_ok(
                a3,
                json@,
            ),
{
}

/// A posted note is written under an identifier drawn from the random source
/// for that post: the partition key of the write, the identifier the handler
/// then answers with, is the simple form of the bytes of a freshly drawn
/// UUID, so posts are not stored under a fixed or reused key.
pub proof fn lemma_note_stored_under_drawn_uuid(h0: Handler, note: Object, h1: Handler, a1: Action)
    requires
        h0.expects(Event::Parsed(note)),
        spec_is_note(note@),
        h0.step_spec(Event::Parsed(note), h1, a1),
    ensures
        h1.phase matches Phase::AwaitStored { partition } && {
            &&& exists|drawn: DrawnUuid| is_v4_uuid_bytes(drawn@) && partition@ == #[trigger] lower_hex(drawn@)
            &&& a1 matches Action::PutItem(w) && w.item@.dom().contains(PARTITION_KEY_NAME@)
                && is_string_attr(w.item@[PARTITION_KEY_NAME@], partition@)
        },
{
}

/// A request to a path the service does not serve is answered with a 400 and
/// an empty body, and handling is over, whatever the request's body: only the
/// status path reads a body.
pub proof fn lemma_unserved_path_refused(table_name: Seq<char>, request: Request, h: Handler, a: Action)
    requires
        route_of(request.path@) is Unknown,
        start_spec(table_name, request, h, a),
    ensures
        h.phase is Done,
        a matches Action::Respond(r) && r.status == 400 && r.content_type is None && r.body@.len() == 0,
{
}

/// Only a text body posted to the status path is parsed as a status.
pub proof fn lemma_only_status_path_parses(table_name: Seq<char>, request: Request, h: Handler, a: Action)
    requires
        start_spec(table_name, request, h, a),
        a is ParseStatus,
    ensures
        request.path@ == STATUSES_PATH@,
        request.body matches Body::Text(text) && a->ParseStatus_0@ == text@,
        h.phase is AwaitParsed,
{
}

/// Each phase that is not the end takes the event its outside work reports:
/// a parsed body (a note among them, once complete) while parsing, the
/// write's completion while storing, the read's completion while fetching,
/// either decoding outcome while decoding, and any rendering while
/// rendering; a finished handler takes no event.
pub proof fn lemma_each_phase_takes_its_event(h: Handler, object: Object, ok: bool, json: String, e: Event)
    ensures
        h.phase is AwaitParsed && (spec_is_note(object@) ==> note_is_complete(object@)) ==> h.expects(
            Event::Parsed(object),
        ),
        h.phase is AwaitStored ==> h.expects(Event::Stored),
        h.phase is AwaitFetched ==> h.expects(Event::Fetched),
        h.phase is AwaitDecoded ==> h.expects(Event::Decoded(ok)),
        h.phase is AwaitRendered ==> h.expects(Event::Rendered(json)),
        h.phase is Done ==> !h.expects(e),
        h.expects(Event::Stored) ==> h.phase is AwaitStored,
        h.expects(Event::Fetched) ==> h.phase is AwaitFetched,
        h.expects(Event::Decoded(ok)) ==> h.phase is AwaitDecoded,
        h.expects(Event::Rendered(json)) ==> h.phase is AwaitRendered,
        h.expects(Event::Parsed(object)) ==> h.phase is AwaitParsed,
{
}

/// The NodeInfo path is answered with a 200 carrying the NodeInfo document
/// as JSON, whatever the request's body; a status post without a text body
/// is answered with an empty 400.
pub proof fn lemma_nodeinfo_and_bodiless_posts(table_name: Seq<char>, request: Request, h: Handler, a: Action)
    requires
        start_spec(table_name, request, h, a),
    ensures
        request.path@ == NODEINFO_PATH@ ==> {
            &&& h.phase is Done
            &&& a matches Action::Respond(r) && r.status == 200 && (r.content_type matches Some(t) && t@
                == "application/json"@) && r.body@ == NODEINFO_DOCUMENT@
        },
        request.path@ == STATUSES_PATH@ && !(request.body is Text) ==> {
            &&& h.phase is Done
            &&& a matches Action::Respond(r) && r.status == 400 && r.body@.len() == 0
        },
{
    reveal_strlit("/api/v1/statuses");
    reveal_strlit("/nodeinfo/2.0");
    assert(STATUSES_PATH@[1] != NODEINFO_PATH@[1]);
}

/// The write of a posted note holds exactly the attributes `partition` (the
/// drawn identifier), `type`, `content` and `published` as strings and
/// `sensitive` as a boolean, each with the note's own value.
pub proof fn lemma_posted_note_write_attributes(h0: Handler, note: Object, h1: Handler, a1: Action)
    requires
        h0.expects(Event::Parsed(note)),
        spec_is_note(note@),
        h0.step_spec(Event::Parsed(note), h1, a1),
    ensures
        h1.phase matches Phase::AwaitStored { partition } && a1 matches Action::PutItem(w) && {
            &&& w.table_name@ == h0.table_name@
            &&& w.item@.dom() == set!["partition"@, "type"@, "content"@, "published"@, "sensitive"@]
            &&& is_string_attr(w.item@["partition"@], partition@)
            &&& is_string_attr(w.item@["type"@], "Note"@)
            &&& is_string_attr(w.item@["content"@], note@.content.unwrap())
            &&& is_string_attr(w.item@["published"@], note@.published.unwrap())
            &&& is_bool_attr(w.item@["sensitive"@], note@.sensitive.unwrap())
        },
{
    reveal_strlit("partition");
    reveal_strlit("type");
    reveal_strlit("content");
    reveal_strlit("published");
    reveal_strlit("sensitive");
    let w = a1->PutItem_0;
    let m = w.item@.remove(PARTITION_KEY_NAME@);
    assert(PARTITION_KEY_NAME@[0] != TYPE_ATTR@[0]);
    assert(PARTITION_KEY_NAME@[0] != CONTENT_ATTR@[0]);
    assert(PARTITION_KEY_NAME@[1] != PUBLISHED_ATTR@[1]);
    assert(PARTITION_KEY_NAME@[0] != SENSITIVE_ATTR@[0]);
    assert(m[TYPE_ATTR@] == w.item@[TYPE_ATTR@]);
    assert(m[CONTENT_ATTR@] == w.item@[CONTENT_ATTR@]);
    assert(m[PUBLISHED_ATTR@] == w.item@[PUBLISHED_ATTR@]);
    assert(m[SENSITIVE_ATTR@] == w.item@[SENSITIVE_ATTR@]);
    assert(w.item@.dom() =~= m.dom().insert(PARTITION_KEY_NAME@));
    assert(w.item@.dom() =~= set!["partition"@, "type"@, "content"@, "published"@, "sensitive"@]);
}

} // verus!
