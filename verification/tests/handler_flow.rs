use web_service::activitypub::object::{is_note, Object};
use web_service::attribute::AttributeValue;
use web_service::handler::{Action, Event, Handler, Phase};
use web_service::routing::{route, Route};
use web_service::http::{bad_request, Body, Request, Response};
use web_service::routes::nodeinfo::NODEINFO_DOCUMENT;

fn request(path: &str, body: Body) -> Request {
    Request { path: path.to_string(), body }
}

fn note() -> Object {
    Object {
        object_type: "Note".to_string(),
        content: Some("<p>Hello world</p>".to_string()),
        published: Some("2022-12-03T00:00:00Z".to_string()),
        sensitive: Some(false),
    }
}

fn response_of(action: Action) -> Response {
    match action {
        Action::Respond(r) => r,
        _ => panic!("expected a response"),
    }
}

fn is_bad_request(r: &Response) -> bool {
    r.status == 400 && r.content_type.is_none() && r.body.is_empty()
}

fn text_of(value: Option<&AttributeValue>) -> Option<String> {
    match value {
        Some(AttributeValue::S(t)) => Some(t.clone()),
        _ => None,
    }
}

fn is_v4_hex(id: &str) -> bool {
    let chars: Vec<char> = id.chars().collect();
    chars.len() == 32
        && chars.iter().all(|c| c.is_ascii_digit() || ('a'..='f').contains(c))
        && chars[12] == '4'
        && matches!(chars[16], '8' | '9' | 'a' | 'b')
}

#[test]
fn routes_fixed_paths_and_user_status_paths() {
    assert!(matches!(route("/api/v1/statuses"), Route::Statuses));
    assert!(matches!(route("/nodeinfo/2.0"), Route::NodeInfo));
    assert!(matches!(
        route("/users/test_username/statuses/abcdef1234567890abcdef1234567890"),
        Route::UserStatus(id) if id == "abcdef1234567890abcdef1234567890"
    ));
    assert!(matches!(route("/users/alice/statuses/42"), Route::UserStatus(id) if id == "42"));
    assert!(matches!(route("/users/a/statuses/x"), Route::UserStatus(id) if id == "x"));
}

#[test]
fn routes_everything_else_to_unknown() {
    assert!(matches!(route("/api/v1/statuses/"), Route::Unknown));
    assert!(matches!(route(""), Route::Unknown));
    assert!(matches!(route("/users//statuses/1"), Route::Unknown));
    assert!(matches!(route("/users/alice/statuses/"), Route::Unknown));
    assert!(matches!(route("/users/alice/statuses/1/2"), Route::Unknown));
    assert!(matches!(route("/users/alice/status/1"), Route::Unknown));
    assert!(matches!(route("/users/alice"), Route::Unknown));
    assert!(matches!(route("/user/alice/statuses/1"), Route::Unknown));
}

#[test]
fn bad_request_is_empty_400() {
    assert!(is_bad_request(&bad_request()));
}

#[test]
fn unknown_path_is_a_bad_request() {
    let (h, a) = Handler::start("t".to_string(), &request("/nowhere", Body::Empty));
    assert!(matches!(h.phase, Phase::Done));
    assert!(is_bad_request(&response_of(a)));
}

#[test]
fn status_without_text_body_is_a_bad_request() {
    let (_, a) = Handler::start("t".to_string(), &request("/api/v1/statuses", Body::Empty));
    assert!(is_bad_request(&response_of(a)));
    let (_, a) = Handler::start("t".to_string(), &request("/api/v1/statuses", Body::Binary(vec![1, 2])));
    assert!(is_bad_request(&response_of(a)));
}

#[test]
fn nodeinfo_is_served_as_json() {
    let (h, a) = Handler::start("t".to_string(), &request("/nodeinfo/2.0", Body::Empty));
    assert!(matches!(h.phase, Phase::Done));
    let r = response_of(a);
    assert_eq!(r.status, 200);
    assert_eq!(r.content_type.as_deref(), Some("application/json"));
    assert_eq!(r.body, NODEINFO_DOCUMENT);
}

#[test]
fn posted_note_is_stored_and_answered_with_its_key() {
    let body = "{\"type\":\"Note\"}".to_string();
    let (h, a) = Handler::start("Table".to_string(), &request("/api/v1/statuses", Body::Text(body.clone())));
    assert!(matches!(a, Action::ParseStatus(ref t) if *t == body));
    let e = Event::Parsed(note());
    assert!(h.accepts(&e));
    let (h, a) = h.step(e);
    let id = match &h.phase {
        Phase::AwaitStored { partition } => partition.clone(),
        _ => panic!("expected to wait for the write"),
    };
    assert!(is_v4_hex(&id), "{id}");
    match a {
        Action::PutItem(request) => {
            assert_eq!(request.table_name, "Table");
            assert_eq!(text_of(request.item.get("partition")), Some(id.clone()));
            assert_eq!(text_of(request.item.get("type")), Some("Note".to_string()));
            assert_eq!(text_of(request.item.get("content")), Some("<p>Hello world</p>".to_string()));
            assert_eq!(text_of(request.item.get("published")), Some("2022-12-03T00:00:00Z".to_string()));
            assert!(matches!(request.item.get("sensitive"), Some(AttributeValue::Bool(false))));
            assert_eq!(request.item.into_entries().len(), 5);
        }
        _ => panic!("expected a write"),
    }
    assert!(h.accepts(&Event::Stored));
    let (h, a) = h.step(Event::Stored);
    assert!(matches!(h.phase, Phase::Done));
    let r = response_of(a);
    assert_eq!(r.status, 200);
    assert!(r.content_type.is_none());
    assert_eq!(r.body, id);
}

#[test]
fn posted_note_is_read_back_by_its_key() {
    let (h, _) = Handler::start("Table".to_string(), &request("/api/v1/statuses", Body::Text("{}".to_string())));
    let (h, _) = h.step(Event::Parsed(note()));
    let (_, a) = h.step(Event::Stored);
    let id = response_of(a).body;
    let path = format!("/users/test_username/statuses/{id}");
    let (h, a) = Handler::start("Table".to_string(), &request(&path, Body::Empty));
    assert!(matches!(h.phase, Phase::AwaitFetched));
    match a {
        Action::GetItem(get) => {
            assert_eq!(get.table_name, "Table");
            assert_eq!(text_of(get.key.get("partition")), Some(id));
            assert_eq!(get.key.into_entries().len(), 1);
        }
        _ => panic!("expected a read"),
    }
}

#[test]
fn user_status_read_ignores_the_user() {
    for user in ["test_username", "alice", "b"] {
        let path = format!("/users/{user}/statuses/0123");
        let (_, a) = Handler::start("T".to_string(), &request(&path, Body::Empty));
        assert!(matches!(a, Action::GetItem(ref g) if text_of(g.key.get("partition")) == Some("0123".to_string())));
    }
}

#[test]
fn posted_object_that_is_not_a_note_is_refused() {
    let (h, _) = Handler::start("t".to_string(), &request("/api/v1/statuses", Body::Text("{}".to_string())));
    let object = Object { object_type: "Article".to_string(), content: None, published: None, sensitive: None };
    assert!(!is_note(&object));
    let e = Event::Parsed(object);
    assert!(h.accepts(&e));
    let (h, a) = h.step(e);
    assert!(matches!(h.phase, Phase::Done));
    assert!(is_bad_request(&response_of(a)));
}

#[test]
fn incomplete_note_is_not_accepted() {
    let (h, _) = Handler::start("t".to_string(), &request("/api/v1/statuses", Body::Text("{}".to_string())));
    let object = Object { object_type: "Note".to_string(), content: None, published: None, sensitive: None };
    assert!(!h.accepts(&Event::Parsed(object)));
}

#[test]
fn events_out_of_turn_are_not_accepted() {
    let (h, _) = Handler::start("t".to_string(), &request("/api/v1/statuses", Body::Text("{}".to_string())));
    assert!(!h.accepts(&Event::Stored));
    assert!(!h.accepts(&Event::Fetched));
    assert!(!h.accepts(&Event::Rendered("{}".to_string())));
}

#[test]
fn user_status_is_read_decoded_and_rendered() {
    let id = "fedcba9876543210fedcba9876543210".to_string();
    let path = format!("/users/test_username/statuses/{id}");
    let (h, a) = Handler::start("Table".to_string(), &request(&path, Body::Empty));
    match a {
        Action::GetItem(request) => {
            assert_eq!(request.table_name, "Table");
            assert_eq!(text_of(request.key.get("partition")), Some(id));
            assert_eq!(request.key.into_entries().len(), 1);
        }
        _ => panic!("expected a read"),
    }
    let (h, a) = h.step(Event::Fetched);
    assert!(matches!(a, Action::DecodeItem));
    let (h, a) = h.step(Event::Decoded(true));
    assert!(matches!(a, Action::RenderJson));
    let json = "{\"type\":\"Note\"}".to_string();
    let (h, a) = h.step(Event::Rendered(json.clone()));
    assert!(matches!(h.phase, Phase::Done));
    let r = response_of(a);
    assert_eq!(r.status, 200);
    assert_eq!(r.content_type.as_deref(), Some("application/json"));
    assert_eq!(r.body, json);
}

#[test]
fn user_status_that_does_not_decode_fails() {
    let (h, _) = Handler::start("t".to_string(), &request("/users/u/statuses/x", Body::Empty));
    let (h, _) = h.step(Event::Fetched);
    let (h, a) = h.step(Event::Decoded(false));
    assert!(matches!(h.phase, Phase::Done));
    assert!(matches!(a, Action::Fail));
}
