use serde_json::Value;
use web_service::activitypub::context::{Context, FocalPoint, StringOrContext};
use web_service::activitypub::object::{is_note, Object};
use web_service::attribute::{AttributeValue, Item};
use web_service::routes::api::{statuses, StatusPost};
use web_service::routes::nodeinfo::{nodeinfo, NodeInfo, NODEINFO_DOCUMENT};
use web_service::routes::users::{user_statuses_response, ObjectResponder};

fn object(kind: &str) -> Object {
    Object {
        object_type: kind.to_string(),
        content: Some("c".to_string()),
        published: None,
        sensitive: Some(true),
    }
}

#[test]
fn nodeinfo_document_is_the_compact_json_of_the_schema_document() {
    let mut software = serde_json::Map::new();
    software.insert("name".to_string(), Value::from("rust_lambda"));
    software.insert("version".to_string(), Value::from(1));
    let mut services = serde_json::Map::new();
    services.insert("inbound".to_string(), Value::Array(vec![]));
    services.insert("outbound".to_string(), Value::Array(vec![]));
    let mut users = serde_json::Map::new();
    users.insert("total".to_string(), Value::from(1));
    let mut usage = serde_json::Map::new();
    usage.insert("users".to_string(), Value::Object(users));
    usage.insert("localPosts".to_string(), Value::from(1));
    let mut doc = serde_json::Map::new();
    doc.insert("version".to_string(), Value::from(2.0f64));
    doc.insert("software".to_string(), Value::Object(software));
    doc.insert("protocols".to_string(), Value::Array(vec![Value::from("activitypub")]));
    doc.insert("services".to_string(), Value::Object(services));
    doc.insert("openRegistrations".to_string(), Value::Bool(true));
    doc.insert("usage".to_string(), Value::Object(usage));
    assert_eq!(Value::Object(doc).to_string(), NODEINFO_DOCUMENT);
}

#[test]
fn nodeinfo_names_its_schema() {
    let NodeInfo::A(doc, media) = nodeinfo();
    assert_eq!(doc, NODEINFO_DOCUMENT);
    assert_eq!(media.top, "application");
    assert_eq!(media.sub, "json");
    assert_eq!(
        media.params,
        vec![("profile".to_string(), "http://nodeinfo.diaspora.software/ns/schema/2.0#,".to_string())]
    );
}

#[test]
fn statuses_stores_a_note_under_a_fresh_key() {
    let values = Item::from_entries(vec![("type".to_string(), AttributeValue::S("Note".to_string()))]);
    match statuses("T", &object("Note"), values) {
        StatusPost::Store { partition, request } => {
            assert_eq!(partition.len(), 32);
            assert_eq!(request.table_name, "T");
            assert!(matches!(request.item.get("partition"), Some(AttributeValue::S(p)) if *p == partition));
            assert!(matches!(request.item.get("type"), Some(AttributeValue::S(t)) if t == "Note"));
        }
        StatusPost::Refuse => panic!("a note is stored"),
    }
}

#[test]
fn statuses_refuses_other_objects() {
    assert!(matches!(statuses("T", &object("Article"), Item::new()), StatusPost::Refuse));
    assert!(matches!(statuses("T", &object("note"), Item::new()), StatusPost::Refuse));
}

#[test]
fn is_note_is_exact() {
    assert!(is_note(&object("Note")));
    assert!(!is_note(&object("Notes")));
    assert!(!is_note(&object("")));
}

#[test]
fn user_statuses_answers_the_status_or_an_empty_404_body() {
    match user_statuses_response(Some(object("Note"))) {
        ObjectResponder::A(o) => assert_eq!(o.object_type, "Note"),
        ObjectResponder::B(_) => panic!("expected the status"),
    }
    match user_statuses_response(None) {
        ObjectResponder::B(body) => assert!(body.is_empty()),
        ObjectResponder::A(_) => panic!("expected the empty answer"),
    }
}

#[test]
fn context_values_can_be_built() {
    let context = Context {
        ostatus: "http://ostatus.org#".to_string(),
        atom_uri: "ostatus:atomUri".to_string(),
        in_reply_to_atom_uri: "ostatus:inReplyToAtomUri".to_string(),
        conversation: "ostatus:conversation".to_string(),
        sensitive: "as:sensitive".to_string(),
        toot: "http://joinmastodon.org/ns#".to_string(),
        voters_count: "toot:votersCount".to_string(),
        blurhash: "toot:blurhash".to_string(),
        focal_point: FocalPoint { _container: "@list".to_string(), _id: "toot:focalPoint".to_string() },
        hashtag: None,
    };
    let entry = StringOrContext::Context(Box::new(context));
    match entry {
        StringOrContext::Context(c) => assert_eq!(c.focal_point._container, "@list"),
        StringOrContext::String(_) => panic!(),
    }
}
