use std::collections::HashMap;

use lambda_http::{Body, Request, RequestExt};
use user_handlers::config::Config;
use user_handlers::record::{Attribute, PutItem, UserRecord};
use user_handlers::registration::{
    reply_failure, reply_success, resume, start, start_at, Pending, Reply, Step, WriteOutcome,
};
use user_handlers::request::{resolve_user_id, user_id_of};
use user_handlers::response::Response;

fn request_with(parameters: Vec<(&str, Vec<&str>)>) -> Request {
    let mut query: HashMap<String, Vec<String>> = HashMap::new();
    for (name, values) in parameters {
        query.insert(name.to_string(), values.into_iter().map(|v| v.to_string()).collect());
    }
    Request::new(Body::Empty).with_query_string_parameters(query)
}

fn unpack_write(step: Step) -> (PutItem, Pending) {
    match step {
        Step::Write { item, pending } => (item, pending),
        Step::Done(reply) => panic!("expected a write, got {:?}", reply),
    }
}

fn unpack_reply(step: Step) -> Reply {
    match step {
        Step::Done(reply) => reply,
        Step::Write { item, .. } => panic!("expected a reply, got {:?}", item),
    }
}

fn attribute(name: &str, value: &str) -> Attribute {
    Attribute { name: name.to_string(), value: value.to_string() }
}

#[test]
fn request_with_user_id_is_registered_under_it() {
    let config = Config::resolve(None);
    let event = request_with(vec![("user_id", vec!["42"])]);

    let before = chrono::Utc::now();
    let (item, pending) = unpack_write(start(&config, &event));
    let after = chrono::Utc::now();

    assert_eq!(item.table_name, "usersTable");
    assert_eq!(item.item.len(), 2);
    assert_eq!(item.item[0], attribute("user_id", "42"));
    assert_eq!(item.item[1].name, "created_at");
    let created_at = chrono::DateTime::parse_from_rfc3339(&item.item[1].value)
        .expect("created_at is an RFC 3339 time");
    assert!(before <= created_at && created_at <= after);
    assert!((after - before).num_seconds() < 5);
    assert!(item.item[1].value.ends_with("+00:00"));
    assert_eq!(pending.user_id, "42");

    let reply = unpack_reply(resume(pending, WriteOutcome::Written));
    assert_eq!(reply.response.status, 200);
    assert_eq!(
        reply.response.body,
        "{\"message\":\"User added successfully\",\"user_id\":\"42\"}"
    );
    assert_eq!(reply.log, None);
}

#[test]
fn request_without_parameters_is_registered_as_unknown() {
    let config = Config::resolve(None);
    let event = Request::new(Body::Empty);

    let (item, pending) = unpack_write(start(&config, &event));
    assert_eq!(item.item[0], attribute("user_id", "unknown"));

    let reply = unpack_reply(resume(pending, WriteOutcome::Written));
    assert_eq!(reply.response.status, 200);
    assert_eq!(
        reply.response.body,
        "{\"message\":\"User added successfully\",\"user_id\":\"unknown\"}"
    );
}

#[test]
fn request_with_other_parameters_only_is_registered_as_unknown() {
    let event = request_with(vec![("user", vec!["42"]), ("USER_ID", vec!["43"])]);
    assert_eq!(user_id_of(&event), "unknown");
}

#[test]
fn failed_write_is_answered_with_internal_server_error() {
    let config = Config::resolve(None);
    let event = request_with(vec![("user_id", vec!["42"])]);
    let (_, pending) = unpack_write(start(&config, &event));

    let outcome = WriteOutcome::Failed { detail: "ServiceError(Throttled)".to_string() };
    let reply = unpack_reply(resume(pending, outcome));

    assert_eq!(reply.response, Response { status: 500, body: "Internal Server Error".to_string() });
    assert_eq!(reply.log, Some("DynamoDB error: ServiceError(Throttled)".to_string()));
    assert!(!reply.response.body.contains("User added successfully"));
}

#[test]
fn failed_write_is_answered_alike_whatever_the_reason() {
    let first = reply_failure("timeout");
    let second = reply_failure("");
    assert_eq!(first.response, second.response);
    assert_eq!(first.response.status, 500);
    assert_eq!(first.log, Some("DynamoDB error: timeout".to_string()));
    assert_eq!(second.log, Some("DynamoDB error: ".to_string()));
}

#[test]
fn unset_table_variable_selects_the_default_table() {
    assert_eq!(Config::variable(), "USERS_TABLE");
    assert_eq!(Config::resolve(None).table_name, "usersTable");
}

#[test]
fn set_table_variable_selects_that_table() {
    assert_eq!(Config::resolve(Some("people".to_string())).table_name, "people");
    assert_eq!(Config::resolve(Some(String::new())).table_name, "");

    let config = Config::resolve(Some("people".to_string()));
    let (item, _) = unpack_write(start(&config, &request_with(vec![("user_id", vec!["7"])])));
    assert_eq!(item.table_name, "people");
}

#[test]
fn user_id_is_taken_as_given() {
    for id in ["", " 42 ", "a b", "42\n", "o'neil", "Ünïcödé ✓", "a\"b\\c", "%20+&="] {
        let event = request_with(vec![("user_id", vec![id])]);
        assert_eq!(user_id_of(&event), id);

        let (item, pending) = unpack_write(start(&Config::resolve(None), &event));
        assert_eq!(item.item[0], attribute("user_id", id));
        assert_eq!(pending.user_id, id);
    }
    let long = "x".repeat(100_000);
    assert_eq!(user_id_of(&request_with(vec![("user_id", vec![long.as_str()])])), long);
}

#[test]
fn first_value_of_a_repeated_parameter_is_the_id() {
    let event = request_with(vec![("user_id", vec!["first", "second"]), ("other", vec!["x"])]);
    assert_eq!(user_id_of(&event), "first");
}

#[test]
fn parameter_without_values_counts_as_missing() {
    let event = request_with(vec![("user_id", vec![])]);
    assert_eq!(user_id_of(&event), "unknown");
}

#[test]
fn resolve_user_id_defaults_to_unknown() {
    assert_eq!(resolve_user_id(None), "unknown");
    assert_eq!(resolve_user_id(Some("42".to_string())), "42");
    assert_eq!(resolve_user_id(Some(String::new())), "");
    assert_eq!(resolve_user_id(Some("unknown".to_string())), "unknown");
}

#[test]
fn start_at_asks_for_the_write_of_the_record() {
    let config = Config::resolve(Some("people".to_string()));
    let step = start_at(&config, "42".to_string(), "2024-05-01T10:20:30+00:00".to_string());
    assert_eq!(
        step,
        Step::Write {
            item: PutItem {
                table_name: "people".to_string(),
                item: vec![
                    attribute("user_id", "42"),
                    attribute("created_at", "2024-05-01T10:20:30+00:00"),
                ],
            },
            pending: Pending { user_id: "42".to_string() },
        }
    );
}

#[test]
fn record_becomes_an_item_of_two_string_attributes() {
    let record = UserRecord::new("42".to_string(), "2024-05-01T10:20:30+00:00".to_string());
    assert_eq!(record.user_id, "42");
    assert_eq!(record.created_at, "2024-05-01T10:20:30+00:00");
    let write = record.into_write("usersTable".to_string());
    assert_eq!(write.table_name, "usersTable");
    assert_eq!(
        write.item,
        vec![attribute("user_id", "42"), attribute("created_at", "2024-05-01T10:20:30+00:00")]
    );
}

#[test]
fn every_invocation_is_one_write_then_one_reply() {
    let config = Config::resolve(None);
    for outcome in [WriteOutcome::Written, WriteOutcome::Failed { detail: "down".to_string() }] {
        let mut writes = 0;
        let mut replies = 0;
        let mut step = start(&config, &request_with(vec![("user_id", vec!["42"])]));
        loop {
            match step {
                Step::Write { pending, .. } => {
                    writes += 1;
                    assert!(writes <= 1);
                    step = resume(pending, outcome.clone());
                }
                Step::Done(_) => {
                    replies += 1;
                    break;
                }
            }
        }
        assert_eq!((writes, replies), (1, 1));
    }
}

#[test]
fn success_body_is_json_that_holds_the_id() {
    for id in ["42", "", "a\"b\\c", "line\nbreak\ttab", "\u{1}\u{1f}", "Ünïcödé ✓", "</script>"] {
        let reply = unpack_reply(resume(Pending { user_id: id.to_string() }, WriteOutcome::Written));
        assert_eq!(reply.response.status, 200);
        let value: serde_json::Value =
            serde_json::from_str(&reply.response.body).expect("the body is JSON");
        let object = value.as_object().expect("the body is an object");
        assert_eq!(object.len(), 2);
        assert_eq!(object.get("message").and_then(|m| m.as_str()), Some("User added successfully"));
        assert_eq!(object.get("user_id").and_then(|m| m.as_str()), Some(id));
    }
}

#[test]
fn success_body_escapes_what_json_does_not_allow() {
    let reply = unpack_reply(resume(
        Pending { user_id: "a\"b\\c\n\u{1}".to_string() },
        WriteOutcome::Written,
    ));
    assert_eq!(
        reply.response.body,
        "{\"message\":\"User added successfully\",\"user_id\":\"a\\\"b\\\\c\\n\\u0001\"}"
    );
}

#[test]
fn success_body_keeps_plain_text_between_quotes() {
    for id in ["42", "", " ", "~", "\u{7f}", "Ünïcödé ✓", "a/b", "'"] {
        let reply = unpack_reply(resume(Pending { user_id: id.to_string() }, WriteOutcome::Written));
        assert_eq!(
            reply.response.body,
            format!("{{\"message\":\"User added successfully\",\"user_id\":\"{}\"}}", id)
        );
    }
}

#[test]
fn reply_success_frames_the_literal_it_is_given() {
    let reply = reply_success("\"42\"");
    assert_eq!(
        reply,
        Reply {
            response: Response {
                status: 200,
                body: "{\"message\":\"User added successfully\",\"user_id\":\"42\"}".to_string(),
            },
            log: None,
        }
    );
}
