use std::collections::HashMap;

use lambda_http::{Body, Request, RequestExt};
use user_handlers::greeting;
use user_handlers::response::Response;

#[test]
fn greeting_answers_an_empty_request() {
    let response = greeting::handle(&Request::new(Body::Empty));
    assert_eq!(response, Response { status: 200, body: "Hello from Rust Lambda!".to_string() });
}

#[test]
fn greeting_does_not_look_at_the_request() {
    let mut query: HashMap<String, Vec<String>> = HashMap::new();
    query.insert("user_id".to_string(), vec!["42".to_string()]);
    let with_query = Request::new(Body::Text("{not json".to_string()))
        .with_query_string_parameters(query);
    let with_bytes = Request::new(Body::Binary(vec![0xff, 0x00]));

    let expected = Response { status: 200, body: "Hello from Rust Lambda!".to_string() };
    assert_eq!(greeting::handle(&with_query), expected);
    assert_eq!(greeting::handle(&with_bytes), expected);
}

#[test]
fn response_new_keeps_status_and_body() {
    let response = Response::new(404, "nothing".to_string());
    assert_eq!(response.status, 404);
    assert_eq!(response.body, "nothing");
}
