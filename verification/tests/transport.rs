use redmine_api::client::{
    read_body, read_created, read_deleted, read_updated, Method, RedmineClient, Request, Response,
    URL_BUDGET,
};
use redmine_api::errors::Error;
use redmine_api::json::Json;

fn client() -> RedmineClient {
    RedmineClient::new("http://redmine.test".to_string(), "s3cret key".to_string())
}

fn answer(status: u16, location: Option<&str>, body: &str) -> Response {
    Response { status, location: location.map(|l| l.to_string()), body: body.to_string() }
}

fn pair(key: &str, value: &str) -> (String, String) {
    (key.to_string(), value.to_string())
}

#[test]
fn base_url_carries_the_key() {
    let url = client().get_base_url("/issues.json").unwrap();
    assert_eq!(url, "http://redmine.test/issues.json?key=s3cret+key");
}

#[test]
fn url_puts_the_pairs_before_the_key() {
    let url = client()
        .url("/issues.json", vec![pair("status_id", "1"), pair("issue_id", "2,3")])
        .unwrap();
    assert_eq!(url, "http://redmine.test/issues.json?status_id=1&issue_id=2%2C3&key=s3cret+key");
}

#[test]
fn url_keeps_a_query_of_the_path() {
    let url = client().url("/issues.json?limit=5", vec![pair("a", "b&c")]).unwrap();
    assert_eq!(url, "http://redmine.test/issues.json?limit=5&a=b%26c&key=s3cret+key");
}

#[test]
fn url_of_a_host_that_is_no_url_is_a_network_error() {
    let broken = RedmineClient::new("redmine test".to_string(), "k".to_string());
    match broken.get_base_url("/issues.json") {
        Err(Error::Network(message)) => {
            assert_eq!(message, "Can't parse url: redmine test/issues.json")
        }
        other => panic!("unexpected result: {:?}", other),
    }
}

#[test]
fn url_over_the_budget_is_a_network_error() {
    let long = "a".repeat(URL_BUDGET);
    match client().url("/issues.json", vec![pair("q", &long)]) {
        Err(Error::Network(message)) => {
            assert_eq!(message, "Can't parse url: http://redmine.test/issues.json")
        }
        other => panic!("unexpected result: {:?}", other.map(|u| u.len())),
    }
}

#[test]
fn get_returns_the_body_whatever_the_status() {
    let body = client()
        .get("/issues/9.json", vec![pair("include", "journals")], |request: Request| {
            assert_eq!(request.method, Method::Get);
            assert_eq!(
                request.url,
                "http://redmine.test/issues/9.json?include=journals&key=s3cret+key"
            );
            assert_eq!(request.body, None);
            Ok(answer(404, None, "{\"errors\":[\"not found\"]}"))
        })
        .unwrap();
    assert_eq!(body, "{\"errors\":[\"not found\"]}");
}

#[test]
fn get_reports_a_transport_failure() {
    let result = client().get("/issues.json", Vec::new(), |_request: Request| {
        Err("connection refused".to_string())
    });
    match result {
        Err(Error::Network(message)) => assert_eq!(message, "connection refused"),
        other => panic!("unexpected result: {:?}", other),
    }
}

#[test]
fn get_does_not_call_the_transport_without_a_url() {
    let broken = RedmineClient::new("".to_string(), "k".to_string());
    let result = broken.get("issues.json", Vec::new(), |_request: Request| -> Result<Response, String> {
        panic!("nothing to send")
    });
    assert!(matches!(result, Err(Error::Network(_))));
}

#[test]
fn create_posts_the_rendered_object() {
    let object = Json::envelope("issue", vec![("subject".to_string(), Json::Text("a \"b\"".to_string()))]);
    let location = client()
        .create("/issues.json", &object, |request: Request| {
            assert_eq!(request.method, Method::Post);
            assert_eq!(request.url, "http://redmine.test/issues.json?key=s3cret+key");
            assert_eq!(request.body.as_deref(), Some("{\"issue\":{\"subject\":\"a \\\"b\\\"\"}}"));
            Ok(answer(201, Some("http://redmine.test/issues/7"), "{}"))
        })
        .unwrap();
    assert_eq!(location, "http://redmine.test/issues/7");
}

#[test]
fn create_without_location_is_a_protocol_error() {
    match read_created(answer(201, None, "{}")) {
        Err(Error::Protocol(message)) => assert_eq!(message, "Can't create issue."),
        other => panic!("unexpected result: {:?}", other),
    }
}

#[test]
fn create_refused_is_an_api_error() {
    match read_created(answer(422, Some("/ignored"), "{\"errors\":[\"Subject cannot be blank\"]}")) {
        Err(Error::Api { status, body }) => {
            assert_eq!(status, 422);
            assert_eq!(body, "{\"errors\":[\"Subject cannot be blank\"]}");
        }
        other => panic!("unexpected result: {:?}", other),
    }
}

#[test]
fn update_puts_and_confirms() {
    let object = Json::envelope("issue", Vec::new());
    let done = client()
        .update("/issues/3.json", &object, |request: Request| {
            assert_eq!(request.method, Method::Put);
            assert_eq!(request.url, "http://redmine.test/issues/3.json?key=s3cret+key");
            assert_eq!(request.body.as_deref(), Some("{\"issue\":{}}"));
            Ok(answer(204, None, ""))
        })
        .unwrap();
    assert_eq!(done, "Success");
}

#[test]
fn update_refused_is_an_api_error() {
    assert!(matches!(
        read_updated(answer(403, None, "no")),
        Err(Error::Api { status: 403, ref body }) if body == "no"
    ));
    assert_eq!(read_updated(answer(200, None, "")).unwrap(), "Success");
}

#[test]
fn delete_is_true_for_every_success_status() {
    assert!(read_deleted(answer(200, None, "")).unwrap());
    assert!(read_deleted(answer(204, None, "")).unwrap());
    assert!(read_deleted(answer(299, None, "")).unwrap());
    assert!(matches!(read_deleted(answer(199, None, "")), Err(Error::Api { status: 199, .. })));
    assert!(matches!(read_deleted(answer(300, None, "")), Err(Error::Api { status: 300, .. })));
    assert!(matches!(read_deleted(answer(500, None, "")), Err(Error::Api { status: 500, .. })));
}

#[test]
fn delete_sends_no_body() {
    let done = client()
        .delete("/issues/3.json", |request: Request| {
            assert_eq!(request.method, Method::Delete);
            assert_eq!(request.body, None);
            Ok(answer(200, None, ""))
        })
        .unwrap();
    assert!(done);
}

#[test]
fn post_hands_back_the_response() {
    let object = Json::object(vec![("user_id".to_string(), Json::Bool(true))]);
    let response = client()
        .post("/issues/3/watchers.json", &object, |request: Request| {
            assert_eq!(request.method, Method::Post);
            assert_eq!(request.body.as_deref(), Some("{\"user_id\":true}"));
            Ok(answer(500, None, "oops"))
        })
        .unwrap();
    assert_eq!(response.status, 500);
    assert_eq!(response.body, "oops");
    assert!(!response.is_success());
}

#[test]
fn read_body_keeps_the_text() {
    assert_eq!(read_body(answer(500, None, "text")).unwrap(), "text");
}

#[test]
fn error_status_is_that_of_an_api_error() {
    assert_eq!(Error::Api { status: 404, body: String::new() }.status(), Some(404));
    assert_eq!(Error::Network("x".to_string()).status(), None);
    assert_eq!(Error::parse().status(), None);
    assert!(matches!(Error::parse(), Error::Parse(ref m) if m == "Can't parse json"));
}
