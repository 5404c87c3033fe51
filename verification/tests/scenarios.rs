use redmine_api::client::{Method, Request, Response};
use redmine_api::errors::Error;
use redmine_api::json::Numeral;
use redmine_api::RedmineApi;

fn api() -> RedmineApi {
    RedmineApi::new("http://redmine.test".to_string(), "abc".to_string())
}

fn answer(status: u16, location: Option<&str>, body: &str) -> Response {
    Response { status, location: location.map(|l| l.to_string()), body: body.to_string() }
}

#[test]
fn create_issue_returns_location() {
    let redmine = api();
    let result = redmine
        .issues()
        .create(1, 1, 1, 1, "subject")
        .is_private(true)
        .estimated_hours(Numeral::Decimal((3.4f32).to_string()))
        .execute(|request: Request| {
            assert_eq!(request.method, Method::Post);
            assert_eq!(request.url, "http://redmine.test/issues.json?key=abc");
            assert_eq!(
                request.body.as_deref(),
                Some(
                    "{\"issue\":{\"project_id\":1,\"tracker_id\":1,\"status_id\":1,\
                     \"priority_id\":1,\"subject\":\"subject\",\"is_private\":true,\
                     \"estimated_hours\":3.4,\"private_notes\":false}}"
                )
            );
            Ok(answer(201, Some("/issues/42.json"), ""))
        });
    assert_eq!(result.unwrap(), "/issues/42.json");
}

#[test]
fn list_issues_by_ids() {
    let redmine = api();
    let mut filter = redmine.issues().list();
    filter.issue_id(1).issue_ids(vec![2, 3]);
    let params = filter.params();
    assert_eq!(params, vec![("issue_id".to_string(), "1,2,3".to_string())]);
    let body = "{\"issues\":[{\"id\":2,\"author\":{\"id\":1,\"name\":\"Ann\"},\
                \"created_on\":\"2017-09-16\",\"done_ratio\":0,\
                \"priority\":{\"id\":2,\"name\":\"Normal\"},\
                \"project\":{\"id\":1,\"name\":\"Demo\"},\
                \"status\":{\"id\":1,\"name\":\"New\"},\"subject\":\"A subject\",\
                \"tracker\":{\"id\":1,\"name\":\"Bug\"},\"updated_on\":\"2017-09-17\",\
                \"estimated_hours\":3.4,\"description\":null}]}";
    let result = filter.execute(|request: Request| {
        assert_eq!(request.method, Method::Get);
        assert_eq!(request.url, "http://redmine.test/issues.json?issue_id=1%2C2%2C3&key=abc");
        assert_eq!(request.body, None);
        Ok(answer(200, None, body))
    });
    let issues = result.unwrap().into_vec();
    assert_eq!(issues.len(), 1);
    assert_eq!(issues[0].id, 2);
    assert_eq!(issues[0].subject, "A subject");
    assert_eq!(issues[0].author.name, "Ann");
    assert!(issues[0].description.is_none());
    assert!(issues[0].assigned_to.is_none());
    assert!(matches!(&issues[0].estimated_hours, Some(Numeral::Decimal(text)) if text == "3.4"));
}

#[test]
fn delete_issue_not_found() {
    let redmine = api();
    let result = redmine.issues().delete(6).execute(|request: Request| {
        assert_eq!(request.method, Method::Delete);
        assert_eq!(request.url, "http://redmine.test/issues/6.json?key=abc");
        Ok(answer(404, None, "gone"))
    });
    match result {
        Err(Error::Api { status, body }) => {
            assert_eq!(status, 404);
            assert_eq!(body, "gone");
        }
        other => panic!("unexpected result: {:?}", other),
    }
}
