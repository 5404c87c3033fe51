use redmine_api::client::{Method, Request, Response};
use redmine_api::decode::{finish_list, finish_record, NamedObject, Object, Resource};
use redmine_api::errors::Error;
use redmine_api::issues::Issue;
use redmine_api::json::{Json, Numeral};
use redmine_api::projects::Project;
use redmine_api::time_entries::TimeEntry;
use redmine_api::users::User;
use redmine_api::RedmineApi;

fn api() -> RedmineApi {
    RedmineApi::new("http://redmine.test".to_string(), "abc".to_string())
}

fn answer(status: u16, body: &str) -> Response {
    Response { status, location: None, body: body.to_string() }
}

const ISSUE: &str = "{\"id\":2,\"project\":{\"id\":1,\"name\":\"Demo\"},\
    \"tracker\":{\"id\":1,\"name\":\"Bug\"},\"status\":{\"id\":1,\"name\":\"New\"},\
    \"priority\":{\"id\":2,\"name\":\"Normal\"},\"author\":{\"id\":1,\"name\":\"Ann\"},\
    \"assigned_to\":{\"id\":3,\"name\":\"Bob\"},\"category\":null,\
    \"parent\":{\"id\":1},\"subject\":\"A subject\",\"description\":\"Text\",\
    \"start_date\":\"2017-09-16\",\"due_date\":null,\"done_ratio\":40,\
    \"estimated_hours\":3.4,\"created_on\":\"2017-09-16T10:00:00Z\",\
    \"updated_on\":\"2017-09-17T10:00:00Z\",\"custom\":[1,2,3]}";

fn is_parse_error<T: std::fmt::Debug>(result: Result<T, Error>) -> bool {
    matches!(result, Err(Error::Parse(ref m)) if m == "Can't parse json")
}

#[test]
fn issue_is_read_field_by_field() {
    let issue = Issue::decode(&Json::parse(ISSUE).unwrap()).unwrap();
    assert_eq!(issue.id, 2);
    assert_eq!(issue.project.id, 1);
    assert_eq!(issue.project.name, "Demo");
    assert_eq!(issue.tracker.name, "Bug");
    assert_eq!(issue.status.name, "New");
    assert_eq!(issue.priority.id, 2);
    assert_eq!(issue.author.name, "Ann");
    assert_eq!(issue.assigned_to.as_ref().unwrap().id, 3);
    assert_eq!(issue.assigned_to.as_ref().unwrap().name, "Bob");
    assert!(issue.category.is_none());
    assert!(issue.fixed_version.is_none());
    assert_eq!(issue.parent.as_ref().unwrap().id, 1);
    assert_eq!(issue.subject, "A subject");
    assert_eq!(issue.description.as_deref(), Some("Text"));
    assert_eq!(issue.start_date.as_deref(), Some("2017-09-16"));
    assert!(issue.due_date.is_none());
    assert_eq!(issue.done_ratio, 40);
    assert!(matches!(issue.estimated_hours, Some(Numeral::Decimal(ref t)) if t == "3.4"));
    assert_eq!(issue.created_on, "2017-09-16T10:00:00Z");
    assert_eq!(issue.updated_on, "2017-09-17T10:00:00Z");
}

#[test]
fn issue_with_whole_hours() {
    let text = ISSUE.replace("\"estimated_hours\":3.4", "\"estimated_hours\":3");
    let issue = Issue::decode(&Json::parse(&text).unwrap()).unwrap();
    assert!(matches!(issue.estimated_hours, Some(Numeral::Unsigned(3))));
}

#[test]
fn issue_without_a_required_member_is_refused() {
    let text = ISSUE.replace("\"subject\":\"A subject\",", "");
    assert!(is_parse_error(Issue::decode(&Json::parse(&text).unwrap())));
    let text = ISSUE.replace("\"author\":{\"id\":1,\"name\":\"Ann\"},", "");
    assert!(is_parse_error(Issue::decode(&Json::parse(&text).unwrap())));
}

#[test]
fn issue_with_a_member_of_another_type_is_refused() {
    let text = ISSUE.replace("\"id\":2,", "\"id\":\"2\",");
    assert!(is_parse_error(Issue::decode(&Json::parse(&text).unwrap())));
    let text = ISSUE.replace("\"done_ratio\":40", "\"done_ratio\":-1");
    assert!(is_parse_error(Issue::decode(&Json::parse(&text).unwrap())));
    let text = ISSUE.replace("\"done_ratio\":40", "\"done_ratio\":4294967296");
    assert!(is_parse_error(Issue::decode(&Json::parse(&text).unwrap())));
    let text = ISSUE.replace("\"description\":\"Text\"", "\"description\":5");
    assert!(is_parse_error(Issue::decode(&Json::parse(&text).unwrap())));
    let text = ISSUE.replace("\"estimated_hours\":3.4", "\"estimated_hours\":\"3.4\"");
    assert!(is_parse_error(Issue::decode(&Json::parse(&text).unwrap())));
    let text = ISSUE.replace("\"parent\":{\"id\":1}", "\"parent\":{\"name\":\"x\"}");
    assert!(is_parse_error(Issue::decode(&Json::parse(&text).unwrap())));
    let text = ISSUE.replace("\"subject\":\"A subject\"", "\"subject\":null");
    assert!(is_parse_error(Issue::decode(&Json::parse(&text).unwrap())));
}

#[test]
fn issue_with_the_largest_id() {
    let text = ISSUE.replace("\"done_ratio\":40", "\"done_ratio\":4294967295");
    let issue = Issue::decode(&Json::parse(&text).unwrap()).unwrap();
    assert_eq!(issue.done_ratio, 4294967295);
}

#[test]
fn value_that_is_no_object_is_refused() {
    assert!(is_parse_error(Issue::decode(&Json::parse("[1,2]").unwrap())));
    assert!(is_parse_error(Project::decode(&Json::parse("\"text\"").unwrap())));
    assert!(is_parse_error(User::decode(&Json::Null)));
}

#[test]
fn project_is_read_field_by_field() {
    let text = "{\"id\":1,\"name\":\"Demo\",\"identifier\":\"demo\",\"description\":\"\",\
                \"status\":1,\"is_public\":true,\"created_on\":\"c\",\"updated_on\":\"u\"}";
    let project = Project::decode(&Json::parse(text).unwrap()).unwrap();
    assert_eq!(project.id, 1);
    assert_eq!(project.name, "Demo");
    assert_eq!(project.identifier, "demo");
    assert_eq!(project.description.as_deref(), Some(""));
    assert!(project.homepage.is_none());
    assert_eq!(project.status, 1);
    assert_eq!(project.is_public, Some(true));
    assert_eq!(project.created_on, "c");
    assert_eq!(project.updated_on, "u");
    let wrong = text.replace("\"is_public\":true", "\"is_public\":1");
    assert!(is_parse_error(Project::decode(&Json::parse(&wrong).unwrap())));
}

#[test]
fn time_entry_is_read_field_by_field() {
    let text = "{\"id\":7,\"project\":{\"id\":1,\"name\":\"Demo\"},\"issue\":{\"id\":2},\
                \"user\":{\"id\":3,\"name\":\"Ann\"},\"activity\":{\"id\":4,\"name\":\"Dev\"},\
                \"hours\":0.25,\"comments\":\"\",\"spent_on\":\"2017-09-16\",\
                \"created_on\":\"c\",\"updated_on\":\"u\"}";
    let entry = TimeEntry::decode(&Json::parse(text).unwrap()).unwrap();
    assert_eq!(entry.id, 7);
    assert_eq!(entry.project.name, "Demo");
    assert_eq!(entry.issue.id, 2);
    assert_eq!(entry.user.id, 3);
    assert_eq!(entry.activity.id, 4);
    assert_eq!(entry.activity.name, "Dev");
    assert!(matches!(entry.hours, Numeral::Decimal(ref t) if t == "0.25"));
    assert_eq!(entry.comments, "");
    assert_eq!(entry.spent_on, "2017-09-16");
    let negative = text.replace("\"hours\":0.25", "\"hours\":-2");
    let entry = TimeEntry::decode(&Json::parse(&negative).unwrap()).unwrap();
    assert!(matches!(entry.hours, Numeral::Signed(-2)));
    let missing = text.replace("\"hours\":0.25,", "");
    assert!(is_parse_error(TimeEntry::decode(&Json::parse(&missing).unwrap())));
}

#[test]
fn user_is_read_field_by_field() {
    let text = "{\"id\":3,\"login\":\"ann\",\"firstname\":\"Ann\",\"lastname\":\"Lee\",\
                \"mail\":\"ann@mail.test\",\"created_on\":\"c\",\"last_login_on\":\"l\"}";
    let user = User::decode(&Json::parse(text).unwrap()).unwrap();
    assert_eq!(user.id, 3);
    assert_eq!(user.login, "ann");
    assert_eq!(user.firstname, "Ann");
    assert_eq!(user.lastname, "Lee");
    assert_eq!(user.mail, "ann@mail.test");
    assert_eq!(user.created_on, "c");
    assert_eq!(user.last_login_on.as_deref(), Some("l"));
}

#[test]
fn references_are_read() {
    let named = NamedObject::decode(&Json::parse("{\"id\":1,\"name\":\"n\",\"x\":0}").unwrap());
    let named = named.unwrap();
    assert_eq!((named.id, named.name.as_str()), (1, "n"));
    assert!(is_parse_error(NamedObject::decode(&Json::parse("{\"id\":1}").unwrap())));
    assert_eq!(Object::decode(&Json::parse("{\"id\":9}").unwrap()).unwrap().id, 9);
    assert!(is_parse_error(Object::decode(&Json::parse("{\"id\":1.5}").unwrap())));
}

#[test]
fn list_is_read_in_order() {
    let body = "{\"users\":[\
        {\"id\":1,\"login\":\"a\",\"firstname\":\"A\",\"lastname\":\"a\",\"mail\":\"a@t\",\"created_on\":\"c\"},\
        {\"id\":2,\"login\":\"b\",\"firstname\":\"B\",\"lastname\":\"b\",\"mail\":\"b@t\",\"created_on\":\"c\"}\
        ],\"total_count\":2}";
    let users = finish_list::<User>(Ok(body.to_string()), "users").unwrap();
    assert_eq!(users.len(), 2);
    assert_eq!(users[0].login, "a");
    assert_eq!(users[1].login, "b");
    assert!(finish_list::<User>(Ok("{\"users\":[]}".to_string()), "users").unwrap().is_empty());
}

#[test]
fn list_with_one_bad_element_gives_nothing() {
    let body = "{\"users\":[\
        {\"id\":1,\"login\":\"a\",\"firstname\":\"A\",\"lastname\":\"a\",\"mail\":\"a@t\",\"created_on\":\"c\"},\
        {\"id\":2}]}";
    assert!(is_parse_error(finish_list::<User>(Ok(body.to_string()), "users")));
}

#[test]
fn list_of_another_shape_is_refused() {
    assert!(is_parse_error(finish_list::<User>(Ok("{\"users\":{}}".to_string()), "users")));
    assert!(is_parse_error(finish_list::<User>(Ok("{\"people\":[]}".to_string()), "users")));
    assert!(is_parse_error(finish_list::<User>(Ok("not json".to_string()), "users")));
    assert!(is_parse_error(finish_list::<User>(Ok("".to_string()), "users")));
}

#[test]
fn failure_of_the_round_trip_is_kept() {
    let failed = finish_list::<User>(Err(Error::Network("down".to_string())), "users");
    assert!(matches!(failed, Err(Error::Network(ref m)) if m == "down"));
    let failed = finish_record::<User>(Err(Error::Network("down".to_string())), "user");
    assert!(matches!(failed, Err(Error::Network(ref m)) if m == "down"));
}

#[test]
fn issue_is_shown() {
    let redmine = api();
    let body = format!("{{\"issue\":{}}}", ISSUE);
    let issue = redmine
        .issues()
        .show(2)
        .execute(|request: Request| {
            assert_eq!(request.method, Method::Get);
            assert_eq!(request.url, "http://redmine.test/issues/2.json?key=abc");
            Ok(answer(200, &body))
        })
        .unwrap();
    assert_eq!(issue.id, 2);
    let missing = redmine
        .issues()
        .show(2)
        .execute(|_request: Request| Ok(answer(404, "")));
    assert!(is_parse_error(missing));
}

#[test]
fn issue_list_accessors() {
    let redmine = api();
    let body = format!("{{\"issues\":[{}]}}", ISSUE);
    let list = redmine.issues().list().execute(|request: Request| {
        assert_eq!(request.url, "http://redmine.test/issues.json?key=abc");
        Ok(answer(200, &body))
    });
    let list = list.unwrap();
    assert_eq!(list.len(), 1);
    assert_eq!(list.get(0).unwrap().id, 2);
    assert!(list.get(1).is_none());
}

#[test]
fn issue_filter_sets_each_constraint() {
    let redmine = api();
    let mut filter = redmine.issues().list();
    filter
        .assigned_to_id(1)
        .parent_id(2)
        .project_id(3)
        .status_id(4)
        .subproject_id(5)
        .tracker_id(6)
        .issue_ids(vec![7])
        .status_id(8);
    let result = filter.execute(|request: Request| {
        assert_eq!(
            request.url,
            "http://redmine.test/issues.json?assigned_to_id=1&issue_id=7&parent_id=2&project_id=3\
             &status_id=8&subproject_id=5&tracker_id=6&key=abc"
        );
        Ok(answer(200, "{\"issues\":[]}"))
    });
    assert_eq!(result.unwrap().len(), 0);
}

#[test]
fn issue_list_that_is_not_json_is_a_parse_error() {
    let redmine = api();
    let result = redmine.issues().list().execute(|_request: Request| Ok(answer(200, "<html>")));
    assert!(is_parse_error(result));
}

#[test]
fn issue_list_reports_a_transport_failure() {
    let redmine = api();
    let result = redmine.issues().list().execute(|_request: Request| Err("timeout".to_string()));
    assert!(matches!(result, Err(Error::Network(ref m)) if m == "timeout"));
}

#[test]
fn projects_users_and_time_entries_are_listed_and_shown() {
    let redmine = api();
    let project = "{\"id\":1,\"name\":\"Demo\",\"identifier\":\"demo\",\"status\":1,\
                   \"created_on\":\"c\",\"updated_on\":\"u\"}";
    let projects = redmine
        .projects()
        .list()
        .execute(|request: Request| {
            assert_eq!(request.url, "http://redmine.test/projects.json?key=abc");
            Ok(answer(200, &format!("{{\"projects\":[{}]}}", project)))
        })
        .unwrap();
    assert_eq!(projects.len(), 1);
    assert_eq!(projects.get(0).unwrap().identifier, "demo");
    let shown = redmine
        .projects()
        .show(1)
        .execute(|request: Request| {
            assert_eq!(request.url, "http://redmine.test/projects/1.json?key=abc");
            Ok(answer(200, &format!("{{\"project\":{}}}", project)))
        })
        .unwrap();
    assert_eq!(shown.name, "Demo");

    let user = "{\"id\":3,\"login\":\"ann\",\"firstname\":\"Ann\",\"lastname\":\"Lee\",\
                \"mail\":\"ann@mail.test\",\"created_on\":\"c\"}";
    let users = redmine
        .users()
        .list()
        .execute(|request: Request| {
            assert_eq!(request.url, "http://redmine.test/users.json?key=abc");
            Ok(answer(200, &format!("{{\"users\":[{}]}}", user)))
        })
        .unwrap();
    assert_eq!(users.into_vec()[0].login, "ann");
    let shown = redmine
        .users()
        .show(3)
        .execute(|request: Request| {
            assert_eq!(request.url, "http://redmine.test/users/3.json?key=abc");
            Ok(answer(200, &format!("{{\"user\":{}}}", user)))
        })
        .unwrap();
    assert!(shown.last_login_on.is_none());

    let entry = "{\"id\":7,\"project\":{\"id\":1,\"name\":\"Demo\"},\"issue\":{\"id\":2},\
                 \"user\":{\"id\":3},\"activity\":{\"id\":4,\"name\":\"Dev\"},\"hours\":1,\
                 \"comments\":\"c\",\"spent_on\":\"s\",\"created_on\":\"c\",\"updated_on\":\"u\"}";
    let mut filter = redmine.time_entries().list();
    filter.user_id(3).project_id(1);
    assert_eq!(
        filter.params(),
        vec![("user_id".to_string(), "3".to_string()), ("project_id".to_string(), "1".to_string())]
    );
    let entries = filter
        .execute(|request: Request| {
            assert_eq!(
                request.url,
                "http://redmine.test/time_entries.json?user_id=3&project_id=1&key=abc"
            );
            Ok(answer(200, &format!("{{\"time_entries\":[{}]}}", entry)))
        })
        .unwrap();
    assert_eq!(entries.len(), 1);
    assert!(matches!(entries.get(0).unwrap().hours, Numeral::Unsigned(1)));
    let shown = redmine
        .time_entries()
        .show(7)
        .execute(|request: Request| {
            assert_eq!(request.url, "http://redmine.test/time_entries/7.json?key=abc");
            Ok(answer(200, &format!("{{\"time_entry\":{}}}", entry)))
        })
        .unwrap();
    assert_eq!(shown.id, 7);
}
