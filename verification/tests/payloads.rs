use redmine_api::client::{Method, Request, Response};
use redmine_api::decode::{read_numeral, read_optional_bool, read_optional_text, read_text};
use redmine_api::json::{Json, Numeral};
use redmine_api::RedmineApi;

fn api() -> RedmineApi {
    RedmineApi::new("http://redmine.test".to_string(), "abc".to_string())
}

fn answer(status: u16, location: Option<&str>, body: &str) -> Response {
    Response { status, location: location.map(|l| l.to_string()), body: body.to_string() }
}

#[test]
fn issue_create_omits_what_was_not_set() {
    let redmine = api();
    let payload = redmine.issues().create(1, 2, 3, 4, "subject").payload().render();
    assert_eq!(
        payload,
        "{\"issue\":{\"project_id\":1,\"tracker_id\":2,\"status_id\":3,\"priority_id\":4,\
         \"subject\":\"subject\",\"is_private\":false,\"private_notes\":false}}"
    );
}

#[test]
fn issue_with_every_field_set() {
    let redmine = api();
    let payload = redmine
        .issues()
        .create(1, 2, 3, 4, "subject")
        .description("text")
        .category_id(5)
        .fixed_version_id(6)
        .assigned_to_id(7)
        .parent_issue_id(8)
        .watcher_user_ids(vec![9, 10])
        .add_watcher_user_id(11)
        .is_private(true)
        .estimated_hours(Numeral::Decimal("0.5".to_string()))
        .notes("note")
        .private_notes(true)
        .payload()
        .render();
    assert_eq!(
        payload,
        "{\"issue\":{\"project_id\":1,\"tracker_id\":2,\"status_id\":3,\"priority_id\":4,\
         \"subject\":\"subject\",\"description\":\"text\",\"category_id\":5,\
         \"fixed_version_id\":6,\"assigned_to_id\":7,\"parent_issue_id\":8,\
         \"watcher_user_ids\":[9,10,11],\"is_private\":true,\"estimated_hours\":0.5,\
         \"notes\":\"note\",\"private_notes\":true}}"
    );
}

#[test]
fn issue_setters_overwrite_and_watchers_accumulate() {
    let redmine = api();
    let payload = redmine
        .issues()
        .update(3)
        .project_id(1)
        .project_id(2)
        .tracker_id(3)
        .status_id(4)
        .priority_id(5)
        .subject("first")
        .subject("second")
        .add_watcher_user_id(1)
        .add_watcher_user_id(2)
        .watcher_user_ids(vec![7])
        .add_watcher_user_id(8)
        .payload()
        .render();
    assert_eq!(
        payload,
        "{\"issue\":{\"project_id\":2,\"tracker_id\":3,\"status_id\":4,\"priority_id\":5,\
         \"subject\":\"second\",\"watcher_user_ids\":[7,8],\"is_private\":false,\
         \"private_notes\":false}}"
    );
}

#[test]
fn issue_explicit_zero_is_sent() {
    let redmine = api();
    let payload = redmine.issues().update(3).category_id(0).payload().render();
    assert_eq!(
        payload,
        "{\"issue\":{\"category_id\":0,\"is_private\":false,\"private_notes\":false}}"
    );
}

#[test]
fn issue_update_without_setters_sends_only_the_flags() {
    let redmine = api();
    let result = redmine.issues().update(17).execute(|request: Request| {
        assert_eq!(request.method, Method::Put);
        assert_eq!(request.url, "http://redmine.test/issues/17.json?key=abc");
        assert_eq!(
            request.body.as_deref(),
            Some("{\"issue\":{\"is_private\":false,\"private_notes\":false}}")
        );
        Ok(answer(200, None, ""))
    });
    assert_eq!(result.unwrap(), "Success");
}

#[test]
fn issue_update_refused() {
    let redmine = api();
    let result = redmine
        .issues()
        .update(17)
        .notes("a note")
        .execute(|_request: Request| Ok(answer(422, None, "bad")));
    assert!(matches!(
        result,
        Err(redmine_api::errors::Error::Api { status: 422, ref body }) if body == "bad"
    ));
}

#[test]
fn project_create_and_update() {
    let redmine = api();
    let created = redmine.projects().create("My Project", "my_project").description("An awesome project.");
    assert_eq!(
        created.payload().render(),
        "{\"project\":{\"name\":\"My Project\",\"identifier\":\"my_project\",\
         \"description\":\"An awesome project.\",\"is_public\":false,\"inherit_members\":false}}"
    );
    let location = created.execute(|request: Request| {
        assert_eq!(request.method, Method::Post);
        assert_eq!(request.url, "http://redmine.test/projects.json?key=abc");
        Ok(answer(201, Some("/projects/5.json"), ""))
    });
    assert_eq!(location.unwrap(), "/projects/5.json");

    let updated = redmine
        .projects()
        .update(5)
        .name("n")
        .identifier("i")
        .homepage("http://home")
        .is_public(true)
        .parent_id(2)
        .inherit_members(true);
    assert_eq!(
        updated.payload().render(),
        "{\"project\":{\"name\":\"n\",\"identifier\":\"i\",\"homepage\":\"http://home\",\
         \"is_public\":true,\"parent_id\":2,\"inherit_members\":true}}"
    );
    let done = updated.execute(|request: Request| {
        assert_eq!(request.method, Method::Put);
        assert_eq!(request.url, "http://redmine.test/projects/5.json?key=abc");
        Ok(answer(200, None, ""))
    });
    assert_eq!(done.unwrap(), "Success");
}

#[test]
fn project_update_without_setters_sends_only_the_flags() {
    let redmine = api();
    assert_eq!(
        redmine.projects().update(1).payload().render(),
        "{\"project\":{\"is_public\":false,\"inherit_members\":false}}"
    );
}

#[test]
fn user_create_and_update() {
    let redmine = api();
    let created = redmine
        .users()
        .create("juser", "jane", "user", "juser@mail.com")
        .password("secret")
        .auth_source_id(2)
        .must_change_passwd(true)
        .generate_password(false);
    assert_eq!(
        created.payload().render(),
        "{\"user\":{\"login\":\"juser\",\"firstname\":\"jane\",\"lastname\":\"user\",\
         \"mail\":\"juser@mail.com\",\"password\":\"secret\",\"auth_source_id\":2,\
         \"must_change_passwd\":true,\"generate_password\":false}}"
    );
    let location = created.execute(|request: Request| {
        assert_eq!(request.method, Method::Post);
        assert_eq!(request.url, "http://redmine.test/users.json?key=abc");
        Ok(answer(201, Some("/users/9.json"), ""))
    });
    assert_eq!(location.unwrap(), "/users/9.json");

    let updated = redmine.users().update(9).login("l").firstname("Jane").lastname("u").mail("m");
    assert_eq!(
        updated.payload().render(),
        "{\"user\":{\"login\":\"l\",\"firstname\":\"Jane\",\"lastname\":\"u\",\"mail\":\"m\",\
         \"must_change_passwd\":false,\"generate_password\":false}}"
    );
    let done = updated.execute(|request: Request| {
        assert_eq!(request.method, Method::Put);
        assert_eq!(request.url, "http://redmine.test/users/9.json?key=abc");
        Ok(answer(204, None, ""))
    });
    assert_eq!(done.unwrap(), "Success");
}

#[test]
fn time_entry_create_and_update() {
    let redmine = api();
    let created = redmine
        .time_entries()
        .create(1, Numeral::Decimal((0.2f32).to_string()), 4)
        .comments("Hello World")
        .spent_on("2017-09-16");
    assert_eq!(
        created.payload().render(),
        "{\"time_entry\":{\"issue_id\":1,\"hours\":0.2,\"activity_id\":4,\
         \"spent_on\":\"2017-09-16\",\"comments\":\"Hello World\"}}"
    );
    let location = created.execute(|request: Request| {
        assert_eq!(request.method, Method::Post);
        assert_eq!(request.url, "http://redmine.test/time_entries.json?key=abc");
        Ok(answer(201, Some("/time_entries/3.json"), ""))
    });
    assert_eq!(location.unwrap(), "/time_entries/3.json");

    let updated = redmine.time_entries().update(3);
    assert_eq!(updated.payload().render(), "{\"time_entry\":{}}");
    let done = updated.comments("another comment").execute(|request: Request| {
        assert_eq!(request.method, Method::Put);
        assert_eq!(request.url, "http://redmine.test/time_entries/3.json?key=abc");
        assert_eq!(
            request.body.as_deref(),
            Some("{\"time_entry\":{\"comments\":\"another comment\"}}")
        );
        Ok(answer(200, None, ""))
    });
    assert_eq!(done.unwrap(), "Success");
}

#[test]
fn time_entry_whole_hours() {
    let redmine = api();
    let payload = redmine.time_entries().create(1, Numeral::Unsigned(2), 4).payload().render();
    assert_eq!(payload, "{\"time_entry\":{\"issue_id\":1,\"hours\":2,\"activity_id\":4}}");
}

#[test]
fn watcher_is_added_and_removed() {
    let redmine = api();
    let added = redmine.issues().add_watcher(4, 12).execute(|request: Request| {
        assert_eq!(request.method, Method::Post);
        assert_eq!(request.url, "http://redmine.test/issues/4/watchers.json?key=abc");
        assert_eq!(request.body.as_deref(), Some("{\"user_id\":12}"));
        Ok(answer(200, None, ""))
    });
    assert!(added.unwrap());
    let refused = redmine
        .issues()
        .add_watcher(4, 12)
        .execute(|_request: Request| Ok(answer(403, None, "no")));
    assert!(matches!(refused, Err(redmine_api::errors::Error::Api { status: 403, .. })));
    let removed = redmine.issues().remove_watcher(4, 12).execute(|request: Request| {
        assert_eq!(request.method, Method::Delete);
        assert_eq!(request.url, "http://redmine.test/issues/4/watchers/12.json?key=abc");
        assert_eq!(request.body, None);
        Ok(answer(200, None, ""))
    });
    assert!(removed.unwrap());
}

#[test]
fn deletions_go_to_the_resource() {
    let redmine = api();
    let project = redmine.projects().delete(8).execute(|request: Request| {
        assert_eq!(request.method, Method::Delete);
        assert_eq!(request.url, "http://redmine.test/projects/8.json?key=abc");
        Ok(answer(200, None, ""))
    });
    assert!(project.unwrap());
    let user = redmine.users().delete(9).execute(|request: Request| {
        assert_eq!(request.method, Method::Delete);
        assert_eq!(request.url, "http://redmine.test/users/9.json?key=abc");
        Ok(answer(404, None, ""))
    });
    assert!(matches!(user, Err(redmine_api::errors::Error::Api { status: 404, .. })));
}

#[test]
fn issue_payload_reads_back_through_the_record_fields() {
    let redmine = api();
    let text = redmine
        .issues()
        .create(1, 1, 1, 1, "a subject")
        .description("a description")
        .estimated_hours(Numeral::Decimal("3.4".to_string()))
        .payload()
        .render();
    let parsed = Json::parse(&text).unwrap();
    let issue = parsed.get("issue").unwrap();
    assert_eq!(read_text(issue, "subject").unwrap(), "a subject");
    assert_eq!(read_optional_text(issue, "description").unwrap().as_deref(), Some("a description"));
    assert!(matches!(read_numeral(issue, "estimated_hours"), Ok(Numeral::Decimal(ref t)) if t == "3.4"));
}

#[test]
fn project_payload_reads_back_through_the_record_fields() {
    let redmine = api();
    let text = redmine
        .projects()
        .create("name", "identifier")
        .description("d")
        .homepage("h")
        .is_public(true)
        .payload()
        .render();
    let parsed = Json::parse(&text).unwrap();
    let project = parsed.get("project").unwrap();
    assert_eq!(read_text(project, "name").unwrap(), "name");
    assert_eq!(read_text(project, "identifier").unwrap(), "identifier");
    assert_eq!(read_optional_text(project, "description").unwrap().as_deref(), Some("d"));
    assert_eq!(read_optional_text(project, "homepage").unwrap().as_deref(), Some("h"));
    assert_eq!(read_optional_bool(project, "is_public").unwrap(), Some(true));
}

#[test]
fn user_and_time_entry_payloads_read_back() {
    let redmine = api();
    let text = redmine.users().create("l", "f", "n", "m").payload().render();
    let parsed = Json::parse(&text).unwrap();
    let user = parsed.get("user").unwrap();
    assert_eq!(read_text(user, "login").unwrap(), "l");
    assert_eq!(read_text(user, "firstname").unwrap(), "f");
    assert_eq!(read_text(user, "lastname").unwrap(), "n");
    assert_eq!(read_text(user, "mail").unwrap(), "m");

    let text = redmine
        .time_entries()
        .create(1, Numeral::Decimal("1.25".to_string()), 2)
        .spent_on("2017-09-16")
        .comments("c")
        .payload()
        .render();
    let parsed = Json::parse(&text).unwrap();
    let entry = parsed.get("time_entry").unwrap();
    assert!(matches!(read_numeral(entry, "hours"), Ok(Numeral::Decimal(ref t)) if t == "1.25"));
    assert_eq!(read_text(entry, "spent_on").unwrap(), "2017-09-16");
    assert_eq!(read_text(entry, "comments").unwrap(), "c");
}

#[test]
fn empty_subject_is_left_out_and_does_not_read_back() {
    let redmine = api();
    let text = redmine.issues().create(1, 1, 1, 1, "").payload().render();
    let parsed = Json::parse(&text).unwrap();
    let issue = parsed.get("issue").unwrap();
    assert!(issue.get("subject").is_none());
    assert!(read_text(issue, "subject").is_err());
}
