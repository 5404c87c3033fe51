//! The projects of a Redmine instance: listing, lookup, creation, update and
//! deletion.

use crate::client::{
    delete_result, flag_view, get_result, option_view, pairs_view, text_view, BuilderKind,
    ConnectionView, Method, RedmineClient, Request, Response, ResponseView,
};
use crate::decode::{
    finish_list, finish_record, listed, optional_bool, optional_text, read_optional_bool,
    read_optional_text, read_text, read_u32, record_view, records_view, required_text,
    required_u32, shown, Resource,
};
use crate::errors::{Error, ErrorView};
use crate::json::{
    envelope, json_rendered, lemma_envelope_depth, lemma_flat, lemma_with_bool, lemma_with_text,
    lemma_with_u32, member, members_view, push_bool, push_text, push_u32, text_member, u32_member,
    with_bool, with_text, with_u32, Json, JsonModel, RENDER_DEPTH,
};
use crate::text::{item_path, make_item_path};
use std::rc::Rc;
use vstd::prelude::*;

verus! {

/// The endpoint of the collection of projects.
pub open spec fn projects_path() -> Seq<char> {
    "/projects.json"@
}

/// The endpoint of one project.
pub open spec fn project_path(id: u32) -> Seq<char> {
    item_path("/projects/"@, id, ".json"@)
}

/// Exposes the operations on projects.
pub struct Api {
    client: Rc<RedmineClient>,
}

impl Api {
    /// The connection that every operation made here goes through.
    pub closed spec fn connection(&self) -> ConnectionView {
        (*self.client)@
    }

    /// The operations on projects over the given connection.
    pub fn new(client: Rc<RedmineClient>) -> (api: Api)
        ensures
            api.connection() == (*client)@,
    {
        Api { client }
    }

    /// The listing of the projects.
    pub fn list(&self) -> (op: ProjectListExecutor)
        ensures
            op.connection() == self.connection(),
    {
        ProjectListExecutor::new(Rc::clone(&self.client))
    }

    /// The lookup of the project `id`.
    pub fn show(&self, id: u32) -> (op: ProjectShow)
        ensures
            op.connection() == self.connection(),
            op.id() == id,
    {
        ProjectShow { client: Rc::clone(&self.client), show_id: id }
    }

    /// A builder that creates a project with the given mandatory fields.
    pub fn create<'a>(
        &self,
        name: &'a str,
        identifier: &'a str,
    ) -> (b: ProjectBuilder<'a>)
        ensures
            b@ == (ProjectBuilderView {
                name: name@,
                identifier: identifier@,
                ..ProjectBuilderView::unset(self.connection(), BuilderKind::Create)
            }),
    {
        ProjectBuilder::for_create(Rc::clone(&self.client), name, identifier)
    }

    /// A builder that updates the project `id` and changes nothing yet.
    pub fn update<'a>(&self, id: u32) -> (b: ProjectBuilder<'a>)
        ensures
            b@ == (ProjectBuilderView {
                update_id: id,
                ..ProjectBuilderView::unset(self.connection(), BuilderKind::Update)
            }),
    {
        ProjectBuilder::for_update(Rc::clone(&self.client), id)
    }

    /// The deletion of the project `id`.
    pub fn delete(&self, id: u32) -> (op: ProjectDelete)
        ensures
            op.connection() == self.connection(),
            op.id() == id,
    {
        ProjectDelete { client: Rc::clone(&self.client), delete_id: id }
    }
}

/// The listing of the projects.
pub struct ProjectListExecutor {
    client: Rc<RedmineClient>,
}

impl ProjectListExecutor {
    /// The connection that the listing goes through.
    pub closed spec fn connection(&self) -> ConnectionView {
        (*self.client)@
    }

    /// The listing over the given connection.
    pub fn new(client: Rc<RedmineClient>) -> (op: ProjectListExecutor)
        ensures
            op.connection() == (*client)@,
    {
        ProjectListExecutor { client }
    }

    /// Whether `reply` is how the round trip of the operation may end.
    pub open spec fn round_trip<T: FnOnce(Request) -> Result<Response, String>>(
        &self,
        transport: T,
        reply: Result<ResponseView, Seq<char>>,
    ) -> bool {
        self.connection().round_trip(
            transport,
            Method::Get,
            projects_path(),
            Seq::empty(),
            None,
            reply,
        )
    }

    /// Fetches the projects: the records under `projects` in the body of the
    /// response, a parse error where the body holds none.
    pub fn execute<T: FnOnce(Request) -> Result<Response, String>>(&self, transport: T) -> (r:
        Result<ProjectList, Error>)
        requires
            forall|q: Request| call_requires(transport, (q,)),
        ensures
            exists|reply: Result<ResponseView, Seq<char>>|
                #[trigger] self.round_trip(transport, reply)
                    && projects_view(r) == listed::<Project>("projects"@, get_result(reply)),
    {
        assert("/projects.json"@ == projects_path());
        assert(self.connection() == (*self.client)@);
        let none: Vec<(String, String)> = Vec::new();
        assert(pairs_view(none@) =~= Seq::empty());
        assert(forall|reply: Result<ResponseView, Seq<char>>|
            #[trigger] (*self.client)@.round_trip(
                transport,
                Method::Get,
                "/projects.json"@,
                Seq::empty(),
                None,
                reply,
            ) ==> self.round_trip(transport, reply));
        let fetched = self.client.get("/projects.json", none, transport);
        match finish_list::<Project>(fetched, "projects") {
            Ok(projects) => Ok(ProjectList { projects }),
            Err(e) => Err(e),
        }
    }
}

/// The projects that a listing returned, in the order of the response.
#[derive(Debug)]
pub struct ProjectList {
    projects: Vec<Project>,
}

impl View for ProjectList {
    type V = Seq<ProjectView>;

    closed spec fn view(&self) -> Seq<ProjectView> {
        records_view(self.projects@)
    }
}

/// The result of a listing of projects as plain data.
pub open spec fn projects_view(r: Result<ProjectList, Error>) -> Result<
    Seq<ProjectView>,
    ErrorView,
> {
    match r {
        Ok(list) => Ok(list@),
        Err(e) => Err(e@),
    }
}

impl ProjectList {
    /// The number of projects.
    pub fn len(&self) -> (n: usize)
        ensures
            n == self@.len(),
    {
        self.projects.len()
    }

    /// The project at position `i`.
    pub fn get(&self, i: usize) -> (r: Option<&Project>)
        ensures
            match r {
                Some(project) => i < self@.len() && project@ == self@[i as int],
                None => i >= self@.len(),
            },
    {
        if i < self.projects.len() {
            Some(&self.projects[i])
        } else {
            None
        }
    }

    /// The projects themselves.
    pub fn into_vec(self) -> (v: Vec<Project>)
        ensures
            records_view(v@) == self@,
    {
        self.projects
    }
}

/// The lookup of one project.
pub struct ProjectShow {
    client: Rc<RedmineClient>,
    show_id: u32,
}

impl ProjectShow {
    /// The connection that the lookup goes through.
    pub closed spec fn connection(&self) -> ConnectionView {
        (*self.client)@
    }

    /// The project to look up.
    pub closed spec fn id(&self) -> u32 {
        self.show_id
    }

    /// Whether `reply` is how the round trip of the operation may end.
    pub open spec fn round_trip<T: FnOnce(Request) -> Result<Response, String>>(
        &self,
        transport: T,
        reply: Result<ResponseView, Seq<char>>,
    ) -> bool {
        self.connection().round_trip(
            transport,
            Method::Get,
            project_path(self.id()),
            Seq::empty(),
            None,
            reply,
        )
    }

    /// Fetches the project: the record under `project` in the body of the
    /// response, a parse error where the body holds none.
    pub fn execute<T: FnOnce(Request) -> Result<Response, String>>(&self, transport: T) -> (r:
        Result<Project, Error>)
        requires
            forall|q: Request| call_requires(transport, (q,)),
        ensures
            exists|reply: Result<ResponseView, Seq<char>>|
                #[trigger] self.round_trip(transport, reply)
                    && record_view(r) == shown::<Project>("project"@, get_result(reply)),
    {
        let path = make_item_path("/projects/", self.show_id, ".json");
        assert(path@ == project_path(self.id()));
        assert(self.connection() == (*self.client)@);
        let none: Vec<(String, String)> = Vec::new();
        assert(pairs_view(none@) =~= Seq::empty());
        assert(forall|reply: Result<ResponseView, Seq<char>>|
            #[trigger] (*self.client)@.round_trip(
                transport,
                Method::Get,
                path@,
                Seq::empty(),
                None,
                reply,
            ) ==> self.round_trip(transport, reply));
        let fetched = self.client.get(path.as_str(), none, transport);
        finish_record::<Project>(fetched, "project")
    }
}

/// The deletion of one project.
pub struct ProjectDelete {
    client: Rc<RedmineClient>,
    delete_id: u32,
}

impl ProjectDelete {
    /// The connection that the deletion goes through.
    pub closed spec fn connection(&self) -> ConnectionView {
        (*self.client)@
    }

    /// The project to delete.
    pub closed spec fn id(&self) -> u32 {
        self.delete_id
    }

    /// Whether `reply` is how the round trip of the operation may end.
    pub open spec fn round_trip<T: FnOnce(Request) -> Result<Response, String>>(
        &self,
        transport: T,
        reply: Result<ResponseView, Seq<char>>,
    ) -> bool {
        self.connection().round_trip(
            transport,
            Method::Delete,
            project_path(self.id()),
            Seq::empty(),
            None,
            reply,
        )
    }

    /// Deletes the project: `true` for a success status, an API error for any other.
    pub fn execute<T: FnOnce(Request) -> Result<Response, String>>(&self, transport: T) -> (r:
        Result<bool, Error>)
        requires
            forall|q: Request| call_requires(transport, (q,)),
        ensures
            exists|reply: Result<ResponseView, Seq<char>>|
                #[trigger] self.round_trip(transport, reply)
                    && flag_view(r) == delete_result(reply),
    {
        let path = make_item_path("/projects/", self.delete_id, ".json");
        assert(path@ == project_path(self.id()));
        assert(self.connection() == (*self.client)@);
        assert(forall|reply: Result<ResponseView, Seq<char>>|
            #[trigger] (*self.client)@.round_trip(
                transport,
                Method::Delete,
                path@,
                Seq::empty(),
                None,
                reply,
            ) ==> self.round_trip(transport, reply));
        self.client.delete(path.as_str(), transport)
    }
}

/// A project as the service reports it.
#[derive(Debug)]
pub struct Project {
    pub id: u32,
    pub name: String,
    pub identifier: String,
    pub description: Option<String>,
    pub homepage: Option<String>,
    pub status: u32,
    pub is_public: Option<bool>,
    pub created_on: String,
    pub updated_on: String,
}

/// A [`Project`] as plain data.
pub struct ProjectView {
    pub id: u32,
    pub name: Seq<char>,
    pub identifier: Seq<char>,
    pub description: Option<Seq<char>>,
    pub homepage: Option<Seq<char>>,
    pub status: u32,
    pub is_public: Option<bool>,
    pub created_on: Seq<char>,
    pub updated_on: Seq<char>,
}

impl View for Project {
    type V = ProjectView;

    open spec fn view(&self) -> ProjectView {
        ProjectView {
            id: self.id,
            name: self.name@,
            identifier: self.identifier@,
            description: option_view(self.description),
            homepage: option_view(self.homepage),
            status: self.status,
            is_public: self.is_public,
            created_on: self.created_on@,
            updated_on: self.updated_on@,
        }
    }
}

impl Resource for Project {
    /// The project that an object stands for: each member read as the type of
    /// its field, a member of an optional field absent or `null` at will;
    /// `None` where a member is missing or holds another type.
    open spec fn of(j: JsonModel) -> Option<ProjectView> {
        if required_u32(j, "id"@) is Some
            && required_text(j, "name"@) is Some
            && required_text(j, "identifier"@) is Some
            && optional_text(j, "description"@) is Some
            && optional_text(j, "homepage"@) is Some
            && required_u32(j, "status"@) is Some
            && optional_bool(j, "is_public"@) is Some
            && required_text(j, "created_on"@) is Some
            && required_text(j, "updated_on"@) is Some {
            Some(
                ProjectView {
                    id: required_u32(j, "id"@)->0,
                    name: required_text(j, "name"@)->0,
                    identifier: required_text(j, "identifier"@)->0,
                    description: optional_text(j, "description"@)->0,
                    homepage: optional_text(j, "homepage"@)->0,
                    status: required_u32(j, "status"@)->0,
                    is_public: optional_bool(j, "is_public"@)->0,
                    created_on: required_text(j, "created_on"@)->0,
                    updated_on: required_text(j, "updated_on"@)->0,
                },
            )
        } else {
            None
        }
    }

    fn decode(j: &Json) -> (r: Result<Project, Error>) {
        let id = read_u32(j, "id")?;
        let name = read_text(j, "name")?;
        let identifier = read_text(j, "identifier")?;
        let description = read_optional_text(j, "description")?;
        let homepage = read_optional_text(j, "homepage")?;
        let status = read_u32(j, "status")?;
        let is_public = read_optional_bool(j, "is_public")?;
        let created_on = read_text(j, "created_on")?;
        let updated_on = read_text(j, "updated_on")?;
        Ok(
            Project {
                id,
                name,
                identifier,
                description,
                homepage,
                status,
                is_public,
                created_on,
                updated_on,
            },
        )
    }
}

/// Accumulates the fields of a project to create, or the changes to a project
/// to update, and sends them.
#[derive(Debug)]
pub struct ProjectBuilder<'a> {
    client: Rc<RedmineClient>,
    kind: BuilderKind,
    update_id: u32,
    name: &'a str,
    identifier: &'a str,
    description: &'a str,
    homepage: &'a str,
    is_public: bool,
    parent_id: Option<u32>,
    inherit_members: bool,
}

/// A [`ProjectBuilder`] as plain data.
pub struct ProjectBuilderView {
    pub connection: ConnectionView,
    pub kind: BuilderKind,
    pub update_id: u32,
    pub name: Seq<char>,
    pub identifier: Seq<char>,
    pub description: Seq<char>,
    pub homepage: Seq<char>,
    pub is_public: bool,
    pub parent_id: Option<u32>,
    pub inherit_members: bool,
}

impl<'a> View for ProjectBuilder<'a> {
    type V = ProjectBuilderView;

    closed spec fn view(&self) -> ProjectBuilderView {
        ProjectBuilderView {
            connection: (*self.client)@,
            kind: self.kind,
            update_id: self.update_id,
            name: self.name@,
            identifier: self.identifier@,
            description: self.description@,
            homepage: self.homepage@,
            is_public: self.is_public,
            parent_id: self.parent_id,
            inherit_members: self.inherit_members,
        }
    }
}

impl ProjectBuilderView {
    /// The builder in which nothing is set.
    pub open spec fn unset(connection: ConnectionView, kind: BuilderKind) -> ProjectBuilderView {
        ProjectBuilderView {
            connection,
            kind,
            update_id: 0,
            name: Seq::empty(),
            identifier: Seq::empty(),
            description: Seq::empty(),
            homepage: Seq::empty(),
            is_public: false,
            parent_id: None,
            inherit_members: false,
        }
    }

    /// The members of the payload: one for each field that is set, in a
    /// fixed order; the flags are always there.
    pub open spec fn members(self) -> Seq<(Seq<char>, JsonModel)> {
        let m = with_text(Seq::empty(), "name"@, self.name);
        let m = with_text(m, "identifier"@, self.identifier);
        let m = with_text(m, "description"@, self.description);
        let m = with_text(m, "homepage"@, self.homepage);
        let m = with_bool(m, "is_public"@, self.is_public);
        let m = with_u32(m, "parent_id"@, self.parent_id);
        with_bool(m, "inherit_members"@, self.inherit_members)
    }

    /// The payload: the members under `project`.
    pub open spec fn payload(self) -> JsonModel {
        envelope("project"@, self.members())
    }

    /// The endpoint that the builder writes to: the collection for a
    /// creation, the project itself for an update.
    pub open spec fn path(self) -> Seq<char> {
        match self.kind {
            BuilderKind::Create => projects_path(),
            BuilderKind::Update => project_path(self.update_id),
        }
    }
}

impl<'a> ProjectBuilder<'a> {
    /// The builder in which nothing is set.
    fn unset(client: Rc<RedmineClient>, kind: BuilderKind) -> (b: ProjectBuilder<'a>)
        ensures
            b@ == ProjectBuilderView::unset((*client)@, kind),
    {
        proof {
            reveal_strlit("");
            assert(""@ =~= Seq::<char>::empty());
        }
        ProjectBuilder {
            client,
            kind,
            update_id: 0,
            name: "",
            identifier: "",
            description: "",
            homepage: "",
            is_public: false,
            parent_id: None,
            inherit_members: false,
        }
    }

    /// A builder that creates a project with the given mandatory fields.
    pub fn for_create(
        client: Rc<RedmineClient>,
        name: &'a str,
        identifier: &'a str,
    ) -> (b: ProjectBuilder<'a>)
        ensures
            b@ == (ProjectBuilderView {
                name: name@,
                identifier: identifier@,
                ..ProjectBuilderView::unset((*client)@, BuilderKind::Create)
            }),
    {
        let mut b = ProjectBuilder::unset(client, BuilderKind::Create);
        b.name = name;
        b.identifier = identifier;
        b
    }

    /// A builder that updates the project `id` and changes nothing yet.
    pub fn for_update(client: Rc<RedmineClient>, id: u32) -> (b: ProjectBuilder<'a>)
        ensures
            b@ == (ProjectBuilderView {
                update_id: id,
                ..ProjectBuilderView::unset((*client)@, BuilderKind::Update)
            }),
    {
        let mut b = ProjectBuilder::unset(client, BuilderKind::Update);
        b.update_id = id;
        b
    }

    /// Sets the name of the project.
    pub fn name(self, s: &'a str) -> (b: ProjectBuilder<'a>)
        ensures
            b@ == (ProjectBuilderView { name: s@, ..self@ }),
    {
        let mut b = self;
        b.name = s;
        b
    }

    /// Sets the identifier of the project.
    pub fn identifier(self, s: &'a str) -> (b: ProjectBuilder<'a>)
        ensures
            b@ == (ProjectBuilderView { identifier: s@, ..self@ }),
    {
        let mut b = self;
        b.identifier = s;
        b
    }

    /// Sets the description of the project.
    pub fn description(self, s: &'a str) -> (b: ProjectBuilder<'a>)
        ensures
            b@ == (ProjectBuilderView { description: s@, ..self@ }),
    {
        let mut b = self;
        b.description = s;
        b
    }

    /// Sets the homepage of the project.
    pub fn homepage(self, s: &'a str) -> (b: ProjectBuilder<'a>)
        ensures
            b@ == (ProjectBuilderView { homepage: s@, ..self@ }),
    {
        let mut b = self;
        b.homepage = s;
        b
    }

    /// Sets whether the project is public.
    pub fn is_public(self, flag: bool) -> (b: ProjectBuilder<'a>)
        ensures
            b@ == (ProjectBuilderView { is_public: flag, ..self@ }),
    {
        let mut b = self;
        b.is_public = flag;
        b
    }

    /// Sets the parent of the project.
    pub fn parent_id(self, id: u32) -> (b: ProjectBuilder<'a>)
        ensures
            b@ == (ProjectBuilderView { parent_id: Some(id), ..self@ }),
    {
        let mut b = self;
        b.parent_id = Some(id);
        b
    }

    /// Sets whether the project inherits the members of its parent.
    pub fn inherit_members(self, flag: bool) -> (b: ProjectBuilder<'a>)
        ensures
            b@ == (ProjectBuilderView { inherit_members: flag, ..self@ }),
    {
        let mut b = self;
        b.inherit_members = flag;
        b
    }

    /// The payload of the request.
    pub fn payload(&self) -> (r: Json)
        ensures
            r@ == self@.payload(),
    {
        let mut m: Vec<(String, Json)> = Vec::new();
        assert(members_view(m@) =~= Seq::empty());
        push_text(&mut m, "name", self.name);
        push_text(&mut m, "identifier", self.identifier);
        push_text(&mut m, "description", self.description);
        push_text(&mut m, "homepage", self.homepage);
        push_bool(&mut m, "is_public", self.is_public);
        push_u32(&mut m, "parent_id", self.parent_id);
        push_bool(&mut m, "inherit_members", self.inherit_members);
        Json::envelope("project", m)
    }

    /// Whether `reply` is how the round trip of the write may end.
    pub open spec fn round_trip<T: FnOnce(Request) -> Result<Response, String>>(
        &self,
        transport: T,
        reply: Result<ResponseView, Seq<char>>,
    ) -> bool {
        self@.connection.round_trip(
            transport,
            self@.kind.method(),
            self@.path(),
            Seq::empty(),
            Some(json_rendered(self@.payload())),
            reply,
        )
    }

    /// Sends the creation or the update. A creation returns the location of
    /// the new project, an update the confirmation.
    pub fn execute<T: FnOnce(Request) -> Result<Response, String>>(&self, transport: T) -> (r:
        Result<String, Error>)
        requires
            forall|q: Request| call_requires(transport, (q,)),
        ensures
            exists|reply: Result<ResponseView, Seq<char>>|
                #[trigger] self.round_trip(transport, reply) && text_view(r) == self@.kind.result(
                    reply,
                ),
    {
        let project = self.payload();
        proof {
            lemma_project_payload_depth(self@);
        }
        assert(self@.connection == (*self.client)@);
        match self.kind {
            BuilderKind::Create => {
                assert("/projects.json"@ == self@.path());
                assert(forall|reply: Result<ResponseView, Seq<char>>|
                    #[trigger] (*self.client)@.round_trip(
                        transport,
                        Method::Post,
                        "/projects.json"@,
                        Seq::empty(),
                        Some(json_rendered(project@)),
                        reply,
                    ) ==> self.round_trip(transport, reply));
                self.client.create("/projects.json", &project, transport)
            },
            BuilderKind::Update => {
                let path = make_item_path("/projects/", self.update_id, ".json");
                assert(path@ == self@.path());
                assert(forall|reply: Result<ResponseView, Seq<char>>|
                    #[trigger] (*self.client)@.round_trip(
                        transport,
                        Method::Put,
                        path@,
                        Seq::empty(),
                        Some(json_rendered(project@)),
                        reply,
                    ) ==> self.round_trip(transport, reply));
                self.client.update(path.as_str(), &project, transport)
            },
        }
    }
}

/// Default omission: the payload of a project holds a member for a field
/// exactly where the field is set, with the value that it was set to, and no
/// member under any other key. A whole number or a number is set where one was
/// given, a text or a list where it is not empty; a flag is always set.
pub proof fn lemma_project_members(b: ProjectBuilderView)
    ensures
        member(b.members(), "name"@) == text_member(b.name),
        member(b.members(), "identifier"@) == text_member(b.identifier),
        member(b.members(), "description"@) == text_member(b.description),
        member(b.members(), "homepage"@) == text_member(b.homepage),
        member(b.members(), "is_public"@) == Some(JsonModel::Bool(b.is_public)),
        member(b.members(), "parent_id"@) == u32_member(b.parent_id),
        member(b.members(), "inherit_members"@) == Some(JsonModel::Bool(b.inherit_members)),
        forall|key: Seq<char>|
            (#[trigger] member(b.members(), key)) is Some ==> key == "name"@
                || key == "identifier"@
                || key == "description"@
                || key == "homepage"@
                || key == "is_public"@
                || key == "parent_id"@
                || key == "inherit_members"@,
{
    reveal_strlit("name");
    reveal_strlit("identifier");
    reveal_strlit("description");
    reveal_strlit("homepage");
    reveal_strlit("is_public");
    reveal_strlit("parent_id");
    reveal_strlit("inherit_members");
    assert("name"@.len() == 4);
    assert("identifier"@.len() == 10);
    assert("description"@.len() == 11);
    assert("homepage"@.len() == 8);
    assert("is_public"@.len() == 9);
    assert("parent_id"@.len() == 9);
    assert("inherit_members"@.len() == 15);
    assert("is_public"@[0] != "parent_id"@[0]);
    let m0 = Seq::<(Seq<char>, JsonModel)>::empty();
    assert(forall|key: Seq<char>| (#[trigger] member(m0, key)) is None);
    lemma_with_text(m0, "name"@, b.name);
    let m1 = with_text(m0, "name"@, b.name);
    lemma_with_text(m1, "identifier"@, b.identifier);
    let m2 = with_text(m1, "identifier"@, b.identifier);
    lemma_with_text(m2, "description"@, b.description);
    let m3 = with_text(m2, "description"@, b.description);
    lemma_with_text(m3, "homepage"@, b.homepage);
    let m4 = with_text(m3, "homepage"@, b.homepage);
    lemma_with_bool(m4, "is_public"@, b.is_public);
    let m5 = with_bool(m4, "is_public"@, b.is_public);
    lemma_with_u32(m5, "parent_id"@, b.parent_id);
    let m6 = with_u32(m5, "parent_id"@, b.parent_id);
    lemma_with_bool(m6, "inherit_members"@, b.inherit_members);
    let m7 = with_bool(m6, "inherit_members"@, b.inherit_members);
    assert(m7 == b.members());
}

/// An update in which nothing was set is a PUT to the project itself whose
/// payload holds only the flags, each `false`: no field that was left alone is
/// sent.
pub proof fn lemma_project_update_unchanged(connection: ConnectionView, id: u32)
    ensures
        ({
            let unset = ProjectBuilderView::unset(connection, BuilderKind::Update);
            let b = ProjectBuilderView { update_id: id, ..unset };
            &&& b.kind.method() == Method::Put
            &&& b.path() == project_path(id)
            &&& b.members() == seq![
                ("is_public"@, JsonModel::Bool(false)),
                ("inherit_members"@, JsonModel::Bool(false)),
            ]
        }),
{
    let unset = ProjectBuilderView::unset(connection, BuilderKind::Update);
    let b = ProjectBuilderView { update_id: id, ..unset };
    assert(b.members() =~= seq![
        ("is_public"@, JsonModel::Bool(false)),
        ("inherit_members"@, JsonModel::Bool(false)),
    ]);
}

/// Round trip: read back with the decoders of [`Project`], the payload of
/// a project gives each field that the builder and the record share the
/// value that it was set to. A text counts as set where it is not empty.
pub proof fn lemma_project_round_trip(b: ProjectBuilderView)
    ensures
        b.name.len() > 0 ==> required_text(JsonModel::Object(b.members()), "name"@) == Some(b.name),
        b.identifier.len() > 0 ==> required_text(JsonModel::Object(b.members()), "identifier"@)
            == Some(b.identifier),
        b.description.len() > 0 ==> optional_text(JsonModel::Object(b.members()), "description"@)
            == Some(Some(b.description)),
        b.homepage.len() > 0 ==> optional_text(JsonModel::Object(b.members()), "homepage"@) == Some(
            Some(b.homepage),
        ),
        optional_bool(JsonModel::Object(b.members()), "is_public"@) == Some(Some(b.is_public)),
{
    lemma_project_members(b);
}

/// The payload of a project nests three deep, within what is printed.
pub proof fn lemma_project_payload_depth(b: ProjectBuilderView)
    ensures
        b.payload().within(RENDER_DEPTH as nat),
{
    let m0 = Seq::<(Seq<char>, JsonModel)>::empty();
    lemma_flat(m0, "name"@);
    let m1 = with_text(m0, "name"@, b.name);
    lemma_flat(m1, "identifier"@);
    let m2 = with_text(m1, "identifier"@, b.identifier);
    lemma_flat(m2, "description"@);
    let m3 = with_text(m2, "description"@, b.description);
    lemma_flat(m3, "homepage"@);
    let m4 = with_text(m3, "homepage"@, b.homepage);
    lemma_flat(m4, "is_public"@);
    let m5 = with_bool(m4, "is_public"@, b.is_public);
    lemma_flat(m5, "parent_id"@);
    let m6 = with_u32(m5, "parent_id"@, b.parent_id);
    lemma_flat(m6, "inherit_members"@);
    let m7 = with_bool(m6, "inherit_members"@, b.inherit_members);
    assert(m7 == b.members());
    lemma_envelope_depth("project"@, b.members());
}

} // verus!
