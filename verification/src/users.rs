//! The users of a Redmine instance: listing, lookup, creation, update and
//! deletion.

use crate::client::{
    delete_result, flag_view, get_result, option_view, pairs_view, text_view, BuilderKind,
    ConnectionView, Method, RedmineClient, Request, Response, ResponseView,
};
use crate::decode::{
    finish_list, finish_record, listed, optional_text, read_optional_text, read_text, read_u32,
    record_view, records_view, required_text, required_u32, shown, Resource,
};
use crate::errors::{Error, ErrorView};
use crate::json::{
    envelope, json_rendered, lemma_envelope_depth, lemma_flat, lemma_with_bool, lemma_with_text,
    lemma_with_u32, member, members_view, push_bool, push_text, push_u32, text_member, u32_member,
    with_bool, with_text, with_u32, Json, JsonModel, RENDER_DEPTH,
};
use crate::text::{item_path, make_item_path};
use std::rc::Rc;
use vstd::prelude::*;

verus! {

/// The endpoint of the collection of users.
pub open spec fn users_path() -> Seq<char> {
    "/users.json"@
}

/// The endpoint of one user.
pub open spec fn user_path(id: u32) -> Seq<char> {
    item_path("/users/"@, id, ".json"@)
}

/// Exposes the operations on users.
pub struct Api {
    client: Rc<RedmineClient>,
}

impl Api {
    /// The connection that every operation made here goes through.
    pub closed spec fn connection(&self) -> ConnectionView {
        (*self.client)@
    }

    /// The operations on users over the given connection.
    pub fn new(client: Rc<RedmineClient>) -> (api: Api)
        ensures
            api.connection() == (*client)@,
    {
        Api { client }
    }

    /// The listing of the users.
    pub fn list(&self) -> (op: UserFilter)
        ensures
            op.connection() == self.connection(),
    {
        UserFilter::new(Rc::clone(&self.client))
    }

    /// The lookup of the user `id`.
    pub fn show(&self, id: u32) -> (op: UserShow)
        ensures
            op.connection() == self.connection(),
            op.id() == id,
    {
        UserShow { client: Rc::clone(&self.client), show_id: id }
    }

    /// A builder that creates an user with the given mandatory fields.
    pub fn create<'a>(
        &self,
        login: &'a str,
        firstname: &'a str,
        lastname: &'a str,
        mail: &'a str,
    ) -> (b: UserBuilder<'a>)
        ensures
            b@ == (UserBuilderView {
                login: login@,
                firstname: firstname@,
                lastname: lastname@,
                mail: mail@,
                ..UserBuilderView::unset(self.connection(), BuilderKind::Create)
            }),
    {
        UserBuilder::for_create(Rc::clone(&self.client), login, firstname, lastname, mail)
    }

    /// A builder that updates the user `id` and changes nothing yet.
    pub fn update<'a>(&self, id: u32) -> (b: UserBuilder<'a>)
        ensures
            b@ == (UserBuilderView {
                update_id: id,
                ..UserBuilderView::unset(self.connection(), BuilderKind::Update)
            }),
    {
        UserBuilder::for_update(Rc::clone(&self.client), id)
    }

    /// The deletion of the user `id`.
    pub fn delete(&self, id: u32) -> (op: UserDelete)
        ensures
            op.connection() == self.connection(),
            op.id() == id,
    {
        UserDelete { client: Rc::clone(&self.client), delete_id: id }
    }
}

/// The listing of the users.
pub struct UserFilter {
    client: Rc<RedmineClient>,
}

impl UserFilter {
    /// The connection that the listing goes through.
    pub closed spec fn connection(&self) -> ConnectionView {
        (*self.client)@
    }

    /// The listing over the given connection.
    pub fn new(client: Rc<RedmineClient>) -> (op: UserFilter)
        ensures
            op.connection() == (*client)@,
    {
        UserFilter { client }
    }

    /// Whether `reply` is how the round trip of the operation may end.
    pub open spec fn round_trip<T: FnOnce(Request) -> Result<Response, String>>(
        &self,
        transport: T,
        reply: Result<ResponseView, Seq<char>>,
    ) -> bool {
        self.connection().round_trip(
            transport,
            Method::Get,
            users_path(),
            Seq::empty(),
            None,
            reply,
        )
    }

    /// Fetches the users: the records under `users` in the body of the
    /// response, a parse error where the body holds none.
    pub fn execute<T: FnOnce(Request) -> Result<Response, String>>(&self, transport: T) -> (r:
        Result<UserList, Error>)
        requires
            forall|q: Request| call_requires(transport, (q,)),
        ensures
            exists|reply: Result<ResponseView, Seq<char>>|
                #[trigger] self.round_trip(transport, reply)
                    && users_view(r) == listed::<User>("users"@, get_result(reply)),
    {
        assert("/users.json"@ == users_path());
        assert(self.connection() == (*self.client)@);
        let none: Vec<(String, String)> = Vec::new();
        assert(pairs_view(none@) =~= Seq::empty());
        assert(forall|reply: Result<ResponseView, Seq<char>>|
            #[trigger] (*self.client)@.round_trip(
                transport,
                Method::Get,
                "/users.json"@,
                Seq::empty(),
                None,
                reply,
            ) ==> self.round_trip(transport, reply));
        let fetched = self.client.get("/users.json", none, transport);
        match finish_list::<User>(fetched, "users") {
            Ok(users) => Ok(UserList { users }),
            Err(e) => Err(e),
        }
    }
}

/// The users that a listing returned, in the order of the response.
#[derive(Debug)]
pub struct UserList {
    users: Vec<User>,
}

impl View for UserList {
    type V = Seq<UserView>;

    closed spec fn view(&self) -> Seq<UserView> {
        records_view(self.users@)
    }
}

/// The result of a listing of users as plain data.
pub open spec fn users_view(r: Result<UserList, Error>) -> Result<Seq<UserView>, ErrorView> {
    match r {
        Ok(list) => Ok(list@),
        Err(e) => Err(e@),
    }
}

impl UserList {
    /// The number of users.
    pub fn len(&self) -> (n: usize)
        ensures
            n == self@.len(),
    {
        self.users.len()
    }

    /// The user at position `i`.
    pub fn get(&self, i: usize) -> (r: Option<&User>)
        ensures
            match r {
                Some(user) => i < self@.len() && user@ == self@[i as int],
                None => i >= self@.len(),
            },
    {
        if i < self.users.len() {
            Some(&self.users[i])
        } else {
            None
        }
    }

    /// The users themselves.
    pub fn into_vec(self) -> (v: Vec<User>)
        ensures
            records_view(v@) == self@,
    {
        self.users
    }
}

/// The lookup of one user.
pub struct UserShow {
    client: Rc<RedmineClient>,
    show_id: u32,
}

impl UserShow {
    /// The connection that the lookup goes through.
    pub closed spec fn connection(&self) -> ConnectionView {
        (*self.client)@
    }

    /// The user to look up.
    pub closed spec fn id(&self) -> u32 {
        self.show_id
    }

    /// Whether `reply` is how the round trip of the operation may end.
    pub open spec fn round_trip<T: FnOnce(Request) -> Result<Response, String>>(
        &self,
        transport: T,
        reply: Result<ResponseView, Seq<char>>,
    ) -> bool {
        self.connection().round_trip(
            transport,
            Method::Get,
            user_path(self.id()),
            Seq::empty(),
            None,
            reply,
        )
    }

    /// Fetches the user: the record under `user` in the body of the
    /// response, a parse error where the body holds none.
    pub fn execute<T: FnOnce(Request) -> Result<Response, String>>(&self, transport: T) -> (r:
        Result<User, Error>)
        requires
            forall|q: Request| call_requires(transport, (q,)),
        ensures
            exists|reply: Result<ResponseView, Seq<char>>|
                #[trigger] self.round_trip(transport, reply)
                    && record_view(r) == shown::<User>("user"@, get_result(reply)),
    {
        let path = make_item_path("/users/", self.show_id, ".json");
        assert(path@ == user_path(self.id()));
        assert(self.connection() == (*self.client)@);
        let none: Vec<(String, String)> = Vec::new();
        assert(pairs_view(none@) =~= Seq::empty());
        assert(forall|reply: Result<ResponseView, Seq<char>>|
            #[trigger] (*self.client)@.round_trip(
                transport,
                Method::Get,
                path@,
                Seq::empty(),
                None,
                reply,
            ) ==> self.round_trip(transport, reply));
        let fetched = self.client.get(path.as_str(), none, transport);
        finish_record::<User>(fetched, "user")
    }
}

/// The deletion of one user.
pub struct UserDelete {
    client: Rc<RedmineClient>,
    delete_id: u32,
}

impl UserDelete {
    /// The connection that the deletion goes through.
    pub closed spec fn connection(&self) -> ConnectionView {
        (*self.client)@
    }

    /// The user to delete.
    pub closed spec fn id(&self) -> u32 {
        self.delete_id
    }

    /// Whether `reply` is how the round trip of the operation may end.
    pub open spec fn round_trip<T: FnOnce(Request) -> Result<Response, String>>(
        &self,
        transport: T,
        reply: Result<ResponseView, Seq<char>>,
    ) -> bool {
        self.connection().round_trip(
            transport,
            Method::Delete,
            user_path(self.id()),
            Seq::empty(),
            None,
            reply,
        )
    }

    /// Deletes the user: `true` for a success status, an API error for any other.
    pub fn execute<T: FnOnce(Request) -> Result<Response, String>>(&self, transport: T) -> (r:
        Result<bool, Error>)
        requires
            forall|q: Request| call_requires(transport, (q,)),
        ensures
            exists|reply: Result<ResponseView, Seq<char>>|
                #[trigger] self.round_trip(transport, reply)
                    && flag_view(r) == delete_result(reply),
    {
        let path = make_item_path("/users/", self.delete_id, ".json");
        assert(path@ == user_path(self.id()));
        assert(self.connection() == (*self.client)@);
        assert(forall|reply: Result<ResponseView, Seq<char>>|
            #[trigger] (*self.client)@.round_trip(
                transport,
                Method::Delete,
                path@,
                Seq::empty(),
                None,
                reply,
            ) ==> self.round_trip(transport, reply));
        self.client.delete(path.as_str(), transport)
    }
}

/// A user as the service reports it.
#[derive(Debug)]
pub struct User {
    pub id: u32,
    pub login: String,
    pub firstname: String,
    pub lastname: String,
    pub mail: String,
    pub created_on: String,
    pub last_login_on: Option<String>,
}

/// An [`User`] as plain data.
pub struct UserView {
    pub id: u32,
    pub login: Seq<char>,
    pub firstname: Seq<char>,
    pub lastname: Seq<char>,
    pub mail: Seq<char>,
    pub created_on: Seq<char>,
    pub last_login_on: Option<Seq<char>>,
}

impl View for User {
    type V = UserView;

    open spec fn view(&self) -> UserView {
        UserView {
            id: self.id,
            login: self.login@,
            firstname: self.firstname@,
            lastname: self.lastname@,
            mail: self.mail@,
            created_on: self.created_on@,
            last_login_on: option_view(self.last_login_on),
        }
    }
}

impl Resource for User {
    /// The user that an object stands for: each member read as the type of
    /// its field, a member of an optional field absent or `null` at will;
    /// `None` where a member is missing or holds another type.
    open spec fn of(j: JsonModel) -> Option<UserView> {
        if required_u32(j, "id"@) is Some
            && required_text(j, "login"@) is Some
            && required_text(j, "firstname"@) is Some
            && required_text(j, "lastname"@) is Some
            && required_text(j, "mail"@) is Some
            && required_text(j, "created_on"@) is Some
            && optional_text(j, "last_login_on"@) is Some {
            Some(
                UserView {
                    id: required_u32(j, "id"@)->0,
                    login: required_text(j, "login"@)->0,
                    firstname: required_text(j, "firstname"@)->0,
                    lastname: required_text(j, "lastname"@)->0,
                    mail: required_text(j, "mail"@)->0,
                    created_on: required_text(j, "created_on"@)->0,
                    last_login_on: optional_text(j, "last_login_on"@)->0,
                },
            )
        } else {
            None
        }
    }

    fn decode(j: &Json) -> (r: Result<User, Error>) {
        let id = read_u32(j, "id")?;
        let login = read_text(j, "login")?;
        let firstname = read_text(j, "firstname")?;
        let lastname = read_text(j, "lastname")?;
        let mail = read_text(j, "mail")?;
        let created_on = read_text(j, "created_on")?;
        let last_login_on = read_optional_text(j, "last_login_on")?;
        Ok(User { id, login, firstname, lastname, mail, created_on, last_login_on })
    }
}

/// Accumulates the fields of an user to create, or the changes to an user
/// to update, and sends them.
#[derive(Debug)]
pub struct UserBuilder<'a> {
    client: Rc<RedmineClient>,
    kind: BuilderKind,
    update_id: u32,
    login: &'a str,
    firstname: &'a str,
    lastname: &'a str,
    mail: &'a str,
    password: &'a str,
    auth_source_id: Option<u32>,
    must_change_passwd: bool,
    generate_password: bool,
}

/// An [`UserBuilder`] as plain data.
pub struct UserBuilderView {
    pub connection: ConnectionView,
    pub kind: BuilderKind,
    pub update_id: u32,
    pub login: Seq<char>,
    pub firstname: Seq<char>,
    pub lastname: Seq<char>,
    pub mail: Seq<char>,
    pub password: Seq<char>,
    pub auth_source_id: Option<u32>,
    pub must_change_passwd: bool,
    pub generate_password: bool,
}

impl<'a> View for UserBuilder<'a> {
    type V = UserBuilderView;

    closed spec fn view(&self) -> UserBuilderView {
        UserBuilderView {
            connection: (*self.client)@,
            kind: self.kind,
            update_id: self.update_id,
            login: self.login@,
            firstname: self.firstname@,
            lastname: self.lastname@,
            mail: self.mail@,
            password: self.password@,
            auth_source_id: self.auth_source_id,
            must_change_passwd: self.must_change_passwd,
            generate_password: self.generate_password,
        }
    }
}

impl UserBuilderView {
    /// The builder in which nothing is set.
    pub open spec fn unset(connection: ConnectionView, kind: BuilderKind) -> UserBuilderView {
        UserBuilderView {
            connection,
            kind,
            update_id: 0,
            login: Seq::empty(),
            firstname: Seq::empty(),
            lastname: Seq::empty(),
            mail: Seq::empty(),
            password: Seq::empty(),
            auth_source_id: None,
            must_change_passwd: false,
            generate_password: false,
        }
    }

    /// The members of the payload: one for each field that is set, in a
    /// fixed order; the flags are always there.
    pub open spec fn members(self) -> Seq<(Seq<char>, JsonModel)> {
        let m = with_text(Seq::empty(), "login"@, self.login);
        let m = with_text(m, "firstname"@, self.firstname);
        let m = with_text(m, "lastname"@, self.lastname);
        let m = with_text(m, "mail"@, self.mail);
        let m = with_text(m, "password"@, self.password);
        let m = with_u32(m, "auth_source_id"@, self.auth_source_id);
        let m = with_bool(m, "must_change_passwd"@, self.must_change_passwd);
        with_bool(m, "generate_password"@, self.generate_password)
    }

    /// The payload: the members under `user`.
    pub open spec fn payload(self) -> JsonModel {
        envelope("user"@, self.members())
    }

    /// The endpoint that the builder writes to: the collection for a
    /// creation, the user itself for an update.
    pub open spec fn path(self) -> Seq<char> {
        match self.kind {
            BuilderKind::Create => users_path(),
            BuilderKind::Update => user_path(self.update_id),
        }
    }
}

impl<'a> UserBuilder<'a> {
    /// The builder in which nothing is set.
    fn unset(client: Rc<RedmineClient>, kind: BuilderKind) -> (b: UserBuilder<'a>)
        ensures
            b@ == UserBuilderView::unset((*client)@, kind),
    {
        proof {
            reveal_strlit("");
            assert(""@ =~= Seq::<char>::empty());
        }
        UserBuilder {
            client,
            kind,
            update_id: 0,
            login: "",
            firstname: "",
            lastname: "",
            mail: "",
            password: "",
            auth_source_id: None,
            must_change_passwd: false,
            generate_password: false,
        }
    }

    /// A builder that creates an user with the given mandatory fields.
    pub fn for_create(
        client: Rc<RedmineClient>,
        login: &'a str,
        firstname: &'a str,
        lastname: &'a str,
        mail: &'a str,
    ) -> (b: UserBuilder<'a>)
        ensures
            b@ == (UserBuilderView {
                login: login@,
                firstname: firstname@,
                lastname: lastname@,
                mail: mail@,
                ..UserBuilderView::unset((*client)@, BuilderKind::Create)
            }),
    {
        let mut b = UserBuilder::unset(client, BuilderKind::Create);
        b.login = login;
        b.firstname = firstname;
        b.lastname = lastname;
        b.mail = mail;
        b
    }

    /// A builder that updates the user `id` and changes nothing yet.
    pub fn for_update(client: Rc<RedmineClient>, id: u32) -> (b: UserBuilder<'a>)
        ensures
            b@ == (UserBuilderView {
                update_id: id,
                ..UserBuilderView::unset((*client)@, BuilderKind::Update)
            }),
    {
        let mut b = UserBuilder::unset(client, BuilderKind::Update);
        b.update_id = id;
        b
    }

    /// Sets the login of the user.
    pub fn login(self, s: &'a str) -> (b: UserBuilder<'a>)
        ensures
            b@ == (UserBuilderView { login: s@, ..self@ }),
    {
        let mut b = self;
        b.login = s;
        b
    }

    /// Sets the first name of the user.
    pub fn firstname(self, s: &'a str) -> (b: UserBuilder<'a>)
        ensures
            b@ == (UserBuilderView { firstname: s@, ..self@ }),
    {
        let mut b = self;
        b.firstname = s;
        b
    }

    /// Sets the last name of the user.
    pub fn lastname(self, s: &'a str) -> (b: UserBuilder<'a>)
        ensures
            b@ == (UserBuilderView { lastname: s@, ..self@ }),
    {
        let mut b = self;
        b.lastname = s;
        b
    }

    /// Sets the mail address of the user.
    pub fn mail(self, s: &'a str) -> (b: UserBuilder<'a>)
        ensures
            b@ == (UserBuilderView { mail: s@, ..self@ }),
    {
        let mut b = self;
        b.mail = s;
        b
    }

    /// Sets the password of the user.
    pub fn password(self, s: &'a str) -> (b: UserBuilder<'a>)
        ensures
            b@ == (UserBuilderView { password: s@, ..self@ }),
    {
        let mut b = self;
        b.password = s;
        b
    }

    /// Sets the authentication source of the user.
    pub fn auth_source_id(self, id: u32) -> (b: UserBuilder<'a>)
        ensures
            b@ == (UserBuilderView { auth_source_id: Some(id), ..self@ }),
    {
        let mut b = self;
        b.auth_source_id = Some(id);
        b
    }

    /// Sets whether the user must change the password at the next login.
    pub fn must_change_passwd(self, flag: bool) -> (b: UserBuilder<'a>)
        ensures
            b@ == (UserBuilderView { must_change_passwd: flag, ..self@ }),
    {
        let mut b = self;
        b.must_change_passwd = flag;
        b
    }

    /// Sets whether the service generates the password of the user.
    pub fn generate_password(self, flag: bool) -> (b: UserBuilder<'a>)
        ensures
            b@ == (UserBuilderView { generate_password: flag, ..self@ }),
    {
        let mut b = self;
        b.generate_password = flag;
        b
    }

    /// The payload of the request.
    pub fn payload(&self) -> (r: Json)
        ensures
            r@ == self@.payload(),
    {
        let mut m: Vec<(String, Json)> = Vec::new();
        assert(members_view(m@) =~= Seq::empty());
        push_text(&mut m, "login", self.login);
        push_text(&mut m, "firstname", self.firstname);
        push_text(&mut m, "lastname", self.lastname);
        push_text(&mut m, "mail", self.mail);
        push_text(&mut m, "password", self.password);
        push_u32(&mut m, "auth_source_id", self.auth_source_id);
        push_bool(&mut m, "must_change_passwd", self.must_change_passwd);
        push_bool(&mut m, "generate_password", self.generate_password);
        Json::envelope("user", m)
    }

    /// Whether `reply` is how the round trip of the write may end.
    pub open spec fn round_trip<T: FnOnce(Request) -> Result<Response, String>>(
        &self,
        transport: T,
        reply: Result<ResponseView, Seq<char>>,
    ) -> bool {
        self@.connection.round_trip(
            transport,
            self@.kind.method(),
            self@.path(),
            Seq::empty(),
            Some(json_rendered(self@.payload())),
            reply,
        )
    }

    /// Sends the creation or the update. A creation returns the location of
    /// the new user, an update the confirmation.
    pub fn execute<T: FnOnce(Request) -> Result<Response, String>>(&self, transport: T) -> (r:
        Result<String, Error>)
        requires
            forall|q: Request| call_requires(transport, (q,)),
        ensures
            exists|reply: Result<ResponseView, Seq<char>>|
                #[trigger] self.round_trip(transport, reply) && text_view(r) == self@.kind.result(
                    reply,
                ),
    {
        let user = self.payload();
        proof {
            lemma_user_payload_depth(self@);
        }
        assert(self@.connection == (*self.client)@);
        match self.kind {
            BuilderKind::Create => {
                assert("/users.json"@ == self@.path());
                assert(forall|reply: Result<ResponseView, Seq<char>>|
                    #[trigger] (*self.client)@.round_trip(
                        transport,
                        Method::Post,
                        "/users.json"@,
                        Seq::empty(),
                        Some(json_rendered(user@)),
                        reply,
                    ) ==> self.round_trip(transport, reply));
                self.client.create("/users.json", &user, transport)
            },
            BuilderKind::Update => {
                let path = make_item_path("/users/", self.update_id, ".json");
                assert(path@ == self@.path());
                assert(forall|reply: Result<ResponseView, Seq<char>>|
                    #[trigger] (*self.client)@.round_trip(
                        transport,
                        Method::Put,
                        path@,
                        Seq::empty(),
                        Some(json_rendered(user@)),
                        reply,
                    ) ==> self.round_trip(transport, reply));
                self.client.update(path.as_str(), &user, transport)
            },
        }
    }
}

/// Default omission: the payload of an user holds a member for a field
/// exactly where the field is set, with the value that it was set to, and no
/// member under any other key. A whole number or a number is set where one was
/// given, a text or a list where it is not empty; a flag is always set.
pub proof fn lemma_user_members(b: UserBuilderView)
    ensures
        member(b.members(), "login"@) == text_member(b.login),
        member(b.members(), "firstname"@) == text_member(b.firstname),
        member(b.members(), "lastname"@) == text_member(b.lastname),
        member(b.members(), "mail"@) == text_member(b.mail),
        member(b.members(), "password"@) == text_member(b.password),
        member(b.members(), "auth_source_id"@) == u32_member(b.auth_source_id),
        member(b.members(), "must_change_passwd"@) == Some(JsonModel::Bool(b.must_change_passwd)),
        member(b.members(), "generate_password"@) == Some(JsonModel::Bool(b.generate_password)),
        forall|key: Seq<char>|
            (#[trigger] member(b.members(), key)) is Some ==> key == "login"@
                || key == "firstname"@
                || key == "lastname"@
                || key == "mail"@
                || key == "password"@
                || key == "auth_source_id"@
                || key == "must_change_passwd"@
                || key == "generate_password"@,
{
    reveal_strlit("login");
    reveal_strlit("firstname");
    reveal_strlit("lastname");
    reveal_strlit("mail");
    reveal_strlit("password");
    reveal_strlit("auth_source_id");
    reveal_strlit("must_change_passwd");
    reveal_strlit("generate_password");
    assert("login"@.len() == 5);
    assert("firstname"@.len() == 9);
    assert("lastname"@.len() == 8);
    assert("mail"@.len() == 4);
    assert("password"@.len() == 8);
    assert("auth_source_id"@.len() == 14);
    assert("must_change_passwd"@.len() == 18);
    assert("generate_password"@.len() == 17);
    assert("lastname"@[0] != "password"@[0]);
    let m0 = Seq::<(Seq<char>, JsonModel)>::empty();
    assert(forall|key: Seq<char>| (#[trigger] member(m0, key)) is None);
    lemma_with_text(m0, "login"@, b.login);
    let m1 = with_text(m0, "login"@, b.login);
    lemma_with_text(m1, "firstname"@, b.firstname);
    let m2 = with_text(m1, "firstname"@, b.firstname);
    lemma_with_text(m2, "lastname"@, b.lastname);
    let m3 = with_text(m2, "lastname"@, b.lastname);
    lemma_with_text(m3, "mail"@, b.mail);
    let m4 = with_text(m3, "mail"@, b.mail);
    lemma_with_text(m4, "password"@, b.password);
    let m5 = with_text(m4, "password"@, b.password);
    lemma_with_u32(m5, "auth_source_id"@, b.auth_source_id);
    let m6 = with_u32(m5, "auth_source_id"@, b.auth_source_id);
    lemma_with_bool(m6, "must_change_passwd"@, b.must_change_passwd);
    let m7 = with_bool(m6, "must_change_passwd"@, b.must_change_passwd);
    lemma_with_bool(m7, "generate_password"@, b.generate_password);
    let m8 = with_bool(m7, "generate_password"@, b.generate_password);
    assert(m8 == b.members());
}

/// An update in which nothing was set is a PUT to the user itself whose
/// payload holds only the flags, each `false`: no field that was left alone is
/// sent.
pub proof fn lemma_user_update_unchanged(connection: ConnectionView, id: u32)
    ensures
        ({
            let unset = UserBuilderView::unset(connection, BuilderKind::Update);
            let b = UserBuilderView { update_id: id, ..unset };
            &&& b.kind.method() == Method::Put
            &&& b.path() == user_path(id)
            &&& b.members() == seq![
                ("must_change_passwd"@, JsonModel::Bool(false)),
                ("generate_password"@, JsonModel::Bool(false)),
            ]
        }),
{
    let unset = UserBuilderView::unset(connection, BuilderKind::Update);
    let b = UserBuilderView { update_id: id, ..unset };
    assert(b.members() =~= seq![
        ("must_change_passwd"@, JsonModel::Bool(false)),
        ("generate_password"@, JsonModel::Bool(false)),
    ]);
}

/// Round trip: read back with the decoders of [`User`], the payload of
/// an user gives each field that the builder and the record share the
/// value that it was set to. A text counts as set where it is not empty.
pub proof fn lemma_user_round_trip(b: UserBuilderView)
    ensures
        b.login.len() > 0 ==> required_text(JsonModel::Object(b.members()), "login"@)
            == Some(b.login),
        b.firstname.len() > 0 ==> required_text(JsonModel::Object(b.members()), "firstname"@)
            == Some(b.firstname),
        b.lastname.len() > 0 ==> required_text(JsonModel::Object(b.members()), "lastname"@)
            == Some(b.lastname),
        b.mail.len() > 0 ==> required_text(JsonModel::Object(b.members()), "mail"@) == Some(b.mail),
{
    lemma_user_members(b);
}

/// The payload of an user nests three deep, within what is printed.
pub proof fn lemma_user_payload_depth(b: UserBuilderView)
    ensures
        b.payload().within(RENDER_DEPTH as nat),
{
    let m0 = Seq::<(Seq<char>, JsonModel)>::empty();
    lemma_flat(m0, "login"@);
    let m1 = with_text(m0, "login"@, b.login);
    lemma_flat(m1, "firstname"@);
    let m2 = with_text(m1, "firstname"@, b.firstname);
    lemma_flat(m2, "lastname"@);
    let m3 = with_text(m2, "lastname"@, b.lastname);
    lemma_flat(m3, "mail"@);
    let m4 = with_text(m3, "mail"@, b.mail);
    lemma_flat(m4, "password"@);
    let m5 = with_text(m4, "password"@, b.password);
    lemma_flat(m5, "auth_source_id"@);
    let m6 = with_u32(m5, "auth_source_id"@, b.auth_source_id);
    lemma_flat(m6, "must_change_passwd"@);
    let m7 = with_bool(m6, "must_change_passwd"@, b.must_change_passwd);
    lemma_flat(m7, "generate_password"@);
    let m8 = with_bool(m7, "generate_password"@, b.generate_password);
    assert(m8 == b.members());
    lemma_envelope_depth("user"@, b.members());
}

} // verus!
