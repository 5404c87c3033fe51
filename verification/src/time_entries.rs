//! The time entries of a Redmine instance: listing with filters, lookup,
//! creation and update.

use crate::client::{
    get_result, id_param, lemma_with_param, pairs_view, param, push_param, text_view, with_param,
    BuilderKind, ConnectionView, Method, RedmineClient, Request, Response, ResponseView,
};
use crate::decode::{
    finish_list, finish_record, listed, numeral_view, read_named, read_numeral, read_object,
    read_text, read_u32, record_view, records_view, required_named, required_numeral,
    required_object, required_text, required_u32, shown, NamedObject, NamedObjectView, Object,
    Resource,
};
use crate::errors::{Error, ErrorView};
use crate::json::{
    envelope, json_rendered, lemma_envelope_depth, lemma_flat, lemma_with_numeral, lemma_with_text,
    lemma_with_u32, member, members_view, numeral_member, push_numeral, push_text, push_u32,
    text_member, u32_member, with_numeral, with_text, with_u32, Json, JsonModel, Numeral,
    NumeralModel, RENDER_DEPTH,
};
use crate::text::{item_path, make_item_path};
use std::rc::Rc;
use vstd::prelude::*;

verus! {

/// The endpoint of the collection of time entries.
pub open spec fn time_entries_path() -> Seq<char> {
    "/time_entries.json"@
}

/// The endpoint of one time entry.
pub open spec fn time_entry_path(id: u32) -> Seq<char> {
    item_path("/time_entries/"@, id, ".json"@)
}

/// Exposes the operations on time entries.
pub struct Api {
    client: Rc<RedmineClient>,
}

impl Api {
    /// The connection that every operation made here goes through.
    pub closed spec fn connection(&self) -> ConnectionView {
        (*self.client)@
    }

    /// The operations on time entries over the given connection.
    pub fn new(client: Rc<RedmineClient>) -> (api: Api)
        ensures
            api.connection() == (*client)@,
    {
        Api { client }
    }

    /// A filter that matches every time entry, to be narrowed and executed.
    pub fn list(&self) -> (filter: TimeEntryFilter)
        ensures
            filter@ == TimeEntryFilterView::unset(self.connection()),
    {
        TimeEntryFilter::new(Rc::clone(&self.client))
    }

    /// The lookup of the time entry `id`.
    pub fn show(&self, id: u32) -> (op: TimeEntryShow)
        ensures
            op.connection() == self.connection(),
            op.id() == id,
    {
        TimeEntryShow { client: Rc::clone(&self.client), show_id: id }
    }

    /// A builder that creates a time entry with the given mandatory fields.
    pub fn create<'a>(
        &self,
        issue_id: u32,
        hours: Numeral,
        activity_id: u32,
    ) -> (b: TimeEntryBuilder<'a>)
        ensures
            b@ == (TimeEntryBuilderView {
                issue_id: Some(issue_id),
                hours: Some(hours@),
                activity_id: Some(activity_id),
                ..TimeEntryBuilderView::unset(self.connection(), BuilderKind::Create)
            }),
    {
        TimeEntryBuilder::for_create(Rc::clone(&self.client), issue_id, hours, activity_id)
    }

    /// A builder that updates the time entry `id` and changes nothing yet.
    pub fn update<'a>(&self, id: u32) -> (b: TimeEntryBuilder<'a>)
        ensures
            b@ == (TimeEntryBuilderView {
                update_id: id,
                ..TimeEntryBuilderView::unset(self.connection(), BuilderKind::Update)
            }),
    {
        TimeEntryBuilder::for_update(Rc::clone(&self.client), id)
    }
}

/// The constraints that a listing of time entries is narrowed by.
pub struct TimeEntryFilter {
    client: Rc<RedmineClient>,
    user_id: Option<u32>,
    project_id: Option<u32>,
}

/// A [`TimeEntryFilter`] as plain data.
pub struct TimeEntryFilterView {
    pub connection: ConnectionView,
    pub user_id: Option<u32>,
    pub project_id: Option<u32>,
}

impl View for TimeEntryFilter {
    type V = TimeEntryFilterView;

    closed spec fn view(&self) -> TimeEntryFilterView {
        TimeEntryFilterView {
            connection: (*self.client)@,
            user_id: self.user_id,
            project_id: self.project_id,
        }
    }
}

impl TimeEntryFilterView {
    /// The filter without any constraint.
    pub open spec fn unset(connection: ConnectionView) -> TimeEntryFilterView {
        TimeEntryFilterView { connection, user_id: None, project_id: None }
    }

    /// The query pairs of the filter: one for each constraint that was set,
    /// in a fixed order.
    pub open spec fn params(self) -> Seq<(Seq<char>, Seq<char>)> {
        let p = with_param(Seq::empty(), "user_id"@, self.user_id);
        with_param(p, "project_id"@, self.project_id)
    }
}

impl TimeEntryFilter {
    /// The filter without any constraint.
    pub fn new(client: Rc<RedmineClient>) -> (filter: TimeEntryFilter)
        ensures
            filter@ == TimeEntryFilterView::unset((*client)@),
    {
        TimeEntryFilter { client, user_id: None, project_id: None }
    }

    /// Keeps only the time entries of the user `id`.
    pub fn user_id(&mut self, id: u32) -> (r: &mut TimeEntryFilter)
        ensures
            r@ == (TimeEntryFilterView { user_id: Some(id), ..old(self)@ }),
            *final(self) == *final(r),
    {
        self.user_id = Some(id);
        self
    }

    /// Keeps only the time entries of the project `id`.
    pub fn project_id(&mut self, id: u32) -> (r: &mut TimeEntryFilter)
        ensures
            r@ == (TimeEntryFilterView { project_id: Some(id), ..old(self)@ }),
            *final(self) == *final(r),
    {
        self.project_id = Some(id);
        self
    }

    /// The query pairs of the filter.
    pub fn params(&self) -> (r: Vec<(String, String)>)
        ensures
            pairs_view(r@) == self@.params(),
    {
        let mut p: Vec<(String, String)> = Vec::new();
        assert(pairs_view(p@) =~= Seq::empty());
        push_param(&mut p, "user_id", self.user_id);
        push_param(&mut p, "project_id", self.project_id);
        p
    }

    /// Whether `reply` is how the round trip of the operation may end.
    pub open spec fn round_trip<T: FnOnce(Request) -> Result<Response, String>>(
        &self,
        transport: T,
        reply: Result<ResponseView, Seq<char>>,
    ) -> bool {
        self@.connection.round_trip(
            transport,
            Method::Get,
            time_entries_path(),
            self@.params(),
            None,
            reply,
        )
    }

    /// Fetches the time entries that match the filter: the records under `time_entries`
    /// in the body of the response, a parse error where the body holds none.
    pub fn execute<T: FnOnce(Request) -> Result<Response, String>>(&self, transport: T) -> (r:
        Result<TimeEntryList, Error>)
        requires
            forall|q: Request| call_requires(transport, (q,)),
        ensures
            exists|reply: Result<ResponseView, Seq<char>>|
                #[trigger] self.round_trip(transport, reply)
                    && time_entries_view(r)
                        == listed::<TimeEntry>("time_entries"@, get_result(reply)),
    {
        let params = self.params();
        assert("/time_entries.json"@ == time_entries_path());
        assert(self@.connection == (*self.client)@);
        assert(forall|reply: Result<ResponseView, Seq<char>>|
            #[trigger] (*self.client)@.round_trip(
                transport,
                Method::Get,
                "/time_entries.json"@,
                pairs_view(params@),
                None,
                reply,
            ) ==> self.round_trip(transport, reply));
        let fetched = self.client.get("/time_entries.json", params, transport);
        match finish_list::<TimeEntry>(fetched, "time_entries") {
            Ok(time_entries) => Ok(TimeEntryList { time_entries }),
            Err(e) => Err(e),
        }
    }
}

/// The time entries that a listing returned, in the order of the response.
#[derive(Debug)]
pub struct TimeEntryList {
    time_entries: Vec<TimeEntry>,
}

impl View for TimeEntryList {
    type V = Seq<TimeEntryView>;

    closed spec fn view(&self) -> Seq<TimeEntryView> {
        records_view(self.time_entries@)
    }
}

/// The result of a listing of time entries as plain data.
pub open spec fn time_entries_view(r: Result<TimeEntryList, Error>) -> Result<
    Seq<TimeEntryView>,
    ErrorView,
> {
    match r {
        Ok(list) => Ok(list@),
        Err(e) => Err(e@),
    }
}

impl TimeEntryList {
    /// The number of time entries.
    pub fn len(&self) -> (n: usize)
        ensures
            n == self@.len(),
    {
        self.time_entries.len()
    }

    /// The time entry at position `i`.
    pub fn get(&self, i: usize) -> (r: Option<&TimeEntry>)
        ensures
            match r {
                Some(time_entry) => i < self@.len() && time_entry@ == self@[i as int],
                None => i >= self@.len(),
            },
    {
        if i < self.time_entries.len() {
            Some(&self.time_entries[i])
        } else {
            None
        }
    }

    /// The time entries themselves.
    pub fn into_vec(self) -> (v: Vec<TimeEntry>)
        ensures
            records_view(v@) == self@,
    {
        self.time_entries
    }
}

/// The lookup of one time entry.
pub struct TimeEntryShow {
    client: Rc<RedmineClient>,
    show_id: u32,
}

impl TimeEntryShow {
    /// The connection that the lookup goes through.
    pub closed spec fn connection(&self) -> ConnectionView {
        (*self.client)@
    }

    /// The time entry to look up.
    pub closed spec fn id(&self) -> u32 {
        self.show_id
    }

    /// Whether `reply` is how the round trip of the operation may end.
    pub open spec fn round_trip<T: FnOnce(Request) -> Result<Response, String>>(
        &self,
        transport: T,
        reply: Result<ResponseView, Seq<char>>,
    ) -> bool {
        self.connection().round_trip(
            transport,
            Method::Get,
            time_entry_path(self.id()),
            Seq::empty(),
            None,
            reply,
        )
    }

    /// Fetches the time entry: the record under `time_entry` in the body of the
    /// response, a parse error where the body holds none.
    pub fn execute<T: FnOnce(Request) -> Result<Response, String>>(&self, transport: T) -> (r:
        Result<TimeEntry, Error>)
        requires
            forall|q: Request| call_requires(transport, (q,)),
        ensures
            exists|reply: Result<ResponseView, Seq<char>>|
                #[trigger] self.round_trip(transport, reply)
                    && record_view(r) == shown::<TimeEntry>("time_entry"@, get_result(reply)),
    {
        let path = make_item_path("/time_entries/", self.show_id, ".json");
        assert(path@ == time_entry_path(self.id()));
        assert(self.connection() == (*self.client)@);
        let none: Vec<(String, String)> = Vec::new();
        assert(pairs_view(none@) =~= Seq::empty());
        assert(forall|reply: Result<ResponseView, Seq<char>>|
            #[trigger] (*self.client)@.round_trip(
                transport,
                Method::Get,
                path@,
                Seq::empty(),
                None,
                reply,
            ) ==> self.round_trip(transport, reply));
        let fetched = self.client.get(path.as_str(), none, transport);
        finish_record::<TimeEntry>(fetched, "time_entry")
    }
}

/// A time entry as the service reports it.
#[derive(Debug)]
pub struct TimeEntry {
    pub activity: NamedObject,
    pub comments: String,
    pub hours: Numeral,
    pub id: u32,
    pub issue: Object,
    pub project: NamedObject,
    pub user: Object,
    pub spent_on: String,
    pub created_on: String,
    pub updated_on: String,
}

/// A [`TimeEntry`] as plain data.
pub struct TimeEntryView {
    pub activity: NamedObjectView,
    pub comments: Seq<char>,
    pub hours: NumeralModel,
    pub id: u32,
    pub issue: Object,
    pub project: NamedObjectView,
    pub user: Object,
    pub spent_on: Seq<char>,
    pub created_on: Seq<char>,
    pub updated_on: Seq<char>,
}

impl View for TimeEntry {
    type V = TimeEntryView;

    open spec fn view(&self) -> TimeEntryView {
        TimeEntryView {
            activity: self.activity@,
            comments: self.comments@,
            hours: self.hours@,
            id: self.id,
            issue: self.issue,
            project: self.project@,
            user: self.user,
            spent_on: self.spent_on@,
            created_on: self.created_on@,
            updated_on: self.updated_on@,
        }
    }
}

impl Resource for TimeEntry {
    /// The time entry that an object stands for: each member read as the type of
    /// its field, a member of an optional field absent or `null` at will;
    /// `None` where a member is missing or holds another type.
    open spec fn of(j: JsonModel) -> Option<TimeEntryView> {
        if required_named(j, "activity"@) is Some
            && required_text(j, "comments"@) is Some
            && required_numeral(j, "hours"@) is Some
            && required_u32(j, "id"@) is Some
            && required_object(j, "issue"@) is Some
            && required_named(j, "project"@) is Some
            && required_object(j, "user"@) is Some
            && required_text(j, "spent_on"@) is Some
            && required_text(j, "created_on"@) is Some
            && required_text(j, "updated_on"@) is Some {
            Some(
                TimeEntryView {
                    activity: required_named(j, "activity"@)->0,
                    comments: required_text(j, "comments"@)->0,
                    hours: required_numeral(j, "hours"@)->0,
                    id: required_u32(j, "id"@)->0,
                    issue: required_object(j, "issue"@)->0,
                    project: required_named(j, "project"@)->0,
                    user: required_object(j, "user"@)->0,
                    spent_on: required_text(j, "spent_on"@)->0,
                    created_on: required_text(j, "created_on"@)->0,
                    updated_on: required_text(j, "updated_on"@)->0,
                },
            )
        } else {
            None
        }
    }

    fn decode(j: &Json) -> (r: Result<TimeEntry, Error>) {
        let activity = read_named(j, "activity")?;
        let comments = read_text(j, "comments")?;
        let hours = read_numeral(j, "hours")?;
        let id = read_u32(j, "id")?;
        let issue = read_object(j, "issue")?;
        let project = read_named(j, "project")?;
        let user = read_object(j, "user")?;
        let spent_on = read_text(j, "spent_on")?;
        let created_on = read_text(j, "created_on")?;
        let updated_on = read_text(j, "updated_on")?;
        Ok(
            TimeEntry {
                activity,
                comments,
                hours,
                id,
                issue,
                project,
                user,
                spent_on,
                created_on,
                updated_on,
            },
        )
    }
}

/// Accumulates the fields of a time entry to create, or the changes to a time entry
/// to update, and sends them.
#[derive(Debug)]
pub struct TimeEntryBuilder<'a> {
    client: Rc<RedmineClient>,
    kind: BuilderKind,
    update_id: u32,
    issue_id: Option<u32>,
    hours: Option<Numeral>,
    activity_id: Option<u32>,
    spent_on: &'a str,
    comments: &'a str,
}

/// A [`TimeEntryBuilder`] as plain data.
pub struct TimeEntryBuilderView {
    pub connection: ConnectionView,
    pub kind: BuilderKind,
    pub update_id: u32,
    pub issue_id: Option<u32>,
    pub hours: Option<NumeralModel>,
    pub activity_id: Option<u32>,
    pub spent_on: Seq<char>,
    pub comments: Seq<char>,
}

impl<'a> View for TimeEntryBuilder<'a> {
    type V = TimeEntryBuilderView;

    closed spec fn view(&self) -> TimeEntryBuilderView {
        TimeEntryBuilderView {
            connection: (*self.client)@,
            kind: self.kind,
            update_id: self.update_id,
            issue_id: self.issue_id,
            hours: numeral_view(self.hours),
            activity_id: self.activity_id,
            spent_on: self.spent_on@,
            comments: self.comments@,
        }
    }
}

impl TimeEntryBuilderView {
    /// The builder in which nothing is set.
    pub open spec fn unset(connection: ConnectionView, kind: BuilderKind) -> TimeEntryBuilderView {
        TimeEntryBuilderView {
            connection,
            kind,
            update_id: 0,
            issue_id: None,
            hours: None,
            activity_id: None,
            spent_on: Seq::empty(),
            comments: Seq::empty(),
        }
    }

    /// The members of the payload: one for each field that is set, in a
    /// fixed order.
    pub open spec fn members(self) -> Seq<(Seq<char>, JsonModel)> {
        let m = with_u32(Seq::empty(), "issue_id"@, self.issue_id);
        let m = with_numeral(m, "hours"@, self.hours);
        let m = with_u32(m, "activity_id"@, self.activity_id);
        let m = with_text(m, "spent_on"@, self.spent_on);
        with_text(m, "comments"@, self.comments)
    }

    /// The payload: the members under `time_entry`.
    pub open spec fn payload(self) -> JsonModel {
        envelope("time_entry"@, self.members())
    }

    /// The endpoint that the builder writes to: the collection for a
    /// creation, the time entry itself for an update.
    pub open spec fn path(self) -> Seq<char> {
        match self.kind {
            BuilderKind::Create => time_entries_path(),
            BuilderKind::Update => time_entry_path(self.update_id),
        }
    }
}

impl<'a> TimeEntryBuilder<'a> {
    /// The builder in which nothing is set.
    fn unset(client: Rc<RedmineClient>, kind: BuilderKind) -> (b: TimeEntryBuilder<'a>)
        ensures
            b@ == TimeEntryBuilderView::unset((*client)@, kind),
    {
        proof {
            reveal_strlit("");
            assert(""@ =~= Seq::<char>::empty());
        }
        TimeEntryBuilder {
            client,
            kind,
            update_id: 0,
            issue_id: None,
            hours: None,
            activity_id: None,
            spent_on: "",
            comments: "",
        }
    }

    /// A builder that creates a time entry with the given mandatory fields.
    pub fn for_create(
        client: Rc<RedmineClient>,
        issue_id: u32,
        hours: Numeral,
        activity_id: u32,
    ) -> (b: TimeEntryBuilder<'a>)
        ensures
            b@ == (TimeEntryBuilderView {
                issue_id: Some(issue_id),
                hours: Some(hours@),
                activity_id: Some(activity_id),
                ..TimeEntryBuilderView::unset((*client)@, BuilderKind::Create)
            }),
    {
        let mut b = TimeEntryBuilder::unset(client, BuilderKind::Create);
        b.issue_id = Some(issue_id);
        b.hours = Some(hours);
        b.activity_id = Some(activity_id);
        b
    }

    /// A builder that updates the time entry `id` and changes nothing yet.
    pub fn for_update(client: Rc<RedmineClient>, id: u32) -> (b: TimeEntryBuilder<'a>)
        ensures
            b@ == (TimeEntryBuilderView {
                update_id: id,
                ..TimeEntryBuilderView::unset((*client)@, BuilderKind::Update)
            }),
    {
        let mut b = TimeEntryBuilder::unset(client, BuilderKind::Update);
        b.update_id = id;
        b
    }

    /// Sets the day on which the time was spent.
    pub fn spent_on(self, s: &'a str) -> (b: TimeEntryBuilder<'a>)
        ensures
            b@ == (TimeEntryBuilderView { spent_on: s@, ..self@ }),
    {
        let mut b = self;
        b.spent_on = s;
        b
    }

    /// Sets the comment of the time entry.
    pub fn comments(self, s: &'a str) -> (b: TimeEntryBuilder<'a>)
        ensures
            b@ == (TimeEntryBuilderView { comments: s@, ..self@ }),
    {
        let mut b = self;
        b.comments = s;
        b
    }

    /// The payload of the request.
    pub fn payload(&self) -> (r: Json)
        ensures
            r@ == self@.payload(),
    {
        let mut m: Vec<(String, Json)> = Vec::new();
        assert(members_view(m@) =~= Seq::empty());
        push_u32(&mut m, "issue_id", self.issue_id);
        push_numeral(&mut m, "hours", &self.hours);
        push_u32(&mut m, "activity_id", self.activity_id);
        push_text(&mut m, "spent_on", self.spent_on);
        push_text(&mut m, "comments", self.comments);
        Json::envelope("time_entry", m)
    }

    /// Whether `reply` is how the round trip of the write may end.
    pub open spec fn round_trip<T: FnOnce(Request) -> Result<Response, String>>(
        &self,
        transport: T,
        reply: Result<ResponseView, Seq<char>>,
    ) -> bool {
        self@.connection.round_trip(
            transport,
            self@.kind.method(),
            self@.path(),
            Seq::empty(),
            Some(json_rendered(self@.payload())),
            reply,
        )
    }

    /// Sends the creation or the update. A creation returns the location of
    /// the new time entry, an update the confirmation.
    pub fn execute<T: FnOnce(Request) -> Result<Response, String>>(&self, transport: T) -> (r:
        Result<String, Error>)
        requires
            forall|q: Request| call_requires(transport, (q,)),
        ensures
            exists|reply: Result<ResponseView, Seq<char>>|
                #[trigger] self.round_trip(transport, reply) && text_view(r) == self@.kind.result(
                    reply,
                ),
    {
        let time_entry = self.payload();
        proof {
            lemma_time_entry_payload_depth(self@);
        }
        assert(self@.connection == (*self.client)@);
        match self.kind {
            BuilderKind::Create => {
                assert("/time_entries.json"@ == self@.path());
                assert(forall|reply: Result<ResponseView, Seq<char>>|
                    #[trigger] (*self.client)@.round_trip(
                        transport,
                        Method::Post,
                        "/time_entries.json"@,
                        Seq::empty(),
                        Some(json_rendered(time_entry@)),
                        reply,
                    ) ==> self.round_trip(transport, reply));
                self.client.create("/time_entries.json", &time_entry, transport)
            },
            BuilderKind::Update => {
                let path = make_item_path("/time_entries/", self.update_id, ".json");
                assert(path@ == self@.path());
                assert(forall|reply: Result<ResponseView, Seq<char>>|
                    #[trigger] (*self.client)@.round_trip(
                        transport,
                        Method::Put,
                        path@,
                        Seq::empty(),
                        Some(json_rendered(time_entry@)),
                        reply,
                    ) ==> self.round_trip(transport, reply));
                self.client.update(path.as_str(), &time_entry, transport)
            },
        }
    }
}

/// Default omission: the payload of a time entry holds a member for a field
/// exactly where the field is set, with the value that it was set to, and no
/// member under any other key. A whole number or a number is set where one was
/// given, a text or a list where it is not empty; a flag is always set.
pub proof fn lemma_time_entry_members(b: TimeEntryBuilderView)
    ensures
        member(b.members(), "issue_id"@) == u32_member(b.issue_id),
        member(b.members(), "hours"@) == numeral_member(b.hours),
        member(b.members(), "activity_id"@) == u32_member(b.activity_id),
        member(b.members(), "spent_on"@) == text_member(b.spent_on),
        member(b.members(), "comments"@) == text_member(b.comments),
        forall|key: Seq<char>|
            (#[trigger] member(b.members(), key)) is Some ==> key == "issue_id"@
                || key == "hours"@
                || key == "activity_id"@
                || key == "spent_on"@
                || key == "comments"@,
{
    reveal_strlit("issue_id");
    reveal_strlit("hours");
    reveal_strlit("activity_id");
    reveal_strlit("spent_on");
    reveal_strlit("comments");
    assert("issue_id"@.len() == 8);
    assert("hours"@.len() == 5);
    assert("activity_id"@.len() == 11);
    assert("spent_on"@.len() == 8);
    assert("comments"@.len() == 8);
    assert("issue_id"@[0] != "spent_on"@[0]);
    assert("issue_id"@[0] != "comments"@[0]);
    assert("spent_on"@[0] != "comments"@[0]);
    let m0 = Seq::<(Seq<char>, JsonModel)>::empty();
    assert(forall|key: Seq<char>| (#[trigger] member(m0, key)) is None);
    lemma_with_u32(m0, "issue_id"@, b.issue_id);
    let m1 = with_u32(m0, "issue_id"@, b.issue_id);
    lemma_with_numeral(m1, "hours"@, b.hours);
    let m2 = with_numeral(m1, "hours"@, b.hours);
    lemma_with_u32(m2, "activity_id"@, b.activity_id);
    let m3 = with_u32(m2, "activity_id"@, b.activity_id);
    lemma_with_text(m3, "spent_on"@, b.spent_on);
    let m4 = with_text(m3, "spent_on"@, b.spent_on);
    lemma_with_text(m4, "comments"@, b.comments);
    let m5 = with_text(m4, "comments"@, b.comments);
    assert(m5 == b.members());
}

/// An update in which nothing was set is a PUT to the time entry itself whose
/// payload holds no member at all: no field that was left alone is sent.
pub proof fn lemma_time_entry_update_unchanged(connection: ConnectionView, id: u32)
    ensures
        ({
            let unset = TimeEntryBuilderView::unset(connection, BuilderKind::Update);
            let b = TimeEntryBuilderView { update_id: id, ..unset };
            &&& b.kind.method() == Method::Put
            &&& b.path() == time_entry_path(id)
            &&& b.members() == Seq::<(Seq<char>, JsonModel)>::empty()
        }),
{
    let unset = TimeEntryBuilderView::unset(connection, BuilderKind::Update);
    let b = TimeEntryBuilderView { update_id: id, ..unset };
    assert(b.members() =~= Seq::<(Seq<char>, JsonModel)>::empty());
}

/// Round trip: read back with the decoders of [`TimeEntry`], the payload of
/// a time entry gives each field that the builder and the record share the
/// value that it was set to. A text counts as set where it is not empty.
pub proof fn lemma_time_entry_round_trip(b: TimeEntryBuilderView)
    ensures
        b.hours is Some ==> required_numeral(JsonModel::Object(b.members()), "hours"@) == b.hours,
        b.spent_on.len() > 0 ==> required_text(JsonModel::Object(b.members()), "spent_on"@)
            == Some(b.spent_on),
        b.comments.len() > 0 ==> required_text(JsonModel::Object(b.members()), "comments"@)
            == Some(b.comments),
{
    lemma_time_entry_members(b);
}

/// The payload of a time entry nests three deep, within what is printed.
pub proof fn lemma_time_entry_payload_depth(b: TimeEntryBuilderView)
    ensures
        b.payload().within(RENDER_DEPTH as nat),
{
    let m0 = Seq::<(Seq<char>, JsonModel)>::empty();
    lemma_flat(m0, "issue_id"@);
    let m1 = with_u32(m0, "issue_id"@, b.issue_id);
    lemma_flat(m1, "hours"@);
    let m2 = with_numeral(m1, "hours"@, b.hours);
    lemma_flat(m2, "activity_id"@);
    let m3 = with_u32(m2, "activity_id"@, b.activity_id);
    lemma_flat(m3, "spent_on"@);
    let m4 = with_text(m3, "spent_on"@, b.spent_on);
    lemma_flat(m4, "comments"@);
    let m5 = with_text(m4, "comments"@, b.comments);
    assert(m5 == b.members());
    lemma_envelope_depth("time_entry"@, b.members());
}

/// The query of a listing of time entries holds a pair for a constraint exactly
/// where the constraint is set, with the decimal numeral of its identifier,
/// and no pair under any other key.
pub proof fn lemma_time_entries_params(f: TimeEntryFilterView)
    ensures
        param(f.params(), "user_id"@) == id_param(f.user_id),
        param(f.params(), "project_id"@) == id_param(f.project_id),
        forall|key: Seq<char>|
            (#[trigger] param(f.params(), key)) is Some ==> key == "user_id"@
                || key == "project_id"@,
{
    reveal_strlit("user_id");
    reveal_strlit("project_id");
    assert("user_id"@.len() == 7);
    assert("project_id"@.len() == 10);
    let q0 = Seq::<(Seq<char>, Seq<char>)>::empty();
    assert(forall|key: Seq<char>| (#[trigger] param(q0, key)) is None);
    lemma_with_param(q0, "user_id"@, f.user_id);
    let q1 = with_param(q0, "user_id"@, f.user_id);
    lemma_with_param(q1, "project_id"@, f.project_id);
    let q2 = with_param(q1, "project_id"@, f.project_id);
    assert(q2 == f.params());
}

} // verus!
