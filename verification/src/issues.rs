//! The issues of a Redmine instance: listing with filters, lookup, creation,
//! update, deletion and watchers.

use crate::client::{
    delete_result, flag_view, get_result, id_param, lemma_param_push, lemma_with_param,
    option_view, pairs_view, param, param_after, push_param, read_deleted, text_view, with_param,
    BuilderKind, ConnectionView, Method, RedmineClient, Request, Response, ResponseView,
};
use crate::decode::{
    finish_list, finish_record, listed, named_view, numeral_view, optional_named, optional_numeral,
    optional_object, optional_text, read_named, read_optional_named, read_optional_numeral,
    read_optional_object, read_optional_text, read_text, read_u32, record_view, records_view,
    required_named, required_text, required_u32, shown, NamedObject, NamedObjectView, Object,
    Resource,
};
use crate::errors::{Error, ErrorView};
use crate::json::{
    envelope, ids_member, json_rendered, lemma_envelope_depth, lemma_flat, lemma_with_bool,
    lemma_with_ids, lemma_with_numeral, lemma_with_text, lemma_with_u32, lemma_within_more, member,
    members_view, numeral_member, push_bool, push_ids, push_numeral, push_text, push_u32,
    text_member, u32_member, with_bool, with_ids, with_numeral, with_text, with_u32, Json,
    JsonModel, Numeral, NumeralModel, RENDER_DEPTH,
};
use crate::text::{item_path, join_ids, joined, lemma_joined_concat, make_item_path};
use std::rc::Rc;
use vstd::prelude::*;

verus! {

/// The endpoint of the collection of issues.
pub open spec fn issues_path() -> Seq<char> {
    "/issues.json"@
}

/// The endpoint of one issue.
pub open spec fn issue_path(id: u32) -> Seq<char> {
    item_path("/issues/"@, id, ".json"@)
}

/// The endpoint of the watchers of one issue.
pub open spec fn watchers_path(issue_id: u32) -> Seq<char> {
    item_path("/issues/"@, issue_id, "/watchers.json"@)
}

/// The endpoint of one watcher of one issue.
pub open spec fn watcher_path(issue_id: u32, watcher_id: u32) -> Seq<char> {
    item_path(item_path("/issues/"@, issue_id, "/watchers/"@), watcher_id, ".json"@)
}

/// The body that names a user as the watcher to add.
pub open spec fn watcher_payload(watcher_id: u32) -> JsonModel {
    JsonModel::Object(with_u32(Seq::empty(), "user_id"@, Some(watcher_id)))
}

/// Exposes the operations on issues.
pub struct Api {
    client: Rc<RedmineClient>,
}

impl Api {
    /// The connection that every operation made here goes through.
    pub closed spec fn connection(&self) -> ConnectionView {
        (*self.client)@
    }

    /// The operations on issues over the given connection.
    pub fn new(client: Rc<RedmineClient>) -> (api: Api)
        ensures
            api.connection() == (*client)@,
    {
        Api { client }
    }

    /// A filter that matches every issue, to be narrowed and executed.
    pub fn list(&self) -> (filter: IssueFilter)
        ensures
            filter@ == IssueFilterView::unset(self.connection()),
    {
        IssueFilter::new(Rc::clone(&self.client))
    }

    /// A builder that creates an issue with the given mandatory fields.
    pub fn create<'a>(
        &self,
        project_id: u32,
        tracker_id: u32,
        status_id: u32,
        priority_id: u32,
        subject: &'a str,
    ) -> (b: IssueBuilder<'a>)
        ensures
            b@ == (IssueBuilderView {
                project_id: Some(project_id),
                tracker_id: Some(tracker_id),
                status_id: Some(status_id),
                priority_id: Some(priority_id),
                subject: subject@,
                ..IssueBuilderView::unset(self.connection(), BuilderKind::Create)
            }),
    {
        IssueBuilder::for_create(
            Rc::clone(&self.client),
            project_id,
            tracker_id,
            status_id,
            priority_id,
            subject,
        )
    }

    /// A builder that updates the issue `id` and changes nothing yet.
    pub fn update<'a>(&self, id: u32) -> (b: IssueBuilder<'a>)
        ensures
            b@ == (IssueBuilderView {
                update_id: id,
                ..IssueBuilderView::unset(self.connection(), BuilderKind::Update)
            }),
    {
        IssueBuilder::for_update(Rc::clone(&self.client), id)
    }

    /// The lookup of the issue `id`.
    pub fn show(&self, id: u32) -> (op: IssueShow)
        ensures
            op.connection() == self.connection(),
            op.id() == id,
    {
        IssueShow { client: Rc::clone(&self.client), show_id: id }
    }

    /// The deletion of the issue `id`.
    pub fn delete(&self, id: u32) -> (op: IssueDelete)
        ensures
            op.connection() == self.connection(),
            op.id() == id,
    {
        IssueDelete { client: Rc::clone(&self.client), delete_id: id }
    }

    /// The addition of the user `watcher_id` to the watchers of `issue_id`.
    pub fn add_watcher(&self, issue_id: u32, watcher_id: u32) -> (op: IssueAddWatcher)
        ensures
            op.connection() == self.connection(),
            op.issue_id() == issue_id,
            op.watcher_id() == watcher_id,
    {
        IssueAddWatcher { client: Rc::clone(&self.client), issue_id, watcher_id }
    }

    /// The removal of the user `watcher_id` from the watchers of `issue_id`.
    pub fn remove_watcher(&self, issue_id: u32, watcher_id: u32) -> (op: IssueRemoveWatcher)
        ensures
            op.connection() == self.connection(),
            op.issue_id() == issue_id,
            op.watcher_id() == watcher_id,
    {
        IssueRemoveWatcher { client: Rc::clone(&self.client), issue_id, watcher_id }
    }
}

/// The constraints that a listing of issues is narrowed by.
pub struct IssueFilter {
    client: Rc<RedmineClient>,
    assigned_to_id: Option<u32>,
    issue_id: Vec<u32>,
    parent_id: Option<u32>,
    project_id: Option<u32>,
    status_id: Option<u32>,
    subproject_id: Option<u32>,
    tracker_id: Option<u32>,
}

/// An [`IssueFilter`] as plain data.
pub struct IssueFilterView {
    pub connection: ConnectionView,
    pub assigned_to_id: Option<u32>,
    pub issue_id: Seq<u32>,
    pub parent_id: Option<u32>,
    pub project_id: Option<u32>,
    pub status_id: Option<u32>,
    pub subproject_id: Option<u32>,
    pub tracker_id: Option<u32>,
}

impl View for IssueFilter {
    type V = IssueFilterView;

    closed spec fn view(&self) -> IssueFilterView {
        IssueFilterView {
            connection: (*self.client)@,
            assigned_to_id: self.assigned_to_id,
            issue_id: self.issue_id@,
            parent_id: self.parent_id,
            project_id: self.project_id,
            status_id: self.status_id,
            subproject_id: self.subproject_id,
            tracker_id: self.tracker_id,
        }
    }
}

impl IssueFilterView {
    /// The filter without any constraint.
    pub open spec fn unset(connection: ConnectionView) -> IssueFilterView {
        IssueFilterView {
            connection,
            assigned_to_id: None,
            issue_id: Seq::empty(),
            parent_id: None,
            project_id: None,
            status_id: None,
            subproject_id: None,
            tracker_id: None,
        }
    }

    /// The query pair of the issue ids: none where no id was given, else
    /// `issue_id` with the ids in the order given, joined by commas.
    pub open spec fn with_issue_ids(self, params: Seq<(Seq<char>, Seq<char>)>) -> Seq<
        (Seq<char>, Seq<char>),
    > {
        if self.issue_id.len() == 0 {
            params
        } else {
            params.push(("issue_id"@, joined(self.issue_id)))
        }
    }

    /// The query pairs of the filter: one for each constraint that was set,
    /// in a fixed order.
    pub open spec fn params(self) -> Seq<(Seq<char>, Seq<char>)> {
        let p = with_param(Seq::empty(), "assigned_to_id"@, self.assigned_to_id);
        let p = self.with_issue_ids(p);
        let p = with_param(p, "parent_id"@, self.parent_id);
        let p = with_param(p, "project_id"@, self.project_id);
        let p = with_param(p, "status_id"@, self.status_id);
        let p = with_param(p, "subproject_id"@, self.subproject_id);
        with_param(p, "tracker_id"@, self.tracker_id)
    }
}

impl IssueFilter {
    /// The filter without any constraint.
    pub fn new(client: Rc<RedmineClient>) -> (filter: IssueFilter)
        ensures
            filter@ == IssueFilterView::unset((*client)@),
    {
        IssueFilter {
            client,
            assigned_to_id: None,
            issue_id: Vec::new(),
            parent_id: None,
            project_id: None,
            status_id: None,
            subproject_id: None,
            tracker_id: None,
        }
    }

    /// Keeps only the issues assigned to the user `id`.
    pub fn assigned_to_id(&mut self, id: u32) -> (r: &mut IssueFilter)
        ensures
            r@ == (IssueFilterView { assigned_to_id: Some(id), ..old(self)@ }),
            *final(self) == *final(r),
    {
        self.assigned_to_id = Some(id);
        self
    }

    /// Adds the issue `id` to the issues asked for.
    pub fn issue_id(&mut self, id: u32) -> (r: &mut IssueFilter)
        ensures
            r@ == (IssueFilterView { issue_id: old(self)@.issue_id.push(id), ..old(self)@ }),
            *final(self) == *final(r),
    {
        self.issue_id.push(id);
        self
    }

    /// Adds the issues `ids`, in their order, to the issues asked for.
    pub fn issue_ids(&mut self, ids: Vec<u32>) -> (r: &mut IssueFilter)
        ensures
            r@ == (IssueFilterView { issue_id: old(self)@.issue_id + ids@, ..old(self)@ }),
            *final(self) == *final(r),
    {
        let mut more = ids;
        self.issue_id.append(&mut more);
        self
    }

    /// Keeps only the issues below the parent issue `id`.
    pub fn parent_id(&mut self, id: u32) -> (r: &mut IssueFilter)
        ensures
            r@ == (IssueFilterView { parent_id: Some(id), ..old(self)@ }),
            *final(self) == *final(r),
    {
        self.parent_id = Some(id);
        self
    }

    /// Keeps only the issues of the project `id`.
    pub fn project_id(&mut self, id: u32) -> (r: &mut IssueFilter)
        ensures
            r@ == (IssueFilterView { project_id: Some(id), ..old(self)@ }),
            *final(self) == *final(r),
    {
        self.project_id = Some(id);
        self
    }

    /// Keeps only the issues with the status `id`.
    pub fn status_id(&mut self, id: u32) -> (r: &mut IssueFilter)
        ensures
            r@ == (IssueFilterView { status_id: Some(id), ..old(self)@ }),
            *final(self) == *final(r),
    {
        self.status_id = Some(id);
        self
    }

    /// Keeps only the issues of the subproject `id`.
    pub fn subproject_id(&mut self, id: u32) -> (r: &mut IssueFilter)
        ensures
            r@ == (IssueFilterView { subproject_id: Some(id), ..old(self)@ }),
            *final(self) == *final(r),
    {
        self.subproject_id = Some(id);
        self
    }

    /// Keeps only the issues of the tracker `id`.
    pub fn tracker_id(&mut self, id: u32) -> (r: &mut IssueFilter)
        ensures
            r@ == (IssueFilterView { tracker_id: Some(id), ..old(self)@ }),
            *final(self) == *final(r),
    {
        self.tracker_id = Some(id);
        self
    }

    /// Whether `reply` is how the round trip of the operation may end.
    pub open spec fn round_trip<T: FnOnce(Request) -> Result<Response, String>>(
        &self,
        transport: T,
        reply: Result<ResponseView, Seq<char>>,
    ) -> bool {
        self@.connection.round_trip(
            transport,
            Method::Get,
            issues_path(),
            self@.params(),
            None,
            reply,
        )
    }

    /// Fetches the issues that match the filter: the records under `issues`
    /// in the body of the response, a parse error where the body holds none.
    pub fn execute<T: FnOnce(Request) -> Result<Response, String>>(&self, transport: T) -> (r:
        Result<IssueList, Error>)
        requires
            forall|q: Request| call_requires(transport, (q,)),
        ensures
            exists|reply: Result<ResponseView, Seq<char>>|
                #[trigger] self.round_trip(transport, reply)
                    && issues_view(r) == listed::<Issue>("issues"@, get_result(reply)),
    {
        let params = self.params();
        assert("/issues.json"@ == issues_path());
        assert(self@.connection == (*self.client)@);
        assert(forall|reply: Result<ResponseView, Seq<char>>|
            #[trigger] (*self.client)@.round_trip(
                transport,
                Method::Get,
                "/issues.json"@,
                pairs_view(params@),
                None,
                reply,
            ) ==> self.round_trip(transport, reply));
        let fetched = self.client.get("/issues.json", params, transport);
        match finish_list::<Issue>(fetched, "issues") {
            Ok(issues) => Ok(IssueList { issues }),
            Err(e) => Err(e),
        }
    }

    /// The query pairs of the filter.
    pub fn params(&self) -> (r: Vec<(String, String)>)
        ensures
            pairs_view(r@) == self@.params(),
    {
        let mut p: Vec<(String, String)> = Vec::new();
        assert(pairs_view(p@) =~= Seq::empty());
        push_param(&mut p, "assigned_to_id", self.assigned_to_id);
        let ghost before = pairs_view(p@);
        if self.issue_id.len() > 0 {
            p.push((String::from_str("issue_id"), join_ids(&self.issue_id)));
        }
        assert(pairs_view(p@) =~= self@.with_issue_ids(before));
        push_param(&mut p, "parent_id", self.parent_id);
        push_param(&mut p, "project_id", self.project_id);
        push_param(&mut p, "status_id", self.status_id);
        push_param(&mut p, "subproject_id", self.subproject_id);
        push_param(&mut p, "tracker_id", self.tracker_id);
        p
    }
}

/// An issue as the service reports it.
#[derive(Debug)]
pub struct Issue {
    pub assigned_to: Option<NamedObject>,
    pub author: NamedObject,
    pub category: Option<NamedObject>,
    pub created_on: String,
    pub description: Option<String>,
    pub done_ratio: u32,
    pub due_date: Option<String>,
    pub estimated_hours: Option<Numeral>,
    pub fixed_version: Option<NamedObject>,
    pub id: u32,
    pub parent: Option<Object>,
    pub priority: NamedObject,
    pub project: NamedObject,
    pub start_date: Option<String>,
    pub status: NamedObject,
    pub subject: String,
    pub tracker: NamedObject,
    pub updated_on: String,
}

/// An [`Issue`] as plain data.
pub struct IssueView {
    pub assigned_to: Option<NamedObjectView>,
    pub author: NamedObjectView,
    pub category: Option<NamedObjectView>,
    pub created_on: Seq<char>,
    pub description: Option<Seq<char>>,
    pub done_ratio: u32,
    pub due_date: Option<Seq<char>>,
    pub estimated_hours: Option<NumeralModel>,
    pub fixed_version: Option<NamedObjectView>,
    pub id: u32,
    pub parent: Option<Object>,
    pub priority: NamedObjectView,
    pub project: NamedObjectView,
    pub start_date: Option<Seq<char>>,
    pub status: NamedObjectView,
    pub subject: Seq<char>,
    pub tracker: NamedObjectView,
    pub updated_on: Seq<char>,
}

impl View for Issue {
    type V = IssueView;

    open spec fn view(&self) -> IssueView {
        IssueView {
            assigned_to: named_view(self.assigned_to),
            author: self.author@,
            category: named_view(self.category),
            created_on: self.created_on@,
            description: option_view(self.description),
            done_ratio: self.done_ratio,
            due_date: option_view(self.due_date),
            estimated_hours: numeral_view(self.estimated_hours),
            fixed_version: named_view(self.fixed_version),
            id: self.id,
            parent: self.parent,
            priority: self.priority@,
            project: self.project@,
            start_date: option_view(self.start_date),
            status: self.status@,
            subject: self.subject@,
            tracker: self.tracker@,
            updated_on: self.updated_on@,
        }
    }
}

impl Resource for Issue {
    /// The issue that an object stands for: each member read as the type of
    /// its field, a member of an optional field absent or `null` at will;
    /// `None` where a member is missing or holds another type.
    open spec fn of(j: JsonModel) -> Option<IssueView> {
        if optional_named(j, "assigned_to"@) is Some
            && required_named(j, "author"@) is Some
            && optional_named(j, "category"@) is Some
            && required_text(j, "created_on"@) is Some
            && optional_text(j, "description"@) is Some
            && required_u32(j, "done_ratio"@) is Some
            && optional_text(j, "due_date"@) is Some
            && optional_numeral(j, "estimated_hours"@) is Some
            && optional_named(j, "fixed_version"@) is Some
            && required_u32(j, "id"@) is Some
            && optional_object(j, "parent"@) is Some
            && required_named(j, "priority"@) is Some
            && required_named(j, "project"@) is Some
            && optional_text(j, "start_date"@) is Some
            && required_named(j, "status"@) is Some
            && required_text(j, "subject"@) is Some
            && required_named(j, "tracker"@) is Some
            && required_text(j, "updated_on"@) is Some {
            Some(
                IssueView {
                    assigned_to: optional_named(j, "assigned_to"@)->0,
                    author: required_named(j, "author"@)->0,
                    category: optional_named(j, "category"@)->0,
                    created_on: required_text(j, "created_on"@)->0,
                    description: optional_text(j, "description"@)->0,
                    done_ratio: required_u32(j, "done_ratio"@)->0,
                    due_date: optional_text(j, "due_date"@)->0,
                    estimated_hours: optional_numeral(j, "estimated_hours"@)->0,
                    fixed_version: optional_named(j, "fixed_version"@)->0,
                    id: required_u32(j, "id"@)->0,
                    parent: optional_object(j, "parent"@)->0,
                    priority: required_named(j, "priority"@)->0,
                    project: required_named(j, "project"@)->0,
                    start_date: optional_text(j, "start_date"@)->0,
                    status: required_named(j, "status"@)->0,
                    subject: required_text(j, "subject"@)->0,
                    tracker: required_named(j, "tracker"@)->0,
                    updated_on: required_text(j, "updated_on"@)->0,
                },
            )
        } else {
            None
        }
    }

    fn decode(j: &Json) -> (r: Result<Issue, Error>) {
        let assigned_to = read_optional_named(j, "assigned_to")?;
        let author = read_named(j, "author")?;
        let category = read_optional_named(j, "category")?;
        let created_on = read_text(j, "created_on")?;
        let description = read_optional_text(j, "description")?;
        let done_ratio = read_u32(j, "done_ratio")?;
        let due_date = read_optional_text(j, "due_date")?;
        let estimated_hours = read_optional_numeral(j, "estimated_hours")?;
        let fixed_version = read_optional_named(j, "fixed_version")?;
        let id = read_u32(j, "id")?;
        let parent = read_optional_object(j, "parent")?;
        let priority = read_named(j, "priority")?;
        let project = read_named(j, "project")?;
        let start_date = read_optional_text(j, "start_date")?;
        let status = read_named(j, "status")?;
        let subject = read_text(j, "subject")?;
        let tracker = read_named(j, "tracker")?;
        let updated_on = read_text(j, "updated_on")?;
        Ok(
            Issue {
                assigned_to,
                author,
                category,
                created_on,
                description,
                done_ratio,
                due_date,
                estimated_hours,
                fixed_version,
                id,
                parent,
                priority,
                project,
                start_date,
                status,
                subject,
                tracker,
                updated_on,
            },
        )
    }
}

/// The issues that a listing returned, in the order of the response.
#[derive(Debug)]
pub struct IssueList {
    issues: Vec<Issue>,
}

impl View for IssueList {
    type V = Seq<IssueView>;

    closed spec fn view(&self) -> Seq<IssueView> {
        records_view(self.issues@)
    }
}

/// The result of a listing of issues as plain data.
pub open spec fn issues_view(r: Result<IssueList, Error>) -> Result<Seq<IssueView>, ErrorView> {
    match r {
        Ok(list) => Ok(list@),
        Err(e) => Err(e@),
    }
}

impl IssueList {
    /// The number of issues.
    pub fn len(&self) -> (n: usize)
        ensures
            n == self@.len(),
    {
        self.issues.len()
    }

    /// The issue at position `i`.
    pub fn get(&self, i: usize) -> (r: Option<&Issue>)
        ensures
            match r {
                Some(issue) => i < self@.len() && issue@ == self@[i as int],
                None => i >= self@.len(),
            },
    {
        if i < self.issues.len() {
            Some(&self.issues[i])
        } else {
            None
        }
    }

    /// The issues themselves.
    pub fn into_vec(self) -> (v: Vec<Issue>)
        ensures
            records_view(v@) == self@,
    {
        self.issues
    }
}

/// The lookup of one issue.
pub struct IssueShow {
    client: Rc<RedmineClient>,
    show_id: u32,
}

impl IssueShow {
    /// The connection that the lookup goes through.
    pub closed spec fn connection(&self) -> ConnectionView {
        (*self.client)@
    }

    /// The issue to look up.
    pub closed spec fn id(&self) -> u32 {
        self.show_id
    }

    /// Whether `reply` is how the round trip of the operation may end.
    pub open spec fn round_trip<T: FnOnce(Request) -> Result<Response, String>>(
        &self,
        transport: T,
        reply: Result<ResponseView, Seq<char>>,
    ) -> bool {
        self.connection().round_trip(
            transport,
            Method::Get,
            issue_path(self.id()),
            Seq::empty(),
            None,
            reply,
        )
    }

    /// Fetches the issue: the record under `issue` in the body of the
    /// response, a parse error where the body holds none.
    pub fn execute<T: FnOnce(Request) -> Result<Response, String>>(&self, transport: T) -> (r:
        Result<Issue, Error>)
        requires
            forall|q: Request| call_requires(transport, (q,)),
        ensures
            exists|reply: Result<ResponseView, Seq<char>>|
                #[trigger] self.round_trip(transport, reply)
                    && record_view(r) == shown::<Issue>("issue"@, get_result(reply)),
    {
        let path = make_item_path("/issues/", self.show_id, ".json");
        assert(path@ == issue_path(self.id()));
        assert(self.connection() == (*self.client)@);
        let none: Vec<(String, String)> = Vec::new();
        assert(pairs_view(none@) =~= Seq::empty());
        assert(forall|reply: Result<ResponseView, Seq<char>>|
            #[trigger] (*self.client)@.round_trip(
                transport,
                Method::Get,
                path@,
                Seq::empty(),
                None,
                reply,
            ) ==> self.round_trip(transport, reply));
        let fetched = self.client.get(path.as_str(), none, transport);
        finish_record::<Issue>(fetched, "issue")
    }
}

/// The deletion of one issue.
pub struct IssueDelete {
    client: Rc<RedmineClient>,
    delete_id: u32,
}

impl IssueDelete {
    /// The connection that the deletion goes through.
    pub closed spec fn connection(&self) -> ConnectionView {
        (*self.client)@
    }

    /// The issue to delete.
    pub closed spec fn id(&self) -> u32 {
        self.delete_id
    }

    /// Whether `reply` is how the round trip of the operation may end.
    pub open spec fn round_trip<T: FnOnce(Request) -> Result<Response, String>>(
        &self,
        transport: T,
        reply: Result<ResponseView, Seq<char>>,
    ) -> bool {
        self.connection().round_trip(
            transport,
            Method::Delete,
            issue_path(self.id()),
            Seq::empty(),
            None,
            reply,
        )
    }

    /// Deletes the issue: `true` for a success status, an API error for any other.
    pub fn execute<T: FnOnce(Request) -> Result<Response, String>>(&self, transport: T) -> (r:
        Result<bool, Error>)
        requires
            forall|q: Request| call_requires(transport, (q,)),
        ensures
            exists|reply: Result<ResponseView, Seq<char>>|
                #[trigger] self.round_trip(transport, reply)
                    && flag_view(r) == delete_result(reply),
    {
        let path = make_item_path("/issues/", self.delete_id, ".json");
        assert(path@ == issue_path(self.id()));
        assert(self.connection() == (*self.client)@);
        assert(forall|reply: Result<ResponseView, Seq<char>>|
            #[trigger] (*self.client)@.round_trip(
                transport,
                Method::Delete,
                path@,
                Seq::empty(),
                None,
                reply,
            ) ==> self.round_trip(transport, reply));
        self.client.delete(path.as_str(), transport)
    }
}

/// The addition of a user to the watchers of an issue.
pub struct IssueAddWatcher {
    client: Rc<RedmineClient>,
    issue_id: u32,
    watcher_id: u32,
}

impl IssueAddWatcher {
    /// The connection that the action goes through.
    pub closed spec fn connection(&self) -> ConnectionView {
        (*self.client)@
    }

    /// The issue to watch.
    pub closed spec fn issue_id(&self) -> u32 {
        self.issue_id
    }

    /// The user who is to watch it.
    pub closed spec fn watcher_id(&self) -> u32 {
        self.watcher_id
    }

    /// The body of the request.
    pub fn payload(&self) -> (r: Json)
        ensures
            r@ == watcher_payload(self.watcher_id()),
    {
        let mut fields: Vec<(String, Json)> = Vec::new();
        assert(members_view(fields@) =~= Seq::empty());
        push_u32(&mut fields, "user_id", Some(self.watcher_id));
        Json::object(fields)
    }

    /// Whether `reply` is how the round trip of the operation may end.
    pub open spec fn round_trip<T: FnOnce(Request) -> Result<Response, String>>(
        &self,
        transport: T,
        reply: Result<ResponseView, Seq<char>>,
    ) -> bool {
        self.connection().round_trip(
            transport,
            Method::Post,
            watchers_path(self.issue_id()),
            Seq::empty(),
            Some(json_rendered(watcher_payload(self.watcher_id()))),
            reply,
        )
    }

    /// Adds the watcher: `true` for a success status, an API error for any other.
    pub fn execute<T: FnOnce(Request) -> Result<Response, String>>(&self, transport: T) -> (r:
        Result<bool, Error>)
        requires
            forall|q: Request| call_requires(transport, (q,)),
        ensures
            exists|reply: Result<ResponseView, Seq<char>>|
                #[trigger] self.round_trip(transport, reply)
                    && flag_view(r) == delete_result(reply),
    {
        let path = make_item_path("/issues/", self.issue_id, "/watchers.json");
        let body = self.payload();
        proof {
            lemma_flat(Seq::empty(), "user_id"@);
            lemma_within_more(body@, 2, RENDER_DEPTH as nat);
        }
        assert(path@ == watchers_path(self.issue_id()));
        assert(self.connection() == (*self.client)@);
        assert(forall|reply: Result<ResponseView, Seq<char>>|
            #[trigger] (*self.client)@.round_trip(
                transport,
                Method::Post,
                path@,
                Seq::empty(),
                Some(json_rendered(body@)),
                reply,
            ) ==> self.round_trip(transport, reply));
        match self.client.post(path.as_str(), &body, transport) {
            Ok(response) => read_deleted(response),
            Err(e) => Err(e),
        }
    }
}

/// The removal of a user from the watchers of an issue.
pub struct IssueRemoveWatcher {
    client: Rc<RedmineClient>,
    issue_id: u32,
    watcher_id: u32,
}

impl IssueRemoveWatcher {
    /// The connection that the action goes through.
    pub closed spec fn connection(&self) -> ConnectionView {
        (*self.client)@
    }

    /// The issue that is watched.
    pub closed spec fn issue_id(&self) -> u32 {
        self.issue_id
    }

    /// The user who is to watch it no longer.
    pub closed spec fn watcher_id(&self) -> u32 {
        self.watcher_id
    }

    /// Whether `reply` is how the round trip of the operation may end.
    pub open spec fn round_trip<T: FnOnce(Request) -> Result<Response, String>>(
        &self,
        transport: T,
        reply: Result<ResponseView, Seq<char>>,
    ) -> bool {
        self.connection().round_trip(
            transport,
            Method::Delete,
            watcher_path(self.issue_id(), self.watcher_id()),
            Seq::empty(),
            None,
            reply,
        )
    }

    /// Removes the watcher: `true` for a success status, an API error for any other.
    pub fn execute<T: FnOnce(Request) -> Result<Response, String>>(&self, transport: T) -> (r:
        Result<bool, Error>)
        requires
            forall|q: Request| call_requires(transport, (q,)),
        ensures
            exists|reply: Result<ResponseView, Seq<char>>|
                #[trigger] self.round_trip(transport, reply)
                    && flag_view(r) == delete_result(reply),
    {
        let prefix = make_item_path("/issues/", self.issue_id, "/watchers/");
        let path = make_item_path(prefix.as_str(), self.watcher_id, ".json");
        assert(path@ == watcher_path(self.issue_id(), self.watcher_id()));
        assert(self.connection() == (*self.client)@);
        assert(forall|reply: Result<ResponseView, Seq<char>>|
            #[trigger] (*self.client)@.round_trip(
                transport,
                Method::Delete,
                path@,
                Seq::empty(),
                None,
                reply,
            ) ==> self.round_trip(transport, reply));
        self.client.delete(path.as_str(), transport)
    }
}

/// Accumulates the fields of an issue to create, or the changes to an issue
/// to update, and sends them.
#[derive(Debug)]
pub struct IssueBuilder<'a> {
    client: Rc<RedmineClient>,
    kind: BuilderKind,
    project_id: Option<u32>,
    tracker_id: Option<u32>,
    status_id: Option<u32>,
    priority_id: Option<u32>,
    subject: &'a str,
    description: &'a str,
    category_id: Option<u32>,
    fixed_version_id: Option<u32>,
    assigned_to_id: Option<u32>,
    parent_issue_id: Option<u32>,
    watcher_user_ids: Vec<u32>,
    is_private: bool,
    estimated_hours: Option<Numeral>,
    notes: &'a str,
    private_notes: bool,
    update_id: u32,
}

/// An [`IssueBuilder`] as plain data.
pub struct IssueBuilderView {
    pub connection: ConnectionView,
    pub kind: BuilderKind,
    pub project_id: Option<u32>,
    pub tracker_id: Option<u32>,
    pub status_id: Option<u32>,
    pub priority_id: Option<u32>,
    pub subject: Seq<char>,
    pub description: Seq<char>,
    pub category_id: Option<u32>,
    pub fixed_version_id: Option<u32>,
    pub assigned_to_id: Option<u32>,
    pub parent_issue_id: Option<u32>,
    pub watcher_user_ids: Seq<u32>,
    pub is_private: bool,
    pub estimated_hours: Option<NumeralModel>,
    pub notes: Seq<char>,
    pub private_notes: bool,
    pub update_id: u32,
}

impl<'a> View for IssueBuilder<'a> {
    type V = IssueBuilderView;

    closed spec fn view(&self) -> IssueBuilderView {
        IssueBuilderView {
            connection: (*self.client)@,
            kind: self.kind,
            project_id: self.project_id,
            tracker_id: self.tracker_id,
            status_id: self.status_id,
            priority_id: self.priority_id,
            subject: self.subject@,
            description: self.description@,
            category_id: self.category_id,
            fixed_version_id: self.fixed_version_id,
            assigned_to_id: self.assigned_to_id,
            parent_issue_id: self.parent_issue_id,
            watcher_user_ids: self.watcher_user_ids@,
            is_private: self.is_private,
            estimated_hours: numeral_view(self.estimated_hours),
            notes: self.notes@,
            private_notes: self.private_notes,
            update_id: self.update_id,
        }
    }
}

impl IssueBuilderView {
    /// The builder in which nothing is set.
    pub open spec fn unset(connection: ConnectionView, kind: BuilderKind) -> IssueBuilderView {
        IssueBuilderView {
            connection,
            kind,
            project_id: None,
            tracker_id: None,
            status_id: None,
            priority_id: None,
            subject: Seq::empty(),
            description: Seq::empty(),
            category_id: None,
            fixed_version_id: None,
            assigned_to_id: None,
            parent_issue_id: None,
            watcher_user_ids: Seq::empty(),
            is_private: false,
            estimated_hours: None,
            notes: Seq::empty(),
            private_notes: false,
            update_id: 0,
        }
    }

    /// The members of the payload: one for each field that is set, in a
    /// fixed order; the two flags are always there.
    pub open spec fn members(self) -> Seq<(Seq<char>, JsonModel)> {
        let m = Seq::empty();
        let m = with_u32(m, "project_id"@, self.project_id);
        let m = with_u32(m, "tracker_id"@, self.tracker_id);
        let m = with_u32(m, "status_id"@, self.status_id);
        let m = with_u32(m, "priority_id"@, self.priority_id);
        let m = with_text(m, "subject"@, self.subject);
        let m = with_text(m, "description"@, self.description);
        let m = with_u32(m, "category_id"@, self.category_id);
        let m = with_u32(m, "fixed_version_id"@, self.fixed_version_id);
        let m = with_u32(m, "assigned_to_id"@, self.assigned_to_id);
        let m = with_u32(m, "parent_issue_id"@, self.parent_issue_id);
        let m = with_ids(m, "watcher_user_ids"@, self.watcher_user_ids);
        let m = with_bool(m, "is_private"@, self.is_private);
        let m = with_numeral(m, "estimated_hours"@, self.estimated_hours);
        let m = with_text(m, "notes"@, self.notes);
        with_bool(m, "private_notes"@, self.private_notes)
    }

    /// The payload: the members under `issue`.
    pub open spec fn payload(self) -> JsonModel {
        envelope("issue"@, self.members())
    }

    /// The endpoint that the builder writes to: the collection for a
    /// creation, the issue itself for an update.
    pub open spec fn path(self) -> Seq<char> {
        match self.kind {
            BuilderKind::Create => issues_path(),
            BuilderKind::Update => issue_path(self.update_id),
        }
    }
}

impl<'a> IssueBuilder<'a> {
    /// The builder in which nothing is set.
    fn unset(client: Rc<RedmineClient>, kind: BuilderKind) -> (b: IssueBuilder<'a>)
        ensures
            b@ == IssueBuilderView::unset((*client)@, kind),
    {
        proof {
            reveal_strlit("");
            assert(""@ =~= Seq::<char>::empty());
        }
        IssueBuilder {
            client,
            kind,
            project_id: None,
            tracker_id: None,
            status_id: None,
            priority_id: None,
            subject: "",
            description: "",
            category_id: None,
            fixed_version_id: None,
            assigned_to_id: None,
            parent_issue_id: None,
            watcher_user_ids: Vec::new(),
            is_private: false,
            estimated_hours: None,
            notes: "",
            private_notes: false,
            update_id: 0,
        }
    }

    /// A builder that creates an issue with the given mandatory fields.
    pub fn for_create(
        client: Rc<RedmineClient>,
        project_id: u32,
        tracker_id: u32,
        status_id: u32,
        priority_id: u32,
        subject: &'a str,
    ) -> (b: IssueBuilder<'a>)
        ensures
            b@ == (IssueBuilderView {
                project_id: Some(project_id),
                tracker_id: Some(tracker_id),
                status_id: Some(status_id),
                priority_id: Some(priority_id),
                subject: subject@,
                ..IssueBuilderView::unset((*client)@, BuilderKind::Create)
            }),
    {
        let mut b = IssueBuilder::unset(client, BuilderKind::Create);
        b.project_id = Some(project_id);
        b.tracker_id = Some(tracker_id);
        b.status_id = Some(status_id);
        b.priority_id = Some(priority_id);
        b.subject = subject;
        b
    }

    /// A builder that updates the issue `id` and changes nothing yet.
    pub fn for_update(client: Rc<RedmineClient>, id: u32) -> (b: IssueBuilder<'a>)
        ensures
            b@ == (IssueBuilderView {
                update_id: id,
                ..IssueBuilderView::unset((*client)@, BuilderKind::Update)
            }),
    {
        let mut b = IssueBuilder::unset(client, BuilderKind::Update);
        b.update_id = id;
        b
    }

    /// Sets the project of the issue.
    pub fn project_id(self, id: u32) -> (b: IssueBuilder<'a>)
        ensures
            b@ == (IssueBuilderView { project_id: Some(id), ..self@ }),
    {
        let mut b = self;
        b.project_id = Some(id);
        b
    }

    /// Sets the tracker of the issue.
    pub fn tracker_id(self, id: u32) -> (b: IssueBuilder<'a>)
        ensures
            b@ == (IssueBuilderView { tracker_id: Some(id), ..self@ }),
    {
        let mut b = self;
        b.tracker_id = Some(id);
        b
    }

    /// Sets the status of the issue.
    pub fn status_id(self, id: u32) -> (b: IssueBuilder<'a>)
        ensures
            b@ == (IssueBuilderView { status_id: Some(id), ..self@ }),
    {
        let mut b = self;
        b.status_id = Some(id);
        b
    }

    /// Sets the priority of the issue.
    pub fn priority_id(self, id: u32) -> (b: IssueBuilder<'a>)
        ensures
            b@ == (IssueBuilderView { priority_id: Some(id), ..self@ }),
    {
        let mut b = self;
        b.priority_id = Some(id);
        b
    }

    /// Sets the subject of the issue.
    pub fn subject(self, s: &'a str) -> (b: IssueBuilder<'a>)
        ensures
            b@ == (IssueBuilderView { subject: s@, ..self@ }),
    {
        let mut b = self;
        b.subject = s;
        b
    }

    /// Sets the description of the issue.
    pub fn description(self, s: &'a str) -> (b: IssueBuilder<'a>)
        ensures
            b@ == (IssueBuilderView { description: s@, ..self@ }),
    {
        let mut b = self;
        b.description = s;
        b
    }

    /// Sets the category of the issue.
    pub fn category_id(self, id: u32) -> (b: IssueBuilder<'a>)
        ensures
            b@ == (IssueBuilderView { category_id: Some(id), ..self@ }),
    {
        let mut b = self;
        b.category_id = Some(id);
        b
    }

    /// Sets the target version of the issue.
    pub fn fixed_version_id(self, id: u32) -> (b: IssueBuilder<'a>)
        ensures
            b@ == (IssueBuilderView { fixed_version_id: Some(id), ..self@ }),
    {
        let mut b = self;
        b.fixed_version_id = Some(id);
        b
    }

    /// Sets the user whom the issue is assigned to.
    pub fn assigned_to_id(self, id: u32) -> (b: IssueBuilder<'a>)
        ensures
            b@ == (IssueBuilderView { assigned_to_id: Some(id), ..self@ }),
    {
        let mut b = self;
        b.assigned_to_id = Some(id);
        b
    }

    /// Sets the parent of the issue.
    pub fn parent_issue_id(self, id: u32) -> (b: IssueBuilder<'a>)
        ensures
            b@ == (IssueBuilderView { parent_issue_id: Some(id), ..self@ }),
    {
        let mut b = self;
        b.parent_issue_id = Some(id);
        b
    }

    /// Sets the users who watch the issue, in place of those set before.
    pub fn watcher_user_ids(self, ids: Vec<u32>) -> (b: IssueBuilder<'a>)
        ensures
            b@ == (IssueBuilderView { watcher_user_ids: ids@, ..self@ }),
    {
        let mut b = self;
        b.watcher_user_ids = ids;
        b
    }

    /// Adds the user `id` to those who watch the issue.
    pub fn add_watcher_user_id(self, id: u32) -> (b: IssueBuilder<'a>)
        ensures
            b@ == (IssueBuilderView {
                watcher_user_ids: self@.watcher_user_ids.push(id),
                ..self@
            }),
    {
        let mut b = self;
        b.watcher_user_ids.push(id);
        b
    }

    /// Sets whether the issue is private.
    pub fn is_private(self, flag: bool) -> (b: IssueBuilder<'a>)
        ensures
            b@ == (IssueBuilderView { is_private: flag, ..self@ }),
    {
        let mut b = self;
        b.is_private = flag;
        b
    }

    /// Sets the hours that the issue is estimated to take.
    pub fn estimated_hours(self, hours: Numeral) -> (b: IssueBuilder<'a>)
        ensures
            b@ == (IssueBuilderView { estimated_hours: Some(hours@), ..self@ }),
    {
        let mut b = self;
        b.estimated_hours = Some(hours);
        b
    }

    /// Sets the note that the update adds to the issue.
    pub fn notes(self, s: &'a str) -> (b: IssueBuilder<'a>)
        ensures
            b@ == (IssueBuilderView { notes: s@, ..self@ }),
    {
        let mut b = self;
        b.notes = s;
        b
    }

    /// Sets whether the note is private.
    pub fn private_notes(self, flag: bool) -> (b: IssueBuilder<'a>)
        ensures
            b@ == (IssueBuilderView { private_notes: flag, ..self@ }),
    {
        let mut b = self;
        b.private_notes = flag;
        b
    }

    /// The payload of the request.
    pub fn payload(&self) -> (r: Json)
        ensures
            r@ == self@.payload(),
    {
        let mut m: Vec<(String, Json)> = Vec::new();
        assert(members_view(m@) =~= Seq::empty());
        push_u32(&mut m, "project_id", self.project_id);
        push_u32(&mut m, "tracker_id", self.tracker_id);
        push_u32(&mut m, "status_id", self.status_id);
        push_u32(&mut m, "priority_id", self.priority_id);
        push_text(&mut m, "subject", self.subject);
        push_text(&mut m, "description", self.description);
        push_u32(&mut m, "category_id", self.category_id);
        push_u32(&mut m, "fixed_version_id", self.fixed_version_id);
        push_u32(&mut m, "assigned_to_id", self.assigned_to_id);
        push_u32(&mut m, "parent_issue_id", self.parent_issue_id);
        push_ids(&mut m, "watcher_user_ids", &self.watcher_user_ids);
        push_bool(&mut m, "is_private", self.is_private);
        push_numeral(&mut m, "estimated_hours", &self.estimated_hours);
        push_text(&mut m, "notes", self.notes);
        push_bool(&mut m, "private_notes", self.private_notes);
        Json::envelope("issue", m)
    }

    /// Whether `reply` is how the round trip of the operation may end.
    pub open spec fn round_trip<T: FnOnce(Request) -> Result<Response, String>>(
        &self,
        transport: T,
        reply: Result<ResponseView, Seq<char>>,
    ) -> bool {
        self@.connection.round_trip(
            transport,
            self@.kind.method(),
            self@.path(),
            Seq::empty(),
            Some(json_rendered(self@.payload())),
            reply,
        )
    }

    /// Sends the creation or the update. A creation returns the location of
    /// the new issue, an update the confirmation.
    pub fn execute<T: FnOnce(Request) -> Result<Response, String>>(&self, transport: T) -> (r:
        Result<String, Error>)
        requires
            forall|q: Request| call_requires(transport, (q,)),
        ensures
            exists|reply: Result<ResponseView, Seq<char>>|
                #[trigger] self.round_trip(transport, reply)
                    && text_view(r) == self@.kind.result(reply),
    {
        let issue = self.payload();
        proof {
            lemma_issue_payload_depth(self@);
        }
        assert(self@.connection == (*self.client)@);
        match self.kind {
            BuilderKind::Create => {
                assert("/issues.json"@ == self@.path());
                assert(forall|reply: Result<ResponseView, Seq<char>>|
                    #[trigger] (*self.client)@.round_trip(
                        transport,
                        Method::Post,
                        "/issues.json"@,
                        Seq::empty(),
                        Some(json_rendered(issue@)),
                        reply,
                    ) ==> self.round_trip(transport, reply));
                self.client.create("/issues.json", &issue, transport)
            },
            BuilderKind::Update => {
                let path = make_item_path("/issues/", self.update_id, ".json");
                assert(path@ == self@.path());
                assert(forall|reply: Result<ResponseView, Seq<char>>|
                    #[trigger] (*self.client)@.round_trip(
                        transport,
                        Method::Put,
                        path@,
                        Seq::empty(),
                        Some(json_rendered(issue@)),
                        reply,
                    ) ==> self.round_trip(transport, reply));
                self.client.update(path.as_str(), &issue, transport)
            },
        }
    }
}

/// Default omission: the payload of an issue holds a member for a field
/// exactly where the field is set, with the value that it was set to, and no
/// member under any other key. A whole number or a number is set where one was
/// given, a text or a list where it is not empty; a flag is always set.
pub proof fn lemma_issue_members(b: IssueBuilderView)
    ensures
        member(b.members(), "project_id"@) == u32_member(b.project_id),
        member(b.members(), "tracker_id"@) == u32_member(b.tracker_id),
        member(b.members(), "status_id"@) == u32_member(b.status_id),
        member(b.members(), "priority_id"@) == u32_member(b.priority_id),
        member(b.members(), "subject"@) == text_member(b.subject),
        member(b.members(), "description"@) == text_member(b.description),
        member(b.members(), "category_id"@) == u32_member(b.category_id),
        member(b.members(), "fixed_version_id"@) == u32_member(b.fixed_version_id),
        member(b.members(), "assigned_to_id"@) == u32_member(b.assigned_to_id),
        member(b.members(), "parent_issue_id"@) == u32_member(b.parent_issue_id),
        member(b.members(), "watcher_user_ids"@) == ids_member(b.watcher_user_ids),
        member(b.members(), "is_private"@) == Some(JsonModel::Bool(b.is_private)),
        member(b.members(), "estimated_hours"@) == numeral_member(b.estimated_hours),
        member(b.members(), "notes"@) == text_member(b.notes),
        member(b.members(), "private_notes"@) == Some(JsonModel::Bool(b.private_notes)),
        forall|key: Seq<char>|
            (#[trigger] member(b.members(), key)) is Some ==> key == "project_id"@
                || key == "tracker_id"@
                || key == "status_id"@
                || key == "priority_id"@
                || key == "subject"@
                || key == "description"@
                || key == "category_id"@
                || key == "fixed_version_id"@
                || key == "assigned_to_id"@
                || key == "parent_issue_id"@
                || key == "watcher_user_ids"@
                || key == "is_private"@
                || key == "estimated_hours"@
                || key == "notes"@
                || key == "private_notes"@,
{
    reveal_strlit("project_id");
    reveal_strlit("tracker_id");
    reveal_strlit("status_id");
    reveal_strlit("priority_id");
    reveal_strlit("subject");
    reveal_strlit("description");
    reveal_strlit("category_id");
    reveal_strlit("fixed_version_id");
    reveal_strlit("assigned_to_id");
    reveal_strlit("parent_issue_id");
    reveal_strlit("watcher_user_ids");
    reveal_strlit("is_private");
    reveal_strlit("estimated_hours");
    reveal_strlit("notes");
    reveal_strlit("private_notes");
    assert("project_id"@.len() == 10);
    assert("tracker_id"@.len() == 10);
    assert("status_id"@.len() == 9);
    assert("priority_id"@.len() == 11);
    assert("subject"@.len() == 7);
    assert("description"@.len() == 11);
    assert("category_id"@.len() == 11);
    assert("fixed_version_id"@.len() == 16);
    assert("assigned_to_id"@.len() == 14);
    assert("parent_issue_id"@.len() == 15);
    assert("watcher_user_ids"@.len() == 16);
    assert("is_private"@.len() == 10);
    assert("estimated_hours"@.len() == 15);
    assert("notes"@.len() == 5);
    assert("private_notes"@.len() == 13);
    assert("project_id"@[0] != "tracker_id"@[0]);
    assert("project_id"@[0] != "is_private"@[0]);
    assert("tracker_id"@[0] != "is_private"@[0]);
    assert("priority_id"@[0] != "description"@[0]);
    assert("priority_id"@[0] != "category_id"@[0]);
    assert("description"@[0] != "category_id"@[0]);
    assert("fixed_version_id"@[0] != "watcher_user_ids"@[0]);
    assert("parent_issue_id"@[0] != "estimated_hours"@[0]);
    let m0 = Seq::<(Seq<char>, JsonModel)>::empty();
    assert(forall|key: Seq<char>| (#[trigger] member(m0, key)) is None);
    lemma_with_u32(m0, "project_id"@, b.project_id);
    let m1 = with_u32(m0, "project_id"@, b.project_id);
    lemma_with_u32(m1, "tracker_id"@, b.tracker_id);
    let m2 = with_u32(m1, "tracker_id"@, b.tracker_id);
    lemma_with_u32(m2, "status_id"@, b.status_id);
    let m3 = with_u32(m2, "status_id"@, b.status_id);
    lemma_with_u32(m3, "priority_id"@, b.priority_id);
    let m4 = with_u32(m3, "priority_id"@, b.priority_id);
    lemma_with_text(m4, "subject"@, b.subject);
    let m5 = with_text(m4, "subject"@, b.subject);
    lemma_with_text(m5, "description"@, b.description);
    let m6 = with_text(m5, "description"@, b.description);
    lemma_with_u32(m6, "category_id"@, b.category_id);
    let m7 = with_u32(m6, "category_id"@, b.category_id);
    lemma_with_u32(m7, "fixed_version_id"@, b.fixed_version_id);
    let m8 = with_u32(m7, "fixed_version_id"@, b.fixed_version_id);
    lemma_with_u32(m8, "assigned_to_id"@, b.assigned_to_id);
    let m9 = with_u32(m8, "assigned_to_id"@, b.assigned_to_id);
    lemma_with_u32(m9, "parent_issue_id"@, b.parent_issue_id);
    let m10 = with_u32(m9, "parent_issue_id"@, b.parent_issue_id);
    lemma_with_ids(m10, "watcher_user_ids"@, b.watcher_user_ids);
    let m11 = with_ids(m10, "watcher_user_ids"@, b.watcher_user_ids);
    lemma_with_bool(m11, "is_private"@, b.is_private);
    let m12 = with_bool(m11, "is_private"@, b.is_private);
    lemma_with_numeral(m12, "estimated_hours"@, b.estimated_hours);
    let m13 = with_numeral(m12, "estimated_hours"@, b.estimated_hours);
    lemma_with_text(m13, "notes"@, b.notes);
    let m14 = with_text(m13, "notes"@, b.notes);
    lemma_with_bool(m14, "private_notes"@, b.private_notes);
    let m15 = with_bool(m14, "private_notes"@, b.private_notes);
    assert(m15 == b.members());
}

/// An update in which nothing was set is a PUT to the issue itself whose
/// payload holds only the flags, each `false`: no field that was left alone is
/// sent.
pub proof fn lemma_issue_update_unchanged(connection: ConnectionView, id: u32)
    ensures
        ({
            let unset = IssueBuilderView::unset(connection, BuilderKind::Update);
            let b = IssueBuilderView { update_id: id, ..unset };
            &&& b.kind.method() == Method::Put
            &&& b.path() == issue_path(id)
            &&& b.members() == seq![
                ("is_private"@, JsonModel::Bool(false)),
                ("private_notes"@, JsonModel::Bool(false)),
            ]
        }),
{
    let unset = IssueBuilderView::unset(connection, BuilderKind::Update);
    let b = IssueBuilderView { update_id: id, ..unset };
    assert(b.members() =~= seq![
        ("is_private"@, JsonModel::Bool(false)),
        ("private_notes"@, JsonModel::Bool(false)),
    ]);
}

/// Round trip: read back with the decoders of [`Issue`], the payload of
/// an issue gives each field that the builder and the record share the
/// value that it was set to. A text counts as set where it is not empty.
pub proof fn lemma_issue_round_trip(b: IssueBuilderView)
    ensures
        b.subject.len() > 0 ==> required_text(JsonModel::Object(b.members()), "subject"@)
            == Some(b.subject),
        b.description.len() > 0 ==> optional_text(JsonModel::Object(b.members()), "description"@)
            == Some(Some(b.description)),
        optional_numeral(JsonModel::Object(b.members()), "estimated_hours"@)
            == Some(b.estimated_hours),
{
    lemma_issue_members(b);
}

/// The value that the issue ids contribute to the query: the ids in the order
/// given, joined by commas; none where no id was given.
pub open spec fn ids_param(ids: Seq<u32>) -> Option<Seq<char>> {
    if ids.len() == 0 {
        None
    } else {
        Some(joined(ids))
    }
}

/// The query of a listing of issues holds a pair for a constraint exactly
/// where the constraint is set, with the decimal numeral of its identifier or
/// the joined issue ids, and no pair under any other key.
pub proof fn lemma_issues_params(f: IssueFilterView)
    ensures
        param(f.params(), "assigned_to_id"@) == id_param(f.assigned_to_id),
        param(f.params(), "issue_id"@) == ids_param(f.issue_id),
        param(f.params(), "parent_id"@) == id_param(f.parent_id),
        param(f.params(), "project_id"@) == id_param(f.project_id),
        param(f.params(), "status_id"@) == id_param(f.status_id),
        param(f.params(), "subproject_id"@) == id_param(f.subproject_id),
        param(f.params(), "tracker_id"@) == id_param(f.tracker_id),
        forall|key: Seq<char>|
            (#[trigger] param(f.params(), key)) is Some ==> key == "assigned_to_id"@
                || key == "issue_id"@
                || key == "parent_id"@
                || key == "project_id"@
                || key == "status_id"@
                || key == "subproject_id"@
                || key == "tracker_id"@,
{
    reveal_strlit("assigned_to_id");
    reveal_strlit("issue_id");
    reveal_strlit("parent_id");
    reveal_strlit("project_id");
    reveal_strlit("status_id");
    reveal_strlit("subproject_id");
    reveal_strlit("tracker_id");
    assert("assigned_to_id"@.len() == 14);
    assert("issue_id"@.len() == 8);
    assert("parent_id"@.len() == 9);
    assert("project_id"@.len() == 10);
    assert("status_id"@.len() == 9);
    assert("subproject_id"@.len() == 13);
    assert("tracker_id"@.len() == 10);
    assert("parent_id"@[0] != "status_id"@[0]);
    assert("project_id"@[0] != "tracker_id"@[0]);
    let q0 = Seq::<(Seq<char>, Seq<char>)>::empty();
    assert(forall|key: Seq<char>| (#[trigger] param(q0, key)) is None);
    lemma_with_param(q0, "assigned_to_id"@, f.assigned_to_id);
    let q1 = with_param(q0, "assigned_to_id"@, f.assigned_to_id);
    let q2 = f.with_issue_ids(q1);
    assert forall|key: Seq<char>| #[trigger]
        param(q2, key) == param_after(param(q1, key), key, "issue_id"@, ids_param(f.issue_id)) by {
        if f.issue_id.len() != 0 {
            lemma_param_push(q1, "issue_id"@, joined(f.issue_id), key);
        }
    }
    lemma_with_param(q2, "parent_id"@, f.parent_id);
    let q3 = with_param(q2, "parent_id"@, f.parent_id);
    lemma_with_param(q3, "project_id"@, f.project_id);
    let q4 = with_param(q3, "project_id"@, f.project_id);
    lemma_with_param(q4, "status_id"@, f.status_id);
    let q5 = with_param(q4, "status_id"@, f.status_id);
    lemma_with_param(q5, "subproject_id"@, f.subproject_id);
    let q6 = with_param(q5, "subproject_id"@, f.subproject_id);
    lemma_with_param(q6, "tracker_id"@, f.tracker_id);
    let q7 = with_param(q6, "tracker_id"@, f.tracker_id);
    assert(q7 == f.params());
}

/// Issue ids accumulate: after two calls that give ids, the query holds, under
/// `issue_id`, the ids that were there before, then those of the first call,
/// then those of the second, joined by commas. On a filter without ids, and
/// where both calls give some, that is the first list, a comma, and the second.
pub proof fn lemma_issue_ids_accumulate(f: IssueFilterView, first: Seq<u32>, second: Seq<u32>)
    ensures
        ({
            let once = IssueFilterView { issue_id: f.issue_id + first, ..f };
            let twice = IssueFilterView { issue_id: once.issue_id + second, ..once };
            &&& param(twice.params(), "issue_id"@) == ids_param(f.issue_id + first + second)
            &&& f.issue_id.len() == 0 && first.len() > 0 && second.len() > 0 ==> param(
                twice.params(),
                "issue_id"@,
            ) == Some(joined(first) + seq![','] + joined(second))
        }),
{
    let once = IssueFilterView { issue_id: f.issue_id + first, ..f };
    let twice = IssueFilterView { issue_id: once.issue_id + second, ..once };
    lemma_issues_params(twice);
    if f.issue_id.len() == 0 && first.len() > 0 && second.len() > 0 {
        assert(f.issue_id + first =~= first);
        lemma_joined_concat(first, second);
    }
}

/// The payload of an issue nests three deep, within what is printed.
pub proof fn lemma_issue_payload_depth(b: IssueBuilderView)
    ensures
        b.payload().within(RENDER_DEPTH as nat),
{
    let m0 = Seq::<(Seq<char>, JsonModel)>::empty();
    lemma_flat(m0, "project_id"@);
    let m1 = with_u32(m0, "project_id"@, b.project_id);
    lemma_flat(m1, "tracker_id"@);
    let m2 = with_u32(m1, "tracker_id"@, b.tracker_id);
    lemma_flat(m2, "status_id"@);
    let m3 = with_u32(m2, "status_id"@, b.status_id);
    lemma_flat(m3, "priority_id"@);
    let m4 = with_u32(m3, "priority_id"@, b.priority_id);
    lemma_flat(m4, "subject"@);
    let m5 = with_text(m4, "subject"@, b.subject);
    lemma_flat(m5, "description"@);
    let m6 = with_text(m5, "description"@, b.description);
    lemma_flat(m6, "category_id"@);
    let m7 = with_u32(m6, "category_id"@, b.category_id);
    lemma_flat(m7, "fixed_version_id"@);
    let m8 = with_u32(m7, "fixed_version_id"@, b.fixed_version_id);
    lemma_flat(m8, "assigned_to_id"@);
    let m9 = with_u32(m8, "assigned_to_id"@, b.assigned_to_id);
    lemma_flat(m9, "parent_issue_id"@);
    let m10 = with_u32(m9, "parent_issue_id"@, b.parent_issue_id);
    lemma_flat(m10, "watcher_user_ids"@);
    let m11 = with_ids(m10, "watcher_user_ids"@, b.watcher_user_ids);
    lemma_flat(m11, "is_private"@);
    let m12 = with_bool(m11, "is_private"@, b.is_private);
    lemma_flat(m12, "estimated_hours"@);
    let m13 = with_numeral(m12, "estimated_hours"@, b.estimated_hours);
    lemma_flat(m13, "notes"@);
    let m14 = with_text(m13, "notes"@, b.notes);
    lemma_flat(m14, "private_notes"@);
    let m15 = with_bool(m14, "private_notes"@, b.private_notes);
    assert(m15 == b.members());
    lemma_envelope_depth("issue"@, b.members());
}

} // verus!
