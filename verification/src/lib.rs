//! Typed client core for the Redmine REST API: request construction, payload
//! encoding, response decoding and the error taxonomy, with the network round
//! trip supplied by the caller.

pub mod client;
pub mod decode;
pub mod errors;
pub mod issues;
pub mod json;
pub mod projects;
pub mod text;
pub mod time_entries;
pub mod users;

pub use crate::client::RedmineClient;
pub use crate::decode::{NamedObject, Object};

use crate::client::ConnectionView;
use std::rc::Rc;
use vstd::prelude::*;

verus! {

/// The entry point: one connection, and the operations on each kind of
/// resource over it.
pub struct RedmineApi {
    issues: issues::Api,
    projects: projects::Api,
    time_entries: time_entries::Api,
    users: users::Api,
}

impl RedmineApi {
    /// The connection that all operations go through.
    pub closed spec fn connection(&self) -> ConnectionView {
        self.issues.connection()
    }

    /// The four resource kinds share the one connection.
    #[verifier::type_invariant]
    closed spec fn wf(&self) -> bool {
        &&& self.projects.connection() == self.issues.connection()
        &&& self.time_entries.connection() == self.issues.connection()
        &&& self.users.connection() == self.issues.connection()
    }

    /// The client of the instance at `host`, authenticated by `apikey`.
    pub fn new(host: String, apikey: String) -> (api: RedmineApi)
        ensures
            api.connection() == (ConnectionView { host: host@, apikey: apikey@ }),
    {
        let c = Rc::new(RedmineClient::new(host, apikey));
        RedmineApi {
            issues: issues::Api::new(Rc::clone(&c)),
            projects: projects::Api::new(Rc::clone(&c)),
            time_entries: time_entries::Api::new(Rc::clone(&c)),
            users: users::Api::new(c),
        }
    }

    /// The operations on issues.
    pub fn issues(&self) -> (api: &issues::Api)
        ensures
            api.connection() == self.connection(),
    {
        &self.issues
    }

    /// The operations on projects.
    pub fn projects(&self) -> (api: &projects::Api)
        ensures
            api.connection() == self.connection(),
    {
        proof {
            use_type_invariant(self);
        }
        &self.projects
    }

    /// The operations on time entries.
    pub fn time_entries(&self) -> (api: &time_entries::Api)
        ensures
            api.connection() == self.connection(),
    {
        proof {
            use_type_invariant(self);
        }
        &self.time_entries
    }

    /// The operations on users.
    pub fn users(&self) -> (api: &users::Api)
        ensures
            api.connection() == self.connection(),
    {
        proof {
            use_type_invariant(self);
        }
        &self.users
    }
}

} // verus!
