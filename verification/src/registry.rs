//! A registry: a store whose only ways in are the two creation paths.
//!
//! A [`Store`] keeps whatever it is given under whatever key it is given. A
//! [`Registry`] owns one and lets nothing in but creation requests, so every
//! record it holds is kept under its own email, and no two of its records
//! share one. Creating takes the registry exclusively: of two requests for
//! one email, one is served first and the other meets its record.

use crate::service::{self, filed_by_email, records_after, reply_to, Reply};
use crate::store::Store;
use crate::user::{server_assigned, CreateUserDto, User, UserView};
use vstd::prelude::*;

verus! {

/// The records of a service, each kept under its own email.
pub struct Registry {
    store: Store,
}

impl View for Registry {
    type V = Map<Seq<char>, UserView>;

    closed spec fn view(&self) -> Map<Seq<char>, UserView> {
        self.store@
    }
}

impl Registry {
    /// Every record is kept under its own email. [`Registry::new`] makes it
    /// so and both creation paths keep it so, which are the only ways to make
    /// or to change a registry.
    pub open spec fn wf(&self) -> bool {
        filed_by_email(self@)
    }

    /// A registry that holds no record.
    pub fn new() -> (registry: Registry)
        ensures
            registry@ =~= Map::empty(),
            registry.wf(),
    {
        Registry { store: Store::new() }
    }

    /// Whether a record is kept under `email`.
    pub fn contains(&self, email: &str) -> (present: bool)
        ensures
            present == self@.contains_key(email@),
    {
        self.store.contains(email)
    }

    /// A copy of the record kept under `email`, if there is one. A record that
    /// is found carries that email.
    pub fn get(&self, email: &str) -> (found: Option<User>)
        ensures
            match found {
                Some(record) => {
                    &&& self@.contains_key(email@)
                    &&& record@ == self@[email@]
                    &&& self.wf() ==> record@.email == email@
                },
                None => !self@.contains_key(email@),
            },
    {
        self.store.get(email)
    }

    /// Creates an account from a full record sent by the client, as
    /// [`service::create_user_vulnerable`] does: the email decides between a
    /// conflict and a record stored and answered as it came.
    pub fn create_user_vulnerable(&mut self, user_data: User) -> (reply: Reply)
        ensures
            reply@ == reply_to(old(self)@, user_data@),
            final(self)@ == records_after(old(self)@, user_data@),
            old(self).wf() ==> final(self).wf(),
    {
        service::create_user_vulnerable(&mut self.store, user_data)
    }

    /// Creates an account from the three fields a client may choose, as
    /// [`service::create_user_secure`] does: the email decides between a
    /// conflict and a record stored and answered with the default role and
    /// organization.
    pub fn create_user_secure(&mut self, user_dto: CreateUserDto) -> (reply: Reply)
        ensures
            reply@ == reply_to(old(self)@, server_assigned(user_dto@)),
            final(self)@ == records_after(old(self)@, server_assigned(user_dto@)),
            old(self).wf() ==> final(self).wf(),
    {
        service::create_user_secure(&mut self.store, user_dto)
    }
}

} // verus!
