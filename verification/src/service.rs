//! The two ways of creating an account, and what each answers.
//!
//! Both paths end in the same step: the record is kept under its email unless
//! that email is taken. They differ in where the record comes from. The
//! vulnerable path takes it from the client as it is; the secure path builds
//! it from a [`CreateUserDto`] and assigns the privileged fields itself.

use crate::store::Store;
use crate::user::{server_assigned, CreateUserDto, User, UserView};
use vstd::prelude::*;

verus! {

/// The status sent with a record that was created.
pub const STATUS_CREATED: u16 = 201;

/// The status sent when the email is taken.
pub const STATUS_CONFLICT: u16 = 409;

/// The plain text sent when the email is taken.
pub const CONFLICT_MESSAGE: &'static str = "User with this email already exists.";

/// The answer to a creation request.
#[derive(Debug)]
pub enum Reply {
    /// The record was stored; this is a copy of it, password included.
    Created(User),
    /// A record is already kept under that email; nothing was stored.
    Conflict,
}

/// The mathematical value of a [`Reply`].
pub enum ReplyView {
    Created(UserView),
    Conflict,
}

impl View for Reply {
    type V = ReplyView;

    open spec fn view(&self) -> ReplyView {
        match self {
            Reply::Created(record) => ReplyView::Created(record@),
            Reply::Conflict => ReplyView::Conflict,
        }
    }
}

/// What a request to create `record` is answered with, given the records kept
/// so far: a conflict where the record's email is taken, whatever its other
/// fields say, and the record itself otherwise.
pub open spec fn reply_to(records: Map<Seq<char>, UserView>, record: UserView) -> ReplyView {
    if records.contains_key(record.email) {
        ReplyView::Conflict
    } else {
        ReplyView::Created(record)
    }
}

/// The records kept after a request to create `record`: unchanged where the
/// record's email is taken, and otherwise with `record` added under its email.
pub open spec fn records_after(records: Map<Seq<char>, UserView>, record: UserView) -> Map<
    Seq<char>,
    UserView,
> {
    if records.contains_key(record.email) {
        records
    } else {
        records.insert(record.email, record)
    }
}

/// Every record is kept under its own email.
pub open spec fn filed_by_email(records: Map<Seq<char>, UserView>) -> bool {
    forall|key: Seq<char>| #[trigger] records.contains_key(key) ==> records[key].email == key
}

impl Reply {
    /// The HTTP status that goes with this answer.
    pub fn status(&self) -> (code: u16)
        ensures
            code == match self@ {
                ReplyView::Created(_) => STATUS_CREATED,
                ReplyView::Conflict => STATUS_CONFLICT,
            },
    {
        match self {
            Reply::Created(_) => STATUS_CREATED,
            Reply::Conflict => STATUS_CONFLICT,
        }
    }
}

/// Stores `record` under its own email unless that email is taken.
fn create(db: &mut Store, record: User) -> (reply: Reply)
    ensures
        reply@ == reply_to(old(db)@, record@),
        final(db)@ == records_after(old(db)@, record@),
        filed_by_email(old(db)@) ==> filed_by_email(final(db)@),
{
    let email = record.email.clone();
    let stored = record.clone();
    if db.insert_if_absent(email, stored) {
        Reply::Created(record)
    } else {
        Reply::Conflict
    }
}

/// Creates an account from a full record sent by the client.
///
/// Nothing is filtered: the record is stored and returned as it came, so the
/// client decides its own role and organization.
pub fn create_user_vulnerable(db: &mut Store, user_data: User) -> (reply: Reply)
    ensures
        reply@ == reply_to(old(db)@, user_data@),
        final(db)@ == records_after(old(db)@, user_data@),
        filed_by_email(old(db)@) ==> filed_by_email(final(db)@),
{
    create(db, user_data)
}

/// Creates an account from the three fields a client may choose.
///
/// The stored and returned record has the default role and the default
/// organization, whoever asks.
pub fn create_user_secure(db: &mut Store, user_dto: CreateUserDto) -> (reply: Reply)
    ensures
        reply@ == reply_to(old(db)@, server_assigned(user_dto@)),
        final(db)@ == records_after(old(db)@, server_assigned(user_dto@)),
        filed_by_email(old(db)@) ==> filed_by_email(final(db)@),
{
    create(db, user_dto.into_user())
}

} // verus!
