//! The user record and the narrower shape a client may submit.

use vstd::prelude::*;

verus! {

/// The role every account gets when the server assigns it.
pub const DEFAULT_ROLE: &'static str = "user";

/// The organization every account gets when the server assigns it.
pub const DEFAULT_ORGANIZATION: &'static str = "default_org";

/// A full user record as the registry keeps it.
///
/// The password is kept as plain text, and `role` and `organization` decide
/// what the account may do.
#[derive(Debug)]
pub struct User {
    pub username: String,
    pub password: String,
    pub email: String,
    pub role: String,
    pub organization: String,
}

/// The mathematical value of a [`User`]: its five texts.
pub struct UserView {
    pub username: Seq<char>,
    pub password: Seq<char>,
    pub email: Seq<char>,
    pub role: Seq<char>,
    pub organization: Seq<char>,
}

impl View for User {
    type V = UserView;

    open spec fn view(&self) -> UserView {
        UserView {
            username: self.username@,
            password: self.password@,
            email: self.email@,
            role: self.role@,
            organization: self.organization@,
        }
    }
}

impl Clone for User {
    fn clone(&self) -> (copy: Self)
        ensures
            copy@ == self@,
    {
        User {
            username: self.username.clone(),
            password: self.password.clone(),
            email: self.email.clone(),
            role: self.role.clone(),
            organization: self.organization.clone(),
        }
    }
}

/// What a client may submit when the server decides the privileged fields.
///
/// The shape has no place for a role or an organization.
#[derive(Debug)]
pub struct CreateUserDto {
    pub username: String,
    pub password: String,
    pub email: String,
}

/// The mathematical value of a [`CreateUserDto`]: its three texts.
pub struct CreateUserDtoView {
    pub username: Seq<char>,
    pub password: Seq<char>,
    pub email: Seq<char>,
}

impl View for CreateUserDto {
    type V = CreateUserDtoView;

    open spec fn view(&self) -> CreateUserDtoView {
        CreateUserDtoView {
            username: self.username@,
            password: self.password@,
            email: self.email@,
        }
    }
}

/// The record the server builds from a submission: the three submitted texts,
/// with the default role and the default organization.
pub open spec fn server_assigned(submitted: CreateUserDtoView) -> UserView {
    UserView {
        username: submitted.username,
        password: submitted.password,
        email: submitted.email,
        role: DEFAULT_ROLE@,
        organization: DEFAULT_ORGANIZATION@,
    }
}

impl CreateUserDto {
    /// Builds the full record for this submission, assigning the privileged
    /// fields on the server's side.
    pub fn into_user(self) -> (record: User)
        ensures
            record@ == server_assigned(self@),
    {
        User {
            username: self.username,
            password: self.password,
            email: self.email,
            role: DEFAULT_ROLE.to_owned(),
            organization: DEFAULT_ORGANIZATION.to_owned(),
        }
    }
}

} // verus!
