//! The query that looks a student up on the hosting service.
use vstd::prelude::*;
use gitlab::api::users::{Users, UsersBuilder, UsersBuilderError};

verus! {

#[verifier::external_type_specification]
#[verifier::external_body]
pub struct ExUsers<'a>(Users<'a>);

#[verifier::external_type_specification]
#[verifier::external_body]
pub struct ExUsersBuilderError(UsersBuilderError);

/// The users query that gitlab builds with only the username filter set to
/// `username`.
pub uninterp spec fn users_by_username(username: Seq<char>) -> Users<'static>;

/// Relies on gitlab's `UsersBuilder::build`, with only the username filter
/// set: every other field of the builder has a default, so it returns `Ok`.
#[verifier::external_body]
fn build_username_query<'a>(username: &'a str) -> (r: Result<Users<'a>, UsersBuilderError>)
    ensures
        r is Ok,
        r->Ok_0 == users_by_username(username@),
{
    UsersBuilder::default().username(username).build()
}

/// The users query that matches accounts whose username is exactly `student`.
pub fn username_query<'a>(student: &'a str) -> (r: Users<'a>)
    ensures
        r == users_by_username(student@),
{
    build_username_query(student).unwrap()
}

} // verus!
