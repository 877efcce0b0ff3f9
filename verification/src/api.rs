//! Request handlers: each translates one transport-level operation into a
//! repository call and maps the outcome to a status code and body. Statuses
//! are plain numbers here; the surrounding server turns them into responses.
//! Every handler is a single-shot, stateless transaction on the store handle.

use vstd::prelude::*;
use crate::dto::{CreateUserRequest, StorageError, UserResponse, UsersListResponse};
use crate::repository::{response_of, UserRepository};
use crate::store::{lookup, UserStore};
use crate::validate::{valid_request, validate_create, violation_message};

verus! {

/// Lists all users. The in-memory store's read cannot fail, so no
/// server-error arm exists for this operation.
pub fn list_users(store: &UserStore) -> (r: UsersListResponse)
    ensures
        r@.total == store@.len(),
        r@.users.len() == store@.len(),
        forall|i: int| 0 <= i < store@.len() ==> r@.users[i] == response_of(#[trigger] store@[i]),
{
    UserRepository::find_all(store)
}

/// Fetches one user by id: the representation when the id exists, and status
/// 404 when it does not.
pub fn get_user(store: &UserStore, id: i32) -> (r: Result<UserResponse, u16>)
    ensures
        match lookup(store@, id as int) {
            Some(u) => r matches Ok(resp) && resp@ == response_of(u),
            None => r matches Err(c) && c == 404,
        },
{
    match UserRepository::find_by_id(store, id) {
        Some(user) => Ok(user),
        None => Err(404),
    }
}

/// Creates a user. Validation runs entirely before any persistence: a
/// violation returns 400 with a description and leaves the store untouched.
/// A valid payload is handed to the repository; success returns 201 with the
/// created representation, a storage failure returns 500 with a generic
/// message and leaves the store unchanged.
pub fn create_user(store: &mut UserStore, payload: CreateUserRequest) -> (r: Result<
    (u16, UserResponse),
    (u16, String),
>)
    requires
        old(store).wf(),
    ensures
        final(store).wf(),
        final(store).now_spec() == old(store).now_spec(),
        !valid_request(payload@) ==> {
            &&& r matches Err(e) && e.0 == 400 && e.1@ == "Validation error: "@
                + violation_message(payload@)
            &&& final(store)@ == old(store)@
            &&& final(store).next_id_spec() == old(store).next_id_spec()
        },
        valid_request(payload@) ==> (r matches Ok(p) ==> {
            &&& p.0 == 201
            &&& final(store)@ == old(store)@.push(final(store)@.last())
            &&& final(store)@.len() == old(store)@.len() + 1
            &&& final(store)@.last().id == old(store).next_id_spec()
            &&& final(store)@.last().email == payload@.email
            &&& final(store)@.last().full_name == payload@.full_name
            &&& final(store)@.last().role == payload@.role
            &&& final(store)@.last().is_active == true
            &&& final(store)@.last().created_at == old(store).now_spec()
            &&& final(store)@.last().password_hash.len() > 0
            &&& final(store).next_id_spec() == old(store).next_id_spec() + 1
            &&& p.1@ == response_of(final(store)@.last())
        }),
        valid_request(payload@) ==> (r matches Err(e) ==> {
            &&& e.0 == 500
            &&& exists|se: StorageError| e.1@ == "Database error: "@ + se.message_spec()
            &&& final(store)@ == old(store)@
            &&& final(store).next_id_spec() == old(store).next_id_spec()
        }),
        valid_request(payload@) && old(store).next_id_spec() == i32::MAX ==> r is Err,
{
    match validate_create(&payload) {
        Some(msg) => {
            let body = String::from_str("Validation error: ").concat(msg.as_str());
            Err((400, body))
        },
        None => {
            match UserRepository::create(store, payload) {
                Ok(user) => Ok((201, user)),
                Err(err) => {
                    let body = String::from_str("Database error: ").concat(err.message());
                    proof {
                        assert(body@ == "Database error: "@ + err.message_spec());
                    }
                    Err((500, body))
                },
            }
        },
    }
}

/// Deletes one user by id: 204 when a record was removed, 404 when none
/// carried the id — on the first and on every repeated call alike.
pub fn delete_user(store: &mut UserStore, id: i32) -> (r: u16)
    requires
        old(store).wf(),
    ensures
        final(store).wf(),
        final(store).next_id_spec() == old(store).next_id_spec(),
        final(store).now_spec() == old(store).now_spec(),
        lookup(old(store)@, id as int) is None ==> r == 404 && final(store)@ == old(store)@,
        lookup(old(store)@, id as int) is Some ==> r == 204 && exists|i: int|
            0 <= i < old(store)@.len() && (#[trigger] old(store)@[i]).id == id as int
                && final(store)@ == old(store)@.remove(i),
{
    if UserRepository::delete(store, id) {
        204
    } else {
        404
    }
}

} // verus!
