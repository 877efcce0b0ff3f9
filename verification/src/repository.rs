//! The user repository: the sole point of contact with the store for user
//! records, and the sole owner of password hashing and of the translation
//! from raw records to outward representations.

use vstd::prelude::*;
use crate::clock::timestamp_display;
use crate::dto::{StorageError, UserResponse, UserResponseView, UsersListResponse};
use crate::dto::CreateUserRequest;
use crate::password::hash_password;
use crate::store::{
    lemma_lookup_found, lemma_lookup_none, lemma_lookup_push_fresh, lookup, UserRecord,
    UserRecordView, UserStore,
};

verus! {

/// The outward representation of a persisted record: every field except the
/// password hash, with the creation instant rendered as text.
pub open spec fn response_of(u: UserRecordView) -> UserResponseView {
    UserResponseView {
        id: u.id,
        email: u.email,
        full_name: u.full_name,
        role: u.role,
        is_active: u.is_active,
        created_at: timestamp_display(u.created_at),
    }
}

/// The outward representation hides the password hash: records that differ
/// only in that field are represented identically, so no caller of the
/// representation can depend on it.
pub proof fn lemma_response_hides_hash(u1: UserRecordView, u2: UserRecordView)
    requires
        u1.id == u2.id,
        u1.email == u2.email,
        u1.full_name == u2.full_name,
        u1.role == u2.role,
        u1.is_active == u2.is_active,
        u1.created_at == u2.created_at,
    ensures
        response_of(u1) == response_of(u2),
{
}

/// In a well-formed store the id the next insert will receive resolves to no
/// existing record: every assigned id stays below the counter.
pub proof fn lemma_next_id_unused(store: &UserStore)
    requires
        store.wf(),
    ensures
        lookup(store@, store.next_id_spec()) is None,
{
    lemma_lookup_none(store@, store.next_id_spec());
}

/// Round trip: a record appended under a previously unused id is exactly what
/// looking that id up afterwards returns, so the representation a creation
/// hands back matches the one a subsequent lookup builds.
pub proof fn lemma_create_then_find(s: Seq<UserRecordView>, rec: UserRecordView)
    requires
        forall|j: int| 0 <= j < s.len() ==> (#[trigger] s[j]).id != rec.id,
    ensures
        lookup(s.push(rec), rec.id) matches Some(u) && response_of(u) == response_of(rec),
{
    lemma_lookup_push_fresh(s, rec);
}

/// All database access for user records: insert with hashing, point lookup,
/// full listing, and delete, each against an explicit store handle.
pub struct UserRepository;

impl UserRepository {
    /// Builds the outward representation of one raw record.
    pub fn to_response(rec: &UserRecord) -> (r: UserResponse)
        ensures
            r@ == response_of(rec@),
    {
        UserResponse {
            id: rec.id,
            email: rec.email.clone(),
            full_name: rec.full_name.clone(),
            role: rec.role.clone(),
            is_active: rec.is_active,
            created_at: crate::clock::format_timestamp(&rec.created_at),
        }
    }

    /// Lists every user in store order, mapped to its outward representation,
    /// with a count equal to the list length.
    pub fn find_all(store: &UserStore) -> (r: UsersListResponse)
        ensures
            r@.total == store@.len(),
            r@.users.len() == store@.len(),
            forall|i: int| 0 <= i < store@.len() ==> r@.users[i] == response_of(#[trigger] store@[i]),
    {
        let n = store.count();
        let mut users: Vec<UserResponse> = Vec::new();
        let mut i: usize = 0;
        while i < n
            invariant
                n == store@.len(),
                i <= n,
                users@.len() == i,
                forall|j: int| 0 <= j < i ==> users@[j]@ == response_of(#[trigger] store@[j]),
            decreases n - i,
        {
            users.push(Self::to_response(store.record_at(i)));
            i += 1;
        }
        let total = users.len();
        UsersListResponse { users, total }
    }

    /// Looks one user up by id: its outward representation if a record with
    /// that id exists, and an explicit absent value otherwise.
    pub fn find_by_id(store: &UserStore, id: i32) -> (r: Option<UserResponse>)
        ensures
            match lookup(store@, id as int) {
                Some(u) => r matches Some(resp) && resp@ == response_of(u),
                None => r is None,
            },
    {
        let n = store.count();
        let mut i: usize = 0;
        while i < n
            invariant
                n == store@.len(),
                i <= n,
                forall|j: int| 0 <= j < i ==> (#[trigger] store@[j]).id != id as int,
            decreases n - i,
        {
            let rec = store.record_at(i);
            if rec.id == id {
                proof {
                    lemma_lookup_found(store@, id as int, i as int);
                }
                return Some(Self::to_response(rec));
            }
            i += 1;
        }
        proof {
            lemma_lookup_none(store@, id as int);
        }
        None
    }

    /// Creates a user from a creation request: hashes the plaintext password
    /// with a fresh random salt, then persists a record with a store-assigned
    /// fresh id and timestamp and `is_active` set, and returns its outward
    /// representation. A hashing failure or a refused insert leaves the store
    /// unchanged and surfaces as a storage error.
    pub fn create(store: &mut UserStore, data: CreateUserRequest) -> (r: Result<
        UserResponse,
        StorageError,
    >)
        requires
            old(store).wf(),
        ensures
            final(store).wf(),
            final(store).now_spec() == old(store).now_spec(),
            r matches Ok(resp) ==> {
                &&& old(store).next_id_spec() < i32::MAX
                &&& final(store)@ == old(store)@.push(final(store)@.last())
                &&& final(store)@.len() == old(store)@.len() + 1
                &&& final(store)@.last().id == old(store).next_id_spec()
                &&& final(store)@.last().email == data@.email
                &&& final(store)@.last().full_name == data@.full_name
                &&& final(store)@.last().role == data@.role
                &&& final(store)@.last().is_active == true
                &&& final(store)@.last().created_at == old(store).now_spec()
                &&& final(store)@.last().password_hash.len() > 0
                &&& final(store).next_id_spec() == old(store).next_id_spec() + 1
                &&& resp@ == response_of(final(store)@.last())
            },
            r matches Err(_) ==> {
                &&& final(store)@ == old(store)@
                &&& final(store).next_id_spec() == old(store).next_id_spec()
            },
            old(store).next_id_spec() == i32::MAX ==> r is Err,
    {
        let CreateUserRequest { email, password, full_name, role } = data;
        let hashed = hash_password(password.as_str());
        match hashed {
            None => Err(StorageError::HashFailed),
            Some(h) => {
                match store.insert(email, h, full_name, role) {
                    None => Err(StorageError::InsertFailed),
                    Some(_id) => {
                        let n = store.count();
                        let resp = Self::to_response(store.record_at(n - 1));
                        Ok(resp)
                    },
                }
            },
        }
    }

    /// Deletes the user with the given id. An absent id is a normal outcome,
    /// reported as `false` with the store untouched — never an error — so the
    /// operation is idempotent in its effect; `true` means exactly one record
    /// left the store.
    pub fn delete(store: &mut UserStore, id: i32) -> (r: bool)
        requires
            old(store).wf(),
        ensures
            final(store).wf(),
            final(store).next_id_spec() == old(store).next_id_spec(),
            final(store).now_spec() == old(store).now_spec(),
            lookup(old(store)@, id as int) is None ==> r == false && final(store)@ == old(store)@,
            lookup(old(store)@, id as int) is Some ==> r == true && exists|i: int|
                0 <= i < old(store)@.len() && (#[trigger] old(store)@[i]).id == id as int
                    && final(store)@ == old(store)@.remove(i),
    {
        let n = store.count();
        let mut i: usize = 0;
        while i < n
            invariant
                *store == *old(store),
                store.wf(),
                n == store@.len(),
                i <= n,
                forall|j: int| 0 <= j < i ==> (#[trigger] store@[j]).id != id as int,
            decreases n - i,
        {
            if store.record_at(i).id == id {
                proof {
                    lemma_lookup_found(store@, id as int, i as int);
                }
                store.remove_at(i);
                proof {
                    assert(0 <= i < old(store)@.len() && old(store)@[i as int].id == id as int
                        && store@ == old(store)@.remove(i as int));
                }
                return true;
            }
            i += 1;
        }
        proof {
            lemma_lookup_none(store@, id as int);
        }
        false
    }
}

} // verus!
