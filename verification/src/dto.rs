//! Transport-level data shapes: the inbound creation payload and the outward
//! representations returned to clients. The outward representation carries no
//! password material of any kind.

use vstd::prelude::*;

verus! {

/// Mathematical model of an outward user representation.
pub ghost struct UserResponseView {
    pub id: int,
    pub email: Seq<char>,
    pub full_name: Seq<char>,
    pub role: Seq<char>,
    pub is_active: bool,
    pub created_at: Seq<char>,
}

/// What a client gets back for one user: every persisted field except the
/// password hash, with the creation instant rendered as `YYYY-MM-DD HH:MM:SS`.
#[derive(Debug, Clone)]
pub struct UserResponse {
    pub id: i32,
    pub email: String,
    pub full_name: String,
    pub role: String,
    pub is_active: bool,
    pub created_at: String,
}

impl View for UserResponse {
    type V = UserResponseView;

    open spec fn view(&self) -> UserResponseView {
        UserResponseView {
            id: self.id as int,
            email: self.email@,
            full_name: self.full_name@,
            role: self.role@,
            is_active: self.is_active,
            created_at: self.created_at@,
        }
    }
}

/// Mathematical model of an inbound creation payload.
pub ghost struct CreateUserRequestView {
    pub email: Seq<char>,
    pub password: Seq<char>,
    pub full_name: Seq<char>,
    pub role: Seq<char>,
}

/// What a client sends to create a user. The plaintext password is consumed
/// once by the repository's create operation and discarded after hashing.
#[derive(Debug)]
pub struct CreateUserRequest {
    pub email: String,
    pub password: String,
    pub full_name: String,
    pub role: String,
}

impl View for CreateUserRequest {
    type V = CreateUserRequestView;

    open spec fn view(&self) -> CreateUserRequestView {
        CreateUserRequestView {
            email: self.email@,
            password: self.password@,
            full_name: self.full_name@,
            role: self.role@,
        }
    }
}

/// Mathematical model of a listing: the represented users in store order and
/// the reported count.
pub ghost struct UsersListResponseView {
    pub users: Seq<UserResponseView>,
    pub total: int,
}

/// The body of a full listing: every user's outward representation plus a
/// count equal to the number of entries.
#[derive(Debug)]
pub struct UsersListResponse {
    pub users: Vec<UserResponse>,
    pub total: usize,
}

impl View for UsersListResponse {
    type V = UsersListResponseView;

    open spec fn view(&self) -> UsersListResponseView {
        UsersListResponseView {
            users: self.users@.map_values(|u: UserResponse| u@),
            total: self.total as int,
        }
    }
}

/// A failure of the persistence layer, opaque to callers: either the password
/// hash computation failed, or the store could not accept the insert.
#[derive(Debug, Clone, Copy, PartialEq, Eq, Structural)]
pub enum StorageError {
    HashFailed,
    InsertFailed,
}

impl StorageError {
    /// A generic description, deliberately free of sensitive detail.
    pub fn message(&self) -> (r: &'static str)
        ensures
            r@ == self.message_spec(),
    {
        match self {
            StorageError::HashFailed => "Failed to hash password",
            StorageError::InsertFailed => "insert rejected by the store",
        }
    }

    /// The description `message` returns for each variant.
    pub open spec fn message_spec(&self) -> Seq<char> {
        match self {
            StorageError::HashFailed => "Failed to hash password"@,
            StorageError::InsertFailed => "insert rejected by the store"@,
        }
    }
}

} // verus!
