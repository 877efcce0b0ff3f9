use user_service::api::{create_user, delete_user, get_user, list_users};
use user_service::clock::Timestamp;
use user_service::dto::CreateUserRequest;
use user_service::repository::UserRepository;
use user_service::store::UserStore;

fn clock() -> Timestamp {
    Timestamp { year: 2024, month: 1, day: 2, hour: 3, minute: 4, second: 5 }
}

fn request(email: &str, password: &str, full_name: &str, role: &str) -> CreateUserRequest {
    CreateUserRequest {
        email: email.to_string(),
        password: password.to_string(),
        full_name: full_name.to_string(),
        role: role.to_string(),
    }
}

#[test]
fn creation_assigns_fresh_active_ids() {
    let mut store = UserStore::new(clock());
    let first = create_user(&mut store, request("one@example.com", "password123", "One User", "student"))
        .expect("first creation should succeed");
    let second = create_user(&mut store, request("two@example.com", "password123", "Two User", "teacher"))
        .expect("second creation should succeed");
    assert_eq!(first.0, 201);
    assert_eq!(second.0, 201);
    assert_eq!(first.1.id, 1);
    assert_eq!(second.1.id, 2);
    assert!(first.1.is_active);
    assert!(second.1.is_active);
    assert_eq!(first.1.created_at, "2024-01-02 03:04:05");
}

#[test]
fn round_trip_create_then_get() {
    let mut store = UserStore::new(clock());
    let created = create_user(
        &mut store,
        request("a@b.com", "longenough1", "Ann Lee", "student"),
    )
    .expect("creation should succeed");
    let (status, user) = created;
    assert_eq!(status, 201);
    let fetched = get_user(&store, user.id).expect("created user should be found");
    assert_eq!(fetched.id, user.id);
    assert_eq!(fetched.email, "a@b.com");
    assert_eq!(fetched.full_name, "Ann Lee");
    assert_eq!(fetched.role, "student");
    assert!(fetched.is_active);
    assert_eq!(fetched.created_at, user.created_at);
}

#[test]
fn get_unknown_id_is_not_found() {
    let store = UserStore::new(clock());
    assert_eq!(get_user(&store, 1).unwrap_err(), 404);
}

#[test]
fn delete_nonexistent_idempotent() {
    let mut store = UserStore::new(clock());
    assert_eq!(delete_user(&mut store, 99999), 404);
    assert_eq!(delete_user(&mut store, 99999), 404);
    assert!(!UserRepository::delete(&mut store, 99999));
}

#[test]
fn delete_then_gone() {
    let mut store = UserStore::new(clock());
    let (_, user) = create_user(&mut store, request("x@y.com", "password123", "Xy Zee", "admin"))
        .expect("creation should succeed");
    assert_eq!(delete_user(&mut store, user.id), 204);
    assert_eq!(get_user(&store, user.id).unwrap_err(), 404);
    assert_eq!(delete_user(&mut store, user.id), 404);
    assert_eq!(list_users(&store).total, 0);
}

#[test]
fn listing_counts_match_creations() {
    let mut store = UserStore::new(clock());
    let empty = list_users(&store);
    assert_eq!(empty.total, 0);
    assert!(empty.users.is_empty());

    for (i, email) in ["a@example.com", "b@example.com", "c@example.com"].iter().enumerate() {
        let (status, _) = create_user(
            &mut store,
            request(email, "password123", "Some Name", "student"),
        )
        .expect("creation should succeed");
        assert_eq!(status, 201);
        assert_eq!(list_users(&store).total, i + 1);
    }

    let all = list_users(&store);
    assert_eq!(all.total, 3);
    assert_eq!(all.users.len(), 3);
    assert_eq!(all.users[0].email, "a@example.com");
    assert_eq!(all.users[1].email, "b@example.com");
    assert_eq!(all.users[2].email, "c@example.com");
}

#[test]
fn ids_are_not_reused_after_delete() {
    let mut store = UserStore::new(clock());
    let (_, first) = create_user(&mut store, request("a@example.com", "password123", "Aa Bb", "student"))
        .expect("creation should succeed");
    assert_eq!(delete_user(&mut store, first.id), 204);
    let (_, second) = create_user(&mut store, request("b@example.com", "password123", "Cc Dd", "student"))
        .expect("creation should succeed");
    assert_ne!(second.id, first.id);
    assert_eq!(second.id, 2);
}

#[test]
fn listing_uses_store_clock_at_creation() {
    let mut store = UserStore::new(clock());
    let (_, first) = create_user(&mut store, request("a@example.com", "password123", "Aa Bb", "student"))
        .expect("creation should succeed");
    store.set_now(Timestamp { year: 2025, month: 12, day: 31, hour: 23, minute: 59, second: 58 });
    let (_, second) = create_user(&mut store, request("b@example.com", "password123", "Cc Dd", "student"))
        .expect("creation should succeed");
    assert_eq!(first.created_at, "2024-01-02 03:04:05");
    assert_eq!(second.created_at, "2025-12-31 23:59:58");
    let all = list_users(&store);
    assert_eq!(all.users[0].created_at, "2024-01-02 03:04:05");
    assert_eq!(all.users[1].created_at, "2025-12-31 23:59:58");
}
