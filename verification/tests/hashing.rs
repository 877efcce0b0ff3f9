use user_service::api::create_user;
use user_service::clock::Timestamp;
use user_service::dto::CreateUserRequest;
use user_service::store::UserStore;

fn empty_store() -> UserStore {
    UserStore::new(Timestamp { year: 2024, month: 3, day: 9, hour: 8, minute: 7, second: 6 })
}

fn request(email: &str, password: &str) -> CreateUserRequest {
    CreateUserRequest {
        email: email.to_string(),
        password: password.to_string(),
        full_name: "Ann Lee".to_string(),
        role: "student".to_string(),
    }
}

#[test]
fn same_password_gets_distinct_hashes() {
    let mut store = empty_store();
    create_user(&mut store, request("one@example.com", "password123")).expect("creation should succeed");
    create_user(&mut store, request("two@example.com", "password123")).expect("creation should succeed");
    assert_eq!(store.count(), 2);
    let first = store.record_at(0).password_hash.clone();
    let second = store.record_at(1).password_hash.clone();
    assert!(!first.is_empty());
    assert!(!second.is_empty());
    assert_ne!(first, second, "per-record random salts must yield distinct hashes");
}

#[test]
fn hash_is_memory_hard_derivation_not_plaintext() {
    let mut store = empty_store();
    create_user(&mut store, request("one@example.com", "password123")).expect("creation should succeed");
    let hash = store.record_at(0).password_hash.clone();
    assert_ne!(hash, "password123");
    assert!(!hash.contains("password123"), "the plaintext must not survive hashing");
    assert!(hash.starts_with("$argon2"), "the hash must be an Argon2 PHC string");
}

#[test]
fn representation_carries_no_password_material() {
    let mut store = empty_store();
    let (_, user) = create_user(&mut store, request("one@example.com", "password123"))
        .expect("creation should succeed");
    let hash = store.record_at(0).password_hash.clone();
    for field in [&user.email, &user.full_name, &user.role, &user.created_at] {
        assert_ne!(field, &hash);
        assert!(!field.contains("password123"));
        assert!(!field.contains(hash.as_str()));
    }
}
