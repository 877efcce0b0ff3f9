use user_service::api::{create_user, list_users};
use user_service::clock::Timestamp;
use user_service::dto::CreateUserRequest;
use user_service::store::UserStore;
use user_service::validate::validate_create;

fn empty_store() -> UserStore {
    UserStore::new(Timestamp { year: 2024, month: 6, day: 15, hour: 12, minute: 0, second: 0 })
}

fn request(email: &str, password: &str, full_name: &str, role: &str) -> CreateUserRequest {
    CreateUserRequest {
        email: email.to_string(),
        password: password.to_string(),
        full_name: full_name.to_string(),
        role: role.to_string(),
    }
}

#[test]
fn invalid_email_rejected_before_persistence() {
    let mut store = empty_store();
    let err = create_user(&mut store, request("not-an-email", "password123", "Ann Lee", "student"))
        .expect_err("invalid email must be rejected");
    assert_eq!(err.0, 400);
    assert_eq!(err.1, "Validation error: Invalid email address");
    assert_eq!(list_users(&store).total, 0);
}

#[test]
fn short_password_rejected_no_record() {
    let mut store = empty_store();
    let err = create_user(&mut store, request("a@b.com", "short", "Ann Lee", "student"))
        .expect_err("short password must be rejected");
    assert_eq!(err.0, 400);
    assert_eq!(err.1, "Validation error: Password must be at least 8 characters");
    assert_eq!(list_users(&store).total, 0);
}

#[test]
fn password_length_boundary() {
    let mut store = empty_store();
    let err = create_user(&mut store, request("a@b.com", "seven77", "Ann Lee", "student"))
        .expect_err("seven characters are too few");
    assert_eq!(err.0, 400);
    let ok = create_user(&mut store, request("a@b.com", "exactly8", "Ann Lee", "student"))
        .expect("eight characters suffice");
    assert_eq!(ok.0, 201);
}

#[test]
fn full_name_length_boundary() {
    let mut store = empty_store();
    let err = create_user(&mut store, request("a@b.com", "password123", "A", "student"))
        .expect_err("one-character name must be rejected");
    assert_eq!(err.0, 400);
    assert_eq!(err.1, "Validation error: Full name must be at least 2 characters");
    let ok = create_user(&mut store, request("a@b.com", "password123", "Ab", "student"))
        .expect("two-character name suffices");
    assert_eq!(ok.0, 201);
}

#[test]
fn role_must_be_nonempty() {
    let mut store = empty_store();
    let err = create_user(&mut store, request("a@b.com", "password123", "Ann Lee", ""))
        .expect_err("empty role must be rejected");
    assert_eq!(err.0, 400);
    assert_eq!(err.1, "Validation error: Role is required");
    let ok = create_user(&mut store, request("a@b.com", "password123", "Ann Lee", "x"))
        .expect("any non-empty role suffices");
    assert_eq!(ok.0, 201);
}

#[test]
fn validation_reports_first_violation_in_field_order() {
    let bad_email_and_password = request("not-an-email", "x", "A", "");
    let msg = validate_create(&bad_email_and_password).expect("must be rejected");
    assert_eq!(msg, "Invalid email address");

    let bad_password_onward = request("a@b.com", "x", "A", "");
    let msg = validate_create(&bad_password_onward).expect("must be rejected");
    assert_eq!(msg, "Password must be at least 8 characters");

    let valid = request("a@b.com", "password123", "Ann Lee", "student");
    assert!(validate_create(&valid).is_none());
}

#[test]
fn empty_email_is_invalid() {
    let msg = validate_create(&request("", "password123", "Ann Lee", "student"))
        .expect("empty email must be rejected");
    assert_eq!(msg, "Invalid email address");
}

#[test]
fn plausible_addresses_pass_email_check() {
    assert!(validate_create(&request("user.name+tag@sub.example.org", "password123", "Ann Lee", "student")).is_none());
    assert!(validate_create(&request("weird@[127.0.0.1]", "password123", "Ann Lee", "student")).is_none());
    assert!(validate_create(&request("no-at-sign.example.com", "password123", "Ann Lee", "student")).is_some());
}
