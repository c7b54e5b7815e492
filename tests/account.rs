use nest_backend::account::{
    create_outcome, fetch_outcome, new_user_row, new_user_row_with_salt, EditUser, FailureKind, NewUser, StoreError,
    User, UserRow, STATUS_CREATED, STATUS_OK,
};
use nest_backend::credential::{hash_password_with_salt, verify_password};

fn alice() -> NewUser {
    NewUser {
        username: "alice".to_string(),
        email: "a@example.com".to_string(),
        password: "correct horse".to_string(),
    }
}

#[test]
fn new_user_row_keeps_fields_and_hashes_password() {
    let row = new_user_row(&alice()).unwrap();
    assert_eq!(row.username, "alice");
    assert_eq!(row.email, "a@example.com");
    assert_ne!(row.password_hash, "correct horse");
    assert_eq!(verify_password(&row.password_hash, "correct horse"), Ok(true));
}

#[test]
fn create_success_is_201_without_body() {
    assert_eq!(create_outcome(Ok(())).unwrap(), 201);
    assert_eq!(STATUS_CREATED, 201);
}

#[test]
fn create_with_store_unreachable_is_500() {
    let payload = alice();
    let row = new_user_row(&payload).unwrap();
    let f = create_outcome(Err(StoreError::Other)).unwrap_err();
    assert_eq!(f.kind, FailureKind::Internal);
    assert_eq!(f.status(), 500);
    assert_eq!(f.message, "Failed to create user");
    assert!(!f.message.contains(&payload.password));
    assert!(!f.message.contains(&row.password_hash));
}

#[test]
fn create_conflict_collapses_to_500() {
    let f = create_outcome(Err(StoreError::RowNotFound)).unwrap_err();
    assert_eq!(f.status(), 500);
    assert_eq!(f.message, "Failed to create user");
}

#[test]
fn fetch_unassigned_id_is_404() {
    let f = fetch_outcome(Err(StoreError::RowNotFound)).unwrap_err();
    assert_eq!(f.kind, FailureKind::NotFound);
    assert_eq!(f.status(), 404);
    assert_eq!(f.message, "User not found");
}

#[test]
fn fetch_store_failure_is_500() {
    let f = fetch_outcome(Err(StoreError::Other)).unwrap_err();
    assert_eq!(f.kind, FailureKind::Internal);
    assert_eq!(f.status(), 500);
    assert_eq!(f.message, "Internal server error");
}

#[test]
fn create_then_fetch_alice() {
    // A store of rows keyed by their position stands in for the relation.
    let mut store: Vec<UserRow> = Vec::new();
    let row = new_user_row(&alice()).unwrap();
    store.push(row);
    assert_eq!(create_outcome(Ok(())).unwrap(), STATUS_CREATED);

    let id = 0usize;
    let looked_up = match store.get(id) {
        Some(r) => Ok(User { username: r.username.clone(), email: r.email.clone() }),
        None => Err(StoreError::RowNotFound),
    };
    let user = fetch_outcome(looked_up).unwrap();
    assert_eq!(STATUS_OK, 200);
    assert_eq!(user.username, "alice");
    assert_eq!(user.email, "a@example.com");

    let missing = match store.get(7) {
        Some(r) => Ok(User { username: r.username.clone(), email: r.email.clone() }),
        None => Err(StoreError::RowNotFound),
    };
    assert_eq!(fetch_outcome(missing).unwrap_err().status(), 404);
}

#[test]
fn edit_user_fields_are_optional() {
    let e = EditUser { email: Some("b@example.com".to_string()), display_name: None, password: None, avatar_url: None };
    assert_eq!(e.email.as_deref(), Some("b@example.com"));
    assert!(e.display_name.is_none() && e.password.is_none() && e.avatar_url.is_none());
}

#[test]
fn new_user_row_with_salt_holds_argon2_string() {
    let salt = "c29tZXNhbHRzb21lc2FsdA";
    let row = new_user_row_with_salt(&alice(), salt).unwrap();
    assert_eq!(row.username, "alice");
    assert_eq!(row.email, "a@example.com");
    assert_eq!(row.password_hash, hash_password_with_salt("correct horse", salt).unwrap());
}

#[test]
fn new_user_row_with_bad_salt_is_hashing_failure() {
    let f = new_user_row_with_salt(&alice(), "!!").unwrap_err();
    assert_eq!(f.kind, FailureKind::Internal);
    assert_eq!(f.status(), 500);
    assert_eq!(f.message, "Password hashing failed");
}
