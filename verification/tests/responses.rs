use rest_api::error::StoreError;
use rest_api::handlers::{create_user, delete_user, get_user, get_users, update_user};
use rest_api::models::User;
use rest_api::response::Status;

fn user(id: i32, name: &str, username: &str) -> User {
    User { id, name: name.to_string(), username: username.to_string() }
}

fn missing() -> StoreError {
    StoreError::NotFound("NotFound".to_string())
}

fn broken() -> StoreError {
    StoreError::Other("connection refused".to_string())
}

#[test]
fn status_codes() {
    assert_eq!(Status::Success.code(), 200);
    assert_eq!(Status::NotFound.code(), 404);
    assert_eq!(Status::InternalServerError.code(), 500);
}

#[test]
fn store_error_knows_its_kind_and_description() {
    assert!(missing().is_not_found());
    assert!(!broken().is_not_found());
    assert_eq!(missing().into_description(), "NotFound");
    assert_eq!(broken().into_description(), "connection refused");
}

#[test]
fn listing_answers_with_the_rows() {
    let response = get_users(Ok(vec![user(1, "Ada", "ada"), user(2, "Bob", "bob")]));
    assert_eq!(response.status, Status::Success);
    assert_eq!(
        response.body,
        "[{\"id\":1,\"name\":\"Ada\",\"username\":\"ada\"},{\"id\":2,\"name\":\"Bob\",\"username\":\"bob\"}]"
    );
}

#[test]
fn listing_an_empty_table_answers_with_an_empty_array() {
    let response = get_users(Ok(Vec::new()));
    assert_eq!(response.status, Status::Success);
    assert_eq!(response.body, "[]");
}

#[test]
fn listing_contains_a_created_row() {
    let response = get_users(Ok(vec![user(1, "old", "old"), user(2, "Ada", "ada")]));
    let value: serde_json::Value = serde_json::from_str(&response.body).unwrap();
    let found = value
        .as_array()
        .unwrap()
        .iter()
        .any(|row| row["name"] == "Ada" && row["username"] == "ada" && row["id"] == 2);
    assert!(found);
}

#[test]
fn listing_failure_is_an_internal_error() {
    let response = get_users(Err(broken()));
    assert_eq!(response.status, Status::InternalServerError);
    assert_eq!(response.status.code(), 500);
    assert_eq!(
        response.body,
        "{\"error\":\"connection refused\",\"error_message\":\"Error listing users\"}"
    );
}

#[test]
fn listing_failure_of_the_not_found_kind_is_still_an_internal_error() {
    let response = get_users(Err(missing()));
    assert_eq!(response.status, Status::InternalServerError);
    assert_eq!(response.body, "{\"error\":\"NotFound\",\"error_message\":\"Error listing users\"}");
}

#[test]
fn lookup_answers_with_the_row() {
    let response = get_user(Ok(user(42, "Ada Lovelace", "ada")));
    assert_eq!(response.status, Status::Success);
    assert_eq!(response.status.code(), 200);
    assert_eq!(response.body, "{\"id\":42,\"name\":\"Ada Lovelace\",\"username\":\"ada\"}");
}

#[test]
fn lookup_after_update_shows_the_new_fields_under_the_same_id() {
    let before = get_user(Ok(user(42, "Ada", "ada")));
    let after = get_user(Ok(user(42, "Ada L.", "lovelace")));
    let old: serde_json::Value = serde_json::from_str(&before.body).unwrap();
    let new: serde_json::Value = serde_json::from_str(&after.body).unwrap();
    assert_eq!(old["id"], new["id"]);
    assert_eq!(new["name"], "Ada L.");
    assert_eq!(new["username"], "lovelace");
}

#[test]
fn lookup_of_a_missing_row_is_not_found() {
    let response = get_user(Err(missing()));
    assert_eq!(response.status, Status::NotFound);
    assert_eq!(response.status.code(), 404);
    assert_eq!(response.body, "{\"error\":\"NotFound\",\"error_message\":\"Error listing user\"}");
    let value: serde_json::Value = serde_json::from_str(&response.body).unwrap();
    assert_eq!(value.as_object().unwrap().len(), 2);
    assert!(value["error"].is_string());
    assert!(value["error_message"].is_string());
}

#[test]
fn lookup_failure_of_another_kind_is_an_internal_error() {
    let response = get_user(Err(broken()));
    assert_eq!(response.status, Status::InternalServerError);
    assert_eq!(
        response.body,
        "{\"error\":\"connection refused\",\"error_message\":\"Error listing user\"}"
    );
}

#[test]
fn create_answers_with_an_empty_body() {
    let response = create_user(Ok(1));
    assert_eq!(response.status, Status::Success);
    assert_eq!(response.body, "");
}

#[test]
fn create_failure_is_an_internal_error() {
    let response = create_user(Err(StoreError::Other("null value in column \"name\"".to_string())));
    assert_eq!(response.status, Status::InternalServerError);
    assert_eq!(
        response.body,
        "{\"error\":\"null value in column \\\"name\\\"\",\"error_message\":\"Error creating user\"}"
    );
}

#[test]
fn update_answers_with_an_empty_body() {
    let response = update_user(Ok(1), "NotFound");
    assert_eq!(response.status, Status::Success);
    assert_eq!(response.status.code(), 200);
    assert_eq!(response.body, "");
}

#[test]
fn update_that_changed_rows_is_a_success_for_any_count() {
    assert_eq!(update_user(Ok(2), "NotFound").status, Status::Success);
    assert_eq!(update_user(Ok(usize::MAX), "NotFound").status, Status::Success);
    assert_eq!(update_user(Ok(usize::MAX), "NotFound").body, "");
}

#[test]
fn update_that_changed_no_row_is_an_internal_error() {
    let response = update_user(Ok(0), "NotFound");
    assert_eq!(response.status, Status::InternalServerError);
    assert_eq!(response.status.code(), 500);
    assert_eq!(response.body, "{\"error\":\"NotFound\",\"error_message\":\"Error updating user\"}");
}

#[test]
fn update_that_changed_no_row_carries_the_description_given() {
    let response = update_user(Ok(0), "Record \"7\" not found");
    assert_eq!(response.status, Status::InternalServerError);
    let value: serde_json::Value = serde_json::from_str(&response.body).unwrap();
    assert_eq!(value["error"], "Record \"7\" not found");
    assert_eq!(value["error_message"], "Error updating user");
    assert_eq!(value.as_object().unwrap().len(), 2);
}

#[test]
fn update_of_a_missing_row_is_an_internal_error() {
    let response = update_user(Err(missing()), "NotFound");
    assert_eq!(response.status, Status::InternalServerError);
    assert_eq!(response.status.code(), 500);
    assert_eq!(response.body, "{\"error\":\"NotFound\",\"error_message\":\"Error updating user\"}");
}

#[test]
fn update_failure_is_an_internal_error() {
    let response = update_user(Err(broken()), "NotFound");
    assert_eq!(response.status, Status::InternalServerError);
    assert_eq!(
        response.body,
        "{\"error\":\"connection refused\",\"error_message\":\"Error updating user\"}"
    );
}

#[test]
fn delete_answers_with_an_empty_body() {
    let response = delete_user(Ok(1), "NotFound");
    assert_eq!(response.status, Status::Success);
    assert_eq!(response.status.code(), 200);
    assert_eq!(response.body, "");
}

#[test]
fn delete_that_removed_no_row_is_an_internal_error() {
    let response = delete_user(Ok(0), "NotFound");
    assert_eq!(response.status, Status::InternalServerError);
    assert_eq!(response.status.code(), 500);
    assert_eq!(response.body, "{\"error\":\"NotFound\",\"error_message\":\"Error deleting user\"}");
}

#[test]
fn second_delete_of_the_same_row_is_an_internal_error() {
    let first = delete_user(Ok(1), "NotFound");
    assert_eq!(first.status, Status::Success);
    let second = delete_user(Ok(0), "NotFound");
    assert_eq!(second.status, Status::InternalServerError);
    let value: serde_json::Value = serde_json::from_str(&second.body).unwrap();
    assert_eq!(value["error_message"], "Error deleting user");
}

#[test]
fn delete_of_a_missing_row_is_an_internal_error() {
    let response = delete_user(Err(missing()), "NotFound");
    assert_eq!(response.status, Status::InternalServerError);
    assert_eq!(response.status.code(), 500);
    assert_eq!(response.body, "{\"error\":\"NotFound\",\"error_message\":\"Error deleting user\"}");
}

#[test]
fn delete_failure_is_an_internal_error() {
    let response = delete_user(Err(broken()), "NotFound");
    assert_eq!(response.status, Status::InternalServerError);
    assert_eq!(
        response.body,
        "{\"error\":\"connection refused\",\"error_message\":\"Error deleting user\"}"
    );
}

#[test]
fn writes_by_id_never_answer_not_found() {
    assert_eq!(update_user(Ok(0), "NotFound").status.code(), 500);
    assert_eq!(delete_user(Ok(0), "NotFound").status.code(), 500);
    assert_eq!(update_user(Err(missing()), "NotFound").status.code(), 500);
    assert_eq!(delete_user(Err(missing()), "NotFound").status.code(), 500);
    assert_eq!(get_user(Err(missing())).status.code(), 404);
}

#[test]
fn lookup_after_delete_is_not_found() {
    let deleted = delete_user(Ok(1), "NotFound");
    assert_eq!(deleted.status, Status::Success);
    let response = get_user(Err(missing()));
    assert_eq!(response.status.code(), 404);
}
