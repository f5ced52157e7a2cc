use opengm::database::{connect_with, manual_connect};

#[test]
fn test_manual_connect() {
    match manual_connect(":memory:".to_string()) {
        Ok(_) => assert!(true),
        Err(err) => assert!(false, "{}", err),
    };
}

#[test]
fn test_manual_connect_bad_path() {
    let result = manual_connect("/nonexistent_directory_for_opengm/db.sqlite".to_string());
    assert!(result.is_err());
}

#[test]
fn test_connect_with_found_url() {
    let result = connect_with(Ok(":memory:".to_string()));
    assert!(result.is_ok());
}

#[test]
fn test_connect_with_failed_lookup() {
    let result = connect_with(Err("environment variable not found".to_string()));
    match result {
        Ok(_) => assert!(false, "a failed lookup must not yield a connection"),
        Err(message) => assert_eq!(message, "environment variable not found"),
    };
}
