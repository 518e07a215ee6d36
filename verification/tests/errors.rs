//! Tests for the error taxonomy: each category carries its message.

use tr300::error::AppError;

#[test]
fn each_error_category_carries_its_message() {
    assert_eq!(
        AppError::system_info("m1".to_string()).message(),
        "m1"
    );
    assert_eq!(AppError::platform("m2".to_string()).message(), "m2");
    assert_eq!(AppError::config("m3".to_string()).message(), "m3");
    assert_eq!(AppError::display("m4".to_string()).message(), "m4");
    let io = AppError::Io { message: "m5".to_string() };
    assert_eq!(io.message(), "m5");
}

#[test]
fn error_categories_are_distinguishable() {
    assert!(matches!(
        AppError::system_info("x".to_string()),
        AppError::SystemInfo { .. }
    ));
    assert!(matches!(
        AppError::platform("x".to_string()),
        AppError::Platform { .. }
    ));
    assert!(matches!(
        AppError::config("x".to_string()),
        AppError::Config { .. }
    ));
}
