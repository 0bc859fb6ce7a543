use gapo_gate::roles::{role_is_service, XGapoRole};

#[test]
fn service_parses_case_insensitively() {
    assert!(matches!(XGapoRole::from_str("service"), Ok(XGapoRole::Service)));
    assert!(matches!(XGapoRole::from_str("SERVICE"), Ok(XGapoRole::Service)));
    assert!(matches!(XGapoRole::from_str("SeRvIcE"), Ok(XGapoRole::Service)));
}

#[test]
fn user_parses_case_insensitively() {
    assert!(matches!(XGapoRole::from_str("user"), Ok(XGapoRole::User)));
    assert!(matches!(XGapoRole::from_str("USER"), Ok(XGapoRole::User)));
    assert!(matches!(XGapoRole::from_str("User"), Ok(XGapoRole::User)));
}

#[test]
fn unknown_role_is_refused() {
    let err = XGapoRole::from_str("admin").unwrap_err();
    assert_eq!(err.http_code, 403);
    assert_eq!(err.message, "Bạn không có quyền thực hiện chức năng này.");
    assert_eq!(err.code, 1001);
    assert_eq!(err.cause, Some("Bạn không có quyền thực hiện chức năng này.".to_string()));
    assert!(err.backtrace.is_none());
    assert!(err.info.is_none());

    assert!(XGapoRole::from_str("").is_err());
    assert!(XGapoRole::from_str("services").is_err());
    assert!(XGapoRole::from_str("servic").is_err());
}

#[test]
fn role_header_matching_is_ascii_folded() {
    assert!(role_is_service("service"));
    assert!(role_is_service("Service"));
    assert!(role_is_service("SERVICE"));
    assert!(!role_is_service("user"));
    assert!(!role_is_service(""));
    assert!(!role_is_service("service "));
    assert!(!role_is_service("şervice"));
}
