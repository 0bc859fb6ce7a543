use gapo_gate::app::Application;
use gapo_gate::config::Config;
use gapo_gate::errors::ApiError;
use gapo_gate::request_info_utils::{get_request_info, uri_of};

fn frames(names: &[&str]) -> Vec<String> {
    names.iter().map(|n| n.to_string()).collect()
}

#[test]
fn api_error_new_leaves_info_empty() {
    let err = ApiError::new(500, "boom".to_string(), 1000, Some("cause".to_string()), None);
    assert_eq!(err.http_code, 500);
    assert_eq!(err.message, "boom");
    assert_eq!(err.code, 1000);
    assert_eq!(err.cause, Some("cause".to_string()));
    assert!(err.backtrace.is_none());
    assert!(err.info.is_none());
}

#[test]
fn api_error_one_carries_info() {
    let headers = vec![("x-gapo-role".to_string(), "user".to_string())];
    let info = get_request_info(headers.clone(), "/a?b=1".to_string());
    let err = ApiError::one(403, "no".to_string(), 901, None, None, info);
    assert_eq!(err.http_code, 403);
    let info = err.info.expect("info is carried through");
    assert_eq!(info.uri, Some("/a?b=1".to_string()));
    assert_eq!(info.headers, Some(headers));
}

#[test]
fn api_error_default_is_success() {
    let err = ApiError::default();
    assert_eq!(err.http_code, 200);
    assert_eq!(err.message, "Successfully!");
    assert_eq!(err.code, 0);
    assert!(err.cause.is_none());
    assert!(err.backtrace.is_none());
    assert!(err.info.is_none());
}

#[test]
fn response_status_falls_back_to_ok() {
    assert_eq!(ApiError::new(403, String::new(), 901, None, None).response_status(), 403);
    assert_eq!(ApiError::new(200, String::new(), 0, None, None).response_status(), 200);
    assert_eq!(ApiError::new(999, String::new(), 0, None, None).response_status(), 999);
    assert_eq!(ApiError::new(99, String::new(), 0, None, None).response_status(), 200);
    assert_eq!(ApiError::new(1000, String::new(), 0, None, None).response_status(), 200);
    assert_eq!(ApiError::new(0, String::new(), 0, None, None).response_status(), 200);
}

#[test]
fn telemetry_event_trims_to_last_five_frames() {
    let bt = frames(&["f1", "f2", "f3", "f4", "f5", "f6", "f7"]);
    let err = ApiError::new(403, "denied".to_string(), 901, None, Some(bt));
    let event = err.telemetry_event().expect("statuses above 400 report");
    assert_eq!(event.message, "denied");
    assert_eq!(event.frames, frames(&["f3", "f4", "f5", "f6", "f7"]));
}

#[test]
fn telemetry_event_keeps_short_backtraces_whole() {
    let err = ApiError::new(500, "boom".to_string(), 1000, None, Some(frames(&["f1", "f2"])));
    let event = err.telemetry_event().unwrap();
    assert_eq!(event.frames, frames(&["f1", "f2"]));

    let bare = ApiError::new(500, "boom".to_string(), 1000, None, None);
    assert_eq!(bare.telemetry_event().unwrap().frames, Vec::<String>::new());
}

#[test]
fn telemetry_event_absent_at_or_below_400() {
    let err = ApiError::new(400, "boom".to_string(), 1000, None, Some(frames(&["f1"])));
    assert!(err.telemetry_event().is_none());
    let ok = ApiError::new(200, "fine".to_string(), 0, None, None);
    assert!(ok.telemetry_event().is_none());
}

#[test]
fn request_info_carries_headers_and_uri() {
    let headers = vec![
        ("x-gapo-role".to_string(), "service".to_string()),
        ("x-gapo-api-key".to_string(), "K1".to_string()),
        ("accept".to_string(), "application/json".to_string()),
    ];
    let info =
        get_request_info(headers.clone(), "/posts?page=2".to_string()).expect("always succeeds");
    assert_eq!(info.uri, Some("/posts?page=2".to_string()));
    assert_eq!(info.headers, Some(headers));
    assert!(info.tags.expect("tags map present").is_empty());
    assert!(info.body.expect("body map present").is_empty());
}

#[test]
fn request_info_without_headers_gets_empty_list() {
    let info = get_request_info(Vec::new(), "/".to_string()).expect("always succeeds");
    assert_eq!(info.headers, Some(Vec::new()));
    assert_eq!(info.uri, Some("/".to_string()));
}

#[test]
fn response_body_exposes_only_the_fixed_fields() {
    let headers = vec![("x-gapo-api-key".to_string(), "secret".to_string())];
    let err = ApiError::one(
        403,
        "no".to_string(),
        901,
        Some("internal cause".to_string()),
        Some(vec!["frame".to_string()]),
        get_request_info(headers, "/x?y=1".to_string()),
    );
    let (message, http_code, code) = err.response_body();
    assert_eq!(message, "no");
    assert_eq!(http_code, 403);
    assert_eq!(code, 901);
}

#[test]
fn uri_is_path_and_query() {
    assert_eq!(uri_of("/posts", "page=2"), "/posts?page=2");
    assert_eq!(uri_of("/", ""), "/?");
}

fn config_for(env: &str) -> Config {
    Config {
        env: env.to_string(),
        rust_log: "info".to_string(),
        server: "127.0.0.1:5000".to_string(),
        actor_for_every_worker: 2,
        worker: 1,
        rate_limit_detect_duplicate_time: 2,
        sentry_url: String::new(),
        rabbitmq_uri: String::new(),
        user_core_api_url: String::new(),
        user_core_api_key: String::new(),
        iam_api: String::new(),
        iam_key: String::new(),
        redis_uri: String::new(),
    }
}

#[test]
fn config_env_compares_names() {
    let config = config_for("dev");
    assert!(config.env("dev".to_string()));
    assert!(!config.env("prod".to_string()));
}

#[test]
fn application_env_is_asks_the_config() {
    let config = config_for("test");
    assert!(Application::env_is(&config, "test".to_string()));
    assert!(!Application::env_is(&config, "dev".to_string()));
}
