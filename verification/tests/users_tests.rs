use gapo_gate::entities::{UserCoreResult, UserInfo, UsersCoreResult};
use gapo_gate::gapo_api_service::{
    partition_cached, user_from_response, users_from_response, CachedUser,
};

fn user(id: i64, name: &str) -> UserInfo {
    UserInfo {
        id,
        full_name: name.to_string(),
        display_name: name.to_string(),
        cover: String::new(),
        avatar: String::new(),
        link_profile: String::new(),
        status: 1,
        status_verify: 1,
        avatar_thumb_pattern: String::new(),
        cover_thumb_pattern: String::new(),
    }
}

#[test]
fn user_answer_decoded_only_on_ok_status() {
    let answer = user_from_response(Some(200), Some(UserCoreResult { data: user(7, "an") }))
        .expect("a 200 answer with a body yields the profile");
    assert_eq!(answer.id, 7);
    assert_eq!(answer.full_name, "an");

    let err = user_from_response(Some(404), None).unwrap_err();
    assert_eq!(err.http_code, 400);
    assert_eq!(err.code, 1003);
    assert_eq!(err.message, "Người dùng không tồn tại hoặc bị khóa");

    assert!(user_from_response(None, None).is_err());
    assert!(user_from_response(Some(200), None).is_err());
}

#[test]
fn users_answer_decoded_only_on_ok_status() {
    let body = UsersCoreResult { data: vec![user(1, "an"), user(2, "binh")] };
    let answer = users_from_response(Some(200), Some(body)).expect("profiles come through");
    assert_eq!(answer.len(), 2);
    assert_eq!(answer[0].id, 1);
    assert_eq!(answer[1].id, 2);

    let err = users_from_response(Some(500), None).unwrap_err();
    assert_eq!(err.http_code, 400);
    assert_eq!(err.code, 1003);
}

#[test]
fn cache_answers_split_into_hits_and_misses() {
    let ids = vec!["1".to_string(), "2".to_string(), "3".to_string(), "4".to_string()];
    let cached = vec![
        CachedUser::Decoded(user(1, "an")),
        CachedUser::Missing,
        CachedUser::Undecodable,
        CachedUser::Missing,
    ];
    let (hits, misses) = partition_cached(&ids, cached);
    assert_eq!(hits.len(), 1);
    assert_eq!(hits[0].0, "1");
    assert_eq!(hits[0].1.id, 1);
    assert_eq!(misses, vec!["2".to_string(), "4".to_string()]);
}

#[test]
fn fewer_cache_answers_than_ids_are_taken_in_order() {
    let ids = vec!["1".to_string(), "2".to_string(), "3".to_string()];
    let cached = vec![CachedUser::Missing];
    let (hits, misses) = partition_cached(&ids, cached);
    assert!(hits.is_empty());
    assert_eq!(misses, vec!["1".to_string()]);
}
