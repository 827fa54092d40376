use match_download::api::{
    authorization_url, authorization_url_with, check_api_code, matches_url, oauth_poll,
    stages_url, token_url, userinfo_url, works_url, OauthPoll, SystemInfo, OAUTH_WAIT_SECS,
    REDIRECT_URI,
};

#[test]
fn endpoint_urls() {
    assert_eq!(token_url("abc"), "https://abc.job3.posedu.cn/school/oauth/token");
    assert_eq!(userinfo_url("abc"), "https://abc.job3.posedu.cn/school/oauth/userinfo");
    assert_eq!(matches_url("abc"), "https://abc.job3.posedu.cn/school/match_api/matches");
    assert_eq!(
        stages_url("abc", 12),
        "https://abc.job3.posedu.cn/school/match_api/stages?match_id=12"
    );
    assert_eq!(
        works_url("abc", 12, 0),
        "https://abc.job3.posedu.cn/school/match_api/works?match_id=12&stage_id=0"
    );
    assert_eq!(
        works_url("abc", i32::MIN, 2147483647),
        "https://abc.job3.posedu.cn/school/match_api/works?match_id=-2147483648&stage_id=2147483647"
    );
}

#[test]
fn authorization_url_encodes_the_redirect() {
    assert_eq!(
        authorization_url("abc", "s1"),
        "https://abc.job3.posedu.cn/school/oauth/authorize?redirect_uri=http%3A%2F%2Flocalhost%3A3000%2Fcallback&state=s1"
    );
    assert_eq!(
        authorization_url_with("abc", "s1", REDIRECT_URI),
        "https://abc.job3.posedu.cn/school/oauth/authorize?redirect_uri=http://localhost:3000/callback&state=s1"
    );
}

#[test]
fn api_code_zero_is_success() {
    assert_eq!(check_api_code(Some(0), None), Ok(()));
    assert_eq!(check_api_code(Some(0), Some("x".to_string())), Ok(()));
    assert_eq!(check_api_code(Some(3), Some("denied".to_string())), Err("denied".to_string()));
    assert_eq!(check_api_code(None, None), Err("未知错误".to_string()));
}

#[test]
fn oauth_poll_decisions() {
    assert!(matches!(oauth_poll(1, None, None), OauthPoll::Wait));
    match oauth_poll(5, Some("c0de".to_string()), Some("e".to_string())) {
        OauthPoll::Done(Ok(c)) => assert_eq!(c, "c0de"),
        other => panic!("{:?}", other),
    }
    match oauth_poll(5, None, Some("access_denied".to_string())) {
        OauthPoll::Done(Err(e)) => assert_eq!(e, "OAuth error: access_denied"),
        other => panic!("{:?}", other),
    }
    match oauth_poll(OAUTH_WAIT_SECS, None, None) {
        OauthPoll::Done(Err(e)) => assert_eq!(e, "OAuth timeout"),
        other => panic!("{:?}", other),
    }
    assert!(matches!(oauth_poll(OAUTH_WAIT_SECS - 1, None, None), OauthPoll::Wait));
}

#[test]
fn concurrency_advice() {
    let s = SystemInfo::for_cpus(8);
    assert_eq!((s.cpu_cores, s.recommended_concurrency, s.max_concurrency), (8, 8, 16));
    assert_eq!(SystemInfo::for_cpus(usize::MAX).max_concurrency, usize::MAX);
    let here = SystemInfo::current();
    assert!(here.cpu_cores >= 1);
    assert_eq!(here.recommended_concurrency, here.cpu_cores);
}
