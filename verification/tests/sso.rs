use kiro_relay::admin::poll::{Phase, Poll, PollAction, PollEvent};
use kiro_relay::admin::sso::{
    check_request, global_proxy, Checked, PollContext, SsoError, SsoSessionManager, SsoStatus,
    SsoUpdate, StartSsoSessionRequest,
};
use kiro_relay::clock::{Moment, LAST_SECOND};
use kiro_relay::kiro::kiro_version::{USAGE_API_AWS_SDK_VERSION, USAGE_API_KIRO_VERSION};
use kiro_relay::kiro::sso_oidc::{
    device_authorization_url, device_failure, device_request, oidc_host, register_failure,
    register_request, register_url, token_outcome, token_refusal, token_request, token_url, CreateTokenPoll,
    CreateTokenResponse, RegisterClientResponse, StartDeviceAuthResponse,
};

fn start(url: &str, auth: &str, api: &str) -> StartSsoSessionRequest {
    StartSsoSessionRequest {
        start_url: url.to_string(),
        auth_region: auth.to_string(),
        api_region: api.to_string(),
        priority: 3,
        endpoint: Some("ide".to_string()),
    }
}

fn at(secs: i64) -> Moment {
    Moment { secs, nanos: 0 }
}

fn registered() -> RegisterClientResponse {
    RegisterClientResponse {
        client_id: "cid".to_string(),
        client_secret: "csecret".to_string(),
    }
}

fn device(expires_in: Option<i64>, interval: Option<i64>) -> StartDeviceAuthResponse {
    StartDeviceAuthResponse {
        device_code: "dev".to_string(),
        user_code: "USER-CODE".to_string(),
        verification_uri: None,
        verification_uri_complete: Some("https://v".to_string()),
        expires_in,
        interval,
    }
}

fn checked() -> Checked {
    check_request(&start("https://a.awsapps.com/start", "us-west-2", "us-east-1")).unwrap()
}

fn begin(manager: &mut SsoSessionManager, id: &str, secs: i64) -> PollContext {
    let request = start("https://a.awsapps.com/start", "us-west-2", "us-east-1");
    manager
        .begin_session_with(id, &request, &checked(), &registered(), &device(None, None), at(secs))
        .1
}

fn problem(request: &StartSsoSessionRequest) -> String {
    match check_request(request) {
        Err(SsoError::InvalidRequest(message)) => message,
        other => panic!("expected a refusal, found {other:?}"),
    }
}

#[test]
fn requests_are_cleaned_and_checked() {
    let ok = check_request(&start(" https://x.awsapps.com/start// ", " r ", "\teu-central-1 ")).unwrap();
    assert_eq!(ok.start_url, "https://x.awsapps.com/start");
    assert_eq!(ok.auth_region, "r");
    assert_eq!(ok.api_region, "eu-central-1");
    assert!(check_request(&start("http://x", "r", "us-east-1")).is_ok());
    assert_eq!(problem(&start(" // ", "r", "us-east-1")), "Start URL 不能为空");
    assert_eq!(problem(&start("x.com", "r", "us-east-1")), "Start URL 必须以 http(s):// 开头");
    assert_eq!(problem(&start("https:/", "r", "us-east-1")), "Start URL 必须以 http(s):// 开头");
    assert_eq!(problem(&start("https://x", " ", "us-east-1")), "Auth Region 不能为空");
    assert_eq!(
        problem(&start("https://x", "r", "us-west-2")),
        format!("API Region 仅支持 {:?}", ["us-east-1", "eu-central-1"])
    );
}

#[test]
fn a_session_is_begun_and_looked_at() {
    let mut manager = SsoSessionManager::new();
    let request = start("https://a.awsapps.com/start", "us-west-2", "us-east-1");
    let (shown, context) = manager.begin_session_with(
        "s1",
        &request,
        &checked(),
        &registered(),
        &device(Some(60), Some(0)),
        at(1_700_000_000),
    );
    assert_eq!((shown.session_id.as_str(), shown.status), ("s1", SsoStatus::Pending));
    assert_eq!(shown.expires_at, "2023-11-14T22:14:20+00:00");
    assert_eq!(shown.user_code, "USER-CODE");
    assert_eq!(shown.verification_uri, None);
    assert_eq!(shown.verification_uri_complete.as_deref(), Some("https://v"));
    assert_eq!((shown.credential_id, shown.email, shown.error), (None, None, None));
    assert_eq!(context.interval, 1);
    assert_eq!(context.deadline, at(1_700_000_060));
    assert_eq!((context.client_id.as_str(), context.client_secret.as_str()), ("cid", "csecret"));
    assert_eq!((context.device_code.as_str(), context.priority), ("dev", 3));
    assert_eq!(context.endpoint.as_deref(), Some("ide"));
    assert_eq!(context.start_url, "https://a.awsapps.com/start");
    let again = manager.get_session("s1").unwrap();
    assert_eq!(format!("{again:?}"), format!("{:?}", manager.get_session("s1").unwrap()));
    assert_eq!(again.auth_region, "us-west-2");
    match manager.get_session("s2") {
        Err(SsoError::NotFound(message)) => assert_eq!(message, "会话不存在: s2"),
        other => panic!("expected no session, found {other:?}"),
    }
}

#[test]
fn lifetimes_and_intervals_are_bounded() {
    let mut manager = SsoSessionManager::new();
    let request = start("https://x", "r", "us-east-1");
    let mut of = |expires_in, interval| {
        let context = manager
            .begin_session_with(
                "s",
                &request,
                &checked(),
                &registered(),
                &device(expires_in, interval),
                at(1000),
            )
            .1;
        (context.deadline.secs - 1000, context.interval)
    };
    assert_eq!(of(None, None), (600, 5));
    assert_eq!(of(Some(5000), Some(7)), (900, 7));
    assert_eq!(of(Some(-4), Some(-4)), (1, 1));
    assert_eq!(of(Some(30), Some(1)), (30, 1));
}

#[test]
fn sessions_begin_up_to_the_last_date() {
    let mut manager = SsoSessionManager::new();
    let request = start("https://x", "r", "us-east-1");
    let mut ends = |secs| {
        manager
            .begin_session_with(
                "s",
                &request,
                &checked(),
                &registered(),
                &device(Some(600), None),
                at(secs),
            )
            .1
            .deadline
            .secs
    };
    assert_eq!(ends(LAST_SECOND - 700), LAST_SECOND - 100);
    assert_eq!(ends(LAST_SECOND - 600), LAST_SECOND);
    assert_eq!(ends(LAST_SECOND - 1), LAST_SECOND);
}

#[test]
fn a_session_begun_now_has_an_id_of_its_own() {
    let mut manager = SsoSessionManager::new();
    let request = start("https://a.awsapps.com/start", "us-west-2", "us-east-1");
    let one = manager.begin_session(&request, &checked(), &registered(), &device(None, None));
    let two = manager.begin_session(&request, &checked(), &registered(), &device(None, None));
    assert_ne!(one.0.session_id, two.0.session_id);
    assert_eq!(one.0.session_id.len(), 36);
    assert_eq!(one.0.session_id, one.1.session_id);
    assert!(one.1.deadline.secs > 1_600_000_000);
    assert!(manager.get_session(&two.0.session_id).is_ok());
}

#[test]
fn cancelled_sessions_stay_cancelled() {
    let mut manager = SsoSessionManager::new();
    begin(&mut manager, "s", 1000);
    assert_eq!(manager.cancel_session("s").unwrap().status, SsoStatus::Cancelled);
    manager.set_session_status(
        "s",
        SsoUpdate { status: SsoStatus::Completed, credential_id: Some(4), error: None },
    );
    let shown = manager.get_session("s").unwrap();
    assert_eq!((shown.status, shown.credential_id), (SsoStatus::Cancelled, None));
    assert!(matches!(manager.cancel_session("t"), Err(SsoError::NotFound(_))));
}

#[test]
fn finished_sessions_cannot_be_cancelled() {
    let mut manager = SsoSessionManager::new();
    begin(&mut manager, "s", 1000);
    manager.set_session_status(
        "s",
        SsoUpdate { status: SsoStatus::Completed, credential_id: Some(4), error: None },
    );
    let shown = manager.cancel_session("s").unwrap();
    assert_eq!((shown.status, shown.credential_id), (SsoStatus::Completed, Some(4)));
    assert_eq!(shown.start_url, "https://a.awsapps.com/start");
    manager.set_session_status(
        "nobody",
        SsoUpdate { status: SsoStatus::Failed, credential_id: None, error: None },
    );
    assert!(manager.get_session("nobody").is_err());
}

#[test]
fn only_old_finished_sessions_are_dropped() {
    let mut manager = SsoSessionManager::new();
    for (id, secs) in [("pending", 0), ("young", 1000), ("old", 1000), ("edge", 1001)] {
        begin(&mut manager, id, secs);
    }
    for id in ["young", "old", "edge"] {
        manager.cancel_session(id).unwrap();
    }
    manager.purge_finished_at(at(4599));
    assert!(manager.get_session("young").is_ok());
    let checked = manager.prepare_at(&start("https://x", "r", "us-east-1"), at(4600)).unwrap();
    assert_eq!(checked.start_url, "https://x");
    assert!(manager.get_session("pending").is_ok());
    assert!(manager.get_session("edge").is_ok());
    assert!(manager.get_session("young").is_err());
    assert!(manager.get_session("old").is_err());
    // Now is long after: whatever has finished is dropped.
    assert!(manager.prepare(&start("", "r", "us-east-1")).is_err());
    assert!(manager.get_session("edge").is_err());
    assert!(manager.get_session("pending").is_ok());
}

fn looked(cancelled: bool, secs: i64) -> PollEvent {
    PollEvent::Looked { cancelled, now: at(secs) }
}

fn ended(action: PollAction) -> (SsoStatus, Option<String>, Option<u64>) {
    match action {
        PollAction::End(Some(update)) => (update.status, update.error, update.credential_id),
        other => panic!("expected an end, found {other:?}"),
    }
}

/// A task that is about to ask for a token.
fn asking(context: &PollContext) -> Poll {
    let mut poll = Poll::new(context);
    assert!(matches!(poll.step(context, looked(false, 1000)), PollAction::Look));
    for _ in 0..5 {
        assert!(matches!(poll.step(context, looked(false, 1000)), PollAction::Sleep));
        assert!(matches!(poll.step(context, PollEvent::Slept), PollAction::Look));
    }
    assert!(matches!(poll.step(context, looked(false, 1000)), PollAction::Look));
    assert!(matches!(poll.step(context, looked(false, 1000)), PollAction::Ask));
    poll
}

fn token(refresh: Option<&str>) -> PollEvent {
    PollEvent::Asked(Ok(CreateTokenPoll::Token(Box::new(CreateTokenResponse {
        access_token: "at".to_string(),
        refresh_token: refresh.map(|s| s.to_string()),
        expires_in: None,
    }))))
}

#[test]
fn an_approved_session_adds_a_credential() {
    let mut manager = SsoSessionManager::new();
    let context = begin(&mut manager, "s", 1000);
    let mut poll = asking(&context);
    assert!(matches!(poll.step(&context, token(Some("rt"))), PollAction::Look));
    match poll.step(&context, looked(false, 1000)) {
        PollAction::Add(credential) => {
            assert_eq!(credential.auth_method, "idc");
            assert_eq!(credential.refresh_token, "rt");
            assert_eq!(credential.client_id, "cid");
            assert_eq!(credential.client_secret, "csecret");
            assert_eq!(credential.auth_region, "us-west-2");
            assert_eq!(credential.api_region, "us-east-1");
            assert_eq!(credential.priority, 3);
            assert_eq!(credential.endpoint.as_deref(), Some("ide"));
        }
        other => panic!("expected a credential, found {other:?}"),
    }
    let end = poll.step(&context, PollEvent::Added(Ok(9)));
    assert_eq!(ended(end), (SsoStatus::Completed, None, Some(9)));
    assert!(matches!(poll.phase, Phase::Ended));
}

#[test]
fn what_else_can_come_of_a_session() {
    let mut manager = SsoSessionManager::new();
    let context = begin(&mut manager, "s", 1000);
    let mut poll = asking(&context);
    poll.step(&context, token(Some("rt")));
    poll.step(&context, looked(false, 1000));
    let end = poll.step(&context, PollEvent::Added(Err("x".to_string())));
    assert_eq!(ended(end), (SsoStatus::Failed, Some("添加凭据失败: x".to_string()), None));
    for missing in [None, Some("")] {
        let mut poll = asking(&context);
        poll.step(&context, token(missing));
        let end = poll.step(&context, looked(false, 1000));
        assert_eq!(
            ended(end),
            (SsoStatus::Failed, Some("授权成功但未返回 Refresh Token".to_string()), None)
        );
    }
    for (outcome, status, error) in [
        (Ok(CreateTokenPoll::Expired), SsoStatus::Expired, "设备码已过期，请重新发起"),
        (Ok(CreateTokenPoll::Denied), SsoStatus::Denied, "用户拒绝了授权"),
        (Err("net".to_string()), SsoStatus::Failed, "轮询失败: net"),
    ] {
        let mut poll = asking(&context);
        let end = poll.step(&context, PollEvent::Asked(outcome));
        assert_eq!(ended(end), (status, Some(error.to_string()), None));
    }
    let mut poll = Poll::new(&context);
    let end = poll.step(&context, looked(false, 1600));
    assert_eq!(ended(end), (SsoStatus::Expired, Some("等待用户授权超时".to_string()), None));
}

#[test]
fn undecided_users_are_asked_again() {
    let mut manager = SsoSessionManager::new();
    let context = begin(&mut manager, "s", 1000);
    let mut poll = asking(&context);
    assert!(matches!(
        poll.step(&context, PollEvent::Asked(Ok(CreateTokenPoll::Pending))),
        PollAction::Look
    ));
    assert_eq!(poll.interval, 5);
    assert!(matches!(poll.phase, Phase::Start));
    let mut poll = asking(&context);
    poll.step(&context, PollEvent::Asked(Ok(CreateTokenPoll::SlowDown)));
    assert_eq!(poll.interval, 10);
    assert!(matches!(poll.phase, Phase::Start));
}

#[test]
fn a_deadline_cuts_the_wait_short() {
    let mut manager = SsoSessionManager::new();
    let context = begin(&mut manager, "s", 1000);
    let mut poll = Poll::new(&context);
    poll.step(&context, looked(false, 1599));
    assert!(matches!(poll.step(&context, looked(false, 1599)), PollAction::Sleep));
    poll.step(&context, PollEvent::Slept);
    assert!(matches!(poll.step(&context, looked(false, 1600)), PollAction::Look));
    assert!(matches!(poll.step(&context, looked(false, 1600)), PollAction::Ask));
}

#[test]
fn a_cancelled_task_ends() {
    let mut manager = SsoSessionManager::new();
    let context = begin(&mut manager, "s", 1000);
    let silent = |action: PollAction| matches!(action, PollAction::End(None));
    let mut poll = Poll::new(&context);
    assert!(silent(poll.step(&context, looked(true, 1000))));
    let mut poll = Poll::new(&context);
    poll.step(&context, looked(false, 1000));
    assert!(matches!(poll.step(&context, looked(true, 1000)), PollAction::Look));
    assert!(silent(poll.step(&context, looked(true, 1000))));
    let mut poll = asking(&context);
    poll.step(&context, token(Some("rt")));
    assert!(silent(poll.step(&context, looked(true, 1000))));
}

#[test]
fn a_task_sees_whether_its_session_was_cancelled() {
    let mut manager = SsoSessionManager::new();
    begin(&mut manager, "s", 1000);
    let seen = |manager: &SsoSessionManager, id: &str| match manager.look(id) {
        PollEvent::Looked { cancelled, now } => {
            assert!(now.secs > 1_600_000_000);
            cancelled
        }
        other => panic!("expected a look, found {other:?}"),
    };
    assert!(!seen(&manager, "s"));
    assert!(seen(&manager, "gone"));
    manager.cancel_session("s").unwrap();
    assert!(seen(&manager, "s"));
}

#[test]
fn proxies_need_both_halves_of_a_login() {
    let some = |s: &str| Some(s.to_string());
    assert!(global_proxy(&None, &some("u"), &some("p")).is_none());
    let proxy = global_proxy(&some("http://p"), &some("u"), &some("p")).unwrap();
    assert_eq!(proxy.url, "http://p");
    assert_eq!(proxy.login, Some(("u".to_string(), "p".to_string())));
    assert!(global_proxy(&some("x"), &some("u"), &None).unwrap().login.is_none());
}

#[test]
fn what_is_sent_to_the_sign_in_service() {
    assert_eq!(oidc_host("r"), "oidc.r.amazonaws.com");
    assert_eq!(register_url("r"), "https://oidc.r.amazonaws.com/client/register");
    assert_eq!(device_authorization_url("r"), "https://oidc.r.amazonaws.com/device_authorization");
    assert_eq!(token_url("r"), "https://oidc.r.amazonaws.com/token");
    let request = register_request(&vec!["a:b".to_string(), "c".to_string()]);
    assert_eq!((request.client_name.as_str(), request.client_type.as_str()), ("kiro-cli", "public"));
    assert_eq!(request.scopes, vec!["a:b", "c"]);
    assert_eq!(
        request.grant_types,
        vec!["urn:ietf:params:oauth:grant-type:device_code", "refresh_token"]
    );
    let request = device_request("i", "s", "u");
    assert_eq!((request.client_id.as_str(), request.start_url.as_str()), ("i", "u"));
    assert_eq!(request.client_secret, "s");
    let request = token_request("i", "s", "d");
    assert_eq!(request.grant_type, "urn:ietf:params:oauth:grant-type:device_code");
    assert_eq!((request.client_id.as_str(), request.client_secret.as_str()), ("i", "s"));
    assert_eq!(request.device_code, "d");
}

#[test]
fn what_the_sign_in_service_answers() {
    let of = |code: &str| token_refusal(code, "400 Bad Request", "body");
    assert!(matches!(of("authorization_pending"), Ok(CreateTokenPoll::Pending)));
    assert!(matches!(of("slow_down"), Ok(CreateTokenPoll::SlowDown)));
    assert!(matches!(of("expired_token"), Ok(CreateTokenPoll::Expired)));
    assert!(matches!(of("access_denied"), Ok(CreateTokenPoll::Denied)));
    assert_eq!(of("").unwrap_err(), "CreateToken 失败: 400 Bad Request body");
    assert_eq!(register_failure("500", "b"), "RegisterClient 失败: 500 b");
    assert_eq!(
        device_failure("500", "b"),
        "StartDeviceAuthorization 失败（请确认 Start URL 与 Auth Region 正确）: 500 b"
    );
}

#[test]
fn the_status_decides_on_a_token() {
    let token = || CreateTokenResponse {
        access_token: "a".into(),
        refresh_token: Some("r".into()),
        expires_in: Some(60),
    };
    let granted = token_outcome(200, "200 OK", "", Ok(token()), Some("slow_down".into()));
    match granted {
        Ok(CreateTokenPoll::Token(granted)) => assert_eq!(granted.access_token, "a"),
        other => panic!("{other:?}"),
    }
    let unreadable = token_outcome(204, "204 No Content", "", Err("no token".into()), None);
    assert_eq!(unreadable.unwrap_err(), "no token");
    let pending = Some("authorization_pending".to_string());
    assert!(matches!(
        token_outcome(400, "400 Bad Request", "b", Ok(token()), pending),
        Ok(CreateTokenPoll::Pending)
    ));
    assert_eq!(
        token_outcome(502, "502 Bad Gateway", "b", Ok(token()), None).unwrap_err(),
        "CreateToken 失败: 502 Bad Gateway b"
    );
}

#[test]
fn versions_go_together() {
    assert_eq!((USAGE_API_KIRO_VERSION, USAGE_API_AWS_SDK_VERSION), ("0.12.155", "1.0.34"));
}
