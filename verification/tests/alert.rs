use kiro_relay::alert::config::{AlertChannel, AlertConfig, ChannelKind};
use kiro_relay::alert::notify::{
    build_channels, delivery_result, telegram_outcome, telegram_refused, telegram_unreachable, Channel,
    DeliveryResult, TelegramNotifier,
};
use kiro_relay::alert::poller::{poll_delay, poll_delay_with};
use kiro_relay::alert::service::{
    delivered, judge, reportable, summarize, AlertService, CredentialEntry, EvalSummary, Round,
    Skip,
};
use kiro_relay::alert::smtp_settings::{
    default_port, parse_port, parse_tls, SmtpSettings, SmtpTls, SmtpVariables,
};
use kiro_relay::alert::state::{
    decide, fingerprint, id_list_text, to_hex, AlertState, Decision,
};
use kiro_relay::alert::types::{
    mask_token, AlertConfigResponse, ChannelRequest, StatusResponse, TestResponse,
};
use kiro_relay::amount::Amount;
use kiro_relay::clock::Moment;
use kiro_relay::json::to_value;

fn amount(x: f64) -> Amount {
    Amount { bits: x.to_bits() }
}

fn number(a: Amount) -> f64 {
    f64::from_bits(a.bits)
}

fn rearm_level(threshold: f64) -> Amount {
    amount(threshold + (threshold * 0.05).max(50.0))
}

fn decide_on(state: &AlertState, total: f64, threshold: f64, ids: &[u64]) -> Decision {
    decide(
        state,
        amount(total),
        amount(threshold),
        rearm_level(threshold),
        &fingerprint(ids),
    )
}

fn base() -> AlertState {
    AlertState::default()
}

fn watched(fired: bool) -> AlertState {
    let mut s = base();
    s.fired = fired;
    s.last_threshold = Some(amount(1000.0));
    s.credential_fingerprint = Some(fingerprint(&[1]));
    s
}

#[test]
fn test_default_config() {
    let c = AlertConfig::default();
    assert!(!c.enabled);
    assert_eq!(number(c.threshold_remaining), 1000.0);
    assert_eq!(c.poll_interval_secs, 1800);
    assert!(c.channels.is_empty());
    assert_eq!(c.subject_prefix, None);
}

#[test]
fn test_fingerprint_stable_and_order_independent() {
    assert_eq!(fingerprint(&[3, 1, 2]), fingerprint(&[1, 2, 3]));
    assert_ne!(fingerprint(&[1, 2]), fingerprint(&[1, 2, 3]));
}

#[test]
fn fingerprint_is_the_digest_of_the_id_list() {
    assert_eq!(id_list_text(&[10, 2, 2, 1]), "1,2,10");
    assert_eq!(id_list_text(&[]), "");
    assert_eq!(
        fingerprint(&[3, 1, 2, 1]),
        "8a6ae15122001229edb8866f56e342af12ae8187203c3e3b33931743e7c0c48d"
    );
    assert_ne!(fingerprint(&[1, 23]), fingerprint(&[12, 3]));
    assert_eq!(fingerprint(&[1, 1, 2]), fingerprint(&[1, 2]));
    assert_eq!(
        fingerprint(&[]),
        "e3b0c44298fc1c149afbf4c8996fb92427ae41e4649b934ca495991b7852b855"
    );
}

#[test]
fn hexadecimal_is_lower_case_with_two_digits_each() {
    assert_eq!(to_hex(&vec![0, 9, 10, 15, 16, 255]), "00090a0f10ff");
}

#[test]
fn test_fire_when_armed_and_below() {
    assert_eq!(decide_on(&watched(false), 800.0, 1000.0, &[1]), Decision::Fire);
}

#[test]
fn test_nothing_when_armed_and_above() {
    assert_eq!(decide_on(&watched(false), 1200.0, 1000.0, &[1]), Decision::Nothing);
}

#[test]
fn test_nothing_when_fired_and_still_below() {
    assert_eq!(decide_on(&watched(true), 800.0, 1000.0, &[1]), Decision::Nothing);
}

#[test]
fn test_rearm_on_recovery_above_hysteresis() {
    assert_eq!(decide_on(&watched(true), 1060.0, 1000.0, &[1]), Decision::Rearm);
}

#[test]
fn test_no_rearm_inside_hysteresis_band() {
    assert_eq!(decide_on(&watched(true), 1020.0, 1000.0, &[1]), Decision::Nothing);
}

#[test]
fn test_new_credential_rearms_and_fires_when_below() {
    assert_eq!(decide_on(&watched(true), 800.0, 1000.0, &[1, 2]), Decision::Fire);
}

#[test]
fn test_threshold_change_rearms_and_fires_when_below() {
    assert_eq!(decide_on(&watched(true), 1500.0, 2000.0, &[1]), Decision::Fire);
}

#[test]
fn change_above_the_threshold_only_rearms() {
    assert_eq!(decide_on(&watched(true), 1500.0, 1000.0, &[1, 2]), Decision::Rearm);
    assert_eq!(decide_on(&watched(true), 1500.0, 900.0, &[1]), Decision::Rearm);
}

#[test]
fn bounds_of_the_band() {
    assert_eq!(decide_on(&watched(true), 1050.0, 1000.0, &[1]), Decision::Rearm);
    assert_eq!(decide_on(&watched(true), 1049.99, 1000.0, &[1]), Decision::Nothing);
    assert_eq!(decide_on(&watched(false), 1000.0, 1000.0, &[1]), Decision::Nothing);
    assert_eq!(decide_on(&watched(false), 999.99, 1000.0, &[1]), Decision::Fire);
}

fn summary(total: f64, ids: &[u64]) -> EvalSummary {
    EvalSummary {
        total: amount(total),
        included: ids.len(),
        skipped_error: 0,
        skipped_unreportable: 0,
        all_failed: false,
        reportable_ids: ids.to_vec(),
    }
}

fn result(ok: bool) -> DeliveryResult {
    DeliveryResult {
        label: "x".to_string(),
        ok,
        error: if ok { None } else { Some("down".to_string()) },
    }
}

fn service() -> AlertService {
    let mut config = AlertConfig::default();
    config.enabled = true;
    AlertService::new(config, AlertState::default(), None)
}

/// One look at the credits: what was decided, where it was not skipped.
fn round(service: &mut AlertService, total: f64, ids: &[u64], ok: bool) -> Option<Decision> {
    let summary = summary(total, ids);
    let threshold = service.config.threshold_remaining;
    let round = judge(
        &service.config,
        &service.state,
        &summary,
        rearm_level(number(threshold)),
    );
    let decided = match &round {
        Round::Skipped(_) => None,
        Round::Judged { decision, .. } => Some(*decision),
    };
    service.finish_round_at(&summary, threshold, round, &vec![result(false), result(ok)], 77);
    decided
}

#[test]
fn a_warning_is_sent_once() {
    let mut service = service();
    assert_eq!(round(&mut service, 800.0, &[1], true), Some(Decision::Fire));
    for total in [800.0, 10.0, 999.0, 1000.0, 1020.0, 400.0] {
        assert_eq!(round(&mut service, total, &[1], true), Some(Decision::Nothing));
        assert!(service.state.fired);
    }
    assert_eq!(round(&mut service, 1100.0, &[1], true), Some(Decision::Rearm));
    assert_eq!(round(&mut service, 800.0, &[1], true), Some(Decision::Fire));
}

#[test]
fn an_undelivered_warning_is_repeated() {
    let mut service = service();
    assert_eq!(round(&mut service, 800.0, &[1], false), Some(Decision::Fire));
    assert!(!service.state.fired);
    assert_eq!(round(&mut service, 800.0, &[1], true), Some(Decision::Fire));
    assert!(service.state.fired);
    // Also after a change that brought another warning.
    assert_eq!(round(&mut service, 800.0, &[1, 2], false), Some(Decision::Fire));
    assert!(!service.state.fired);
    assert_eq!(round(&mut service, 800.0, &[1, 2], true), Some(Decision::Fire));
}

#[test]
fn a_round_is_remembered() {
    let mut service = service();
    round(&mut service, 800.0, &[2, 1], true);
    let state = service.state_snapshot();
    assert_eq!(state.last_total_remaining.map(number), Some(800.0));
    assert_eq!(state.last_evaluated_at, Some(77));
    assert_eq!(state.last_threshold.map(number), Some(1000.0));
    assert_eq!(state.credential_fingerprint, Some(fingerprint(&[1, 2])));
    let status = StatusResponse::of(&state);
    assert!(status.fired);
    assert_eq!(status.last_evaluated_at, Some(77));
    assert_eq!(status.last_total_remaining.map(number), Some(800.0));
    assert_eq!(status.last_threshold.map(number), Some(1000.0));
}

#[test]
fn a_round_now_is_dated() {
    let mut service = service();
    let summary = summary(800.0, &[1]);
    let threshold = service.config.threshold_remaining;
    let round = judge(&service.config, &service.state, &summary, rearm_level(1000.0));
    service.finish_round(&summary, threshold, round, &vec![result(true)]);
    assert!(service.state.fired);
    assert!(service.state.last_evaluated_at.unwrap() > 1_600_000_000);
}

#[test]
fn skipped_rounds_change_nothing() {
    let mut service = service();
    service.state = watched(true);
    let before = format!("{:?}", service.state);
    let mut failed = summary(0.0, &[1]);
    failed.all_failed = true;
    let none = summary(0.0, &[]);
    service.config.enabled = false;
    let disabled = judge(&service.config, &service.state, &summary(1.0, &[1]), rearm_level(1000.0));
    assert!(matches!(disabled, Round::Skipped(Skip::Disabled)));
    service.config.enabled = true;
    let round = judge(&service.config, &service.state, &failed, rearm_level(1000.0));
    assert!(matches!(round, Round::Skipped(Skip::AllFailed)));
    service.finish_round_at(&failed, amount(1000.0), round, &vec![], 5);
    let round = judge(&service.config, &service.state, &none, rearm_level(1000.0));
    assert!(matches!(round, Round::Skipped(Skip::NothingReportable)));
    service.finish_round_at(&none, amount(1000.0), round, &vec![], 5);
    assert_eq!(format!("{:?}", service.state), before);
}

fn entry(id: u64, disabled: bool, auth_method: Option<&str>) -> CredentialEntry {
    CredentialEntry { id, disabled, auth_method: auth_method.map(|s| s.to_string()) }
}

#[test]
fn summaries_count_what_came() {
    let entries = vec![
        entry(7, false, Some("social")),
        entry(8, true, Some("social")),
        entry(9, false, Some("api_key")),
        entry(5, false, None),
        entry(6, false, Some("idc")),
    ];
    assert_eq!(reportable(&entries), vec![7, 5, 6]);
    let s = summarize(&entries, &vec![true, false, true], amount(12.5));
    assert_eq!((s.included, s.skipped_error, s.skipped_unreportable), (2, 1, 2));
    assert!(!s.all_failed);
    assert_eq!(number(s.total), 12.5);
    assert_eq!(s.reportable_ids, vec![7, 5, 6]);
    let s = summarize(&entries, &vec![false, false, false], amount(0.0));
    assert!(s.all_failed);
    let s = summarize(&vec![entry(1, true, None)], &vec![], amount(0.0));
    assert!(!s.all_failed);
    assert_eq!(s.skipped_unreportable, 1);
}

#[test]
fn delivery_needs_one_success() {
    assert!(!delivered(&vec![]));
    assert!(!delivered(&vec![result(false), result(false)]));
    assert!(delivered(&vec![result(false), result(true)]));
}

fn message_config(prefix: Option<&str>, threshold: f64) -> AlertConfig {
    AlertConfig {
        enabled: true,
        threshold_remaining: amount(threshold),
        poll_interval_secs: 1800,
        subject_prefix: prefix.map(|s| s.to_string()),
        channels: vec![],
    }
}

fn message(cfg: &AlertConfig, summary: &EvalSummary) -> (String, String) {
    AlertService::build_message_parts(
        cfg,
        summary,
        &format!("{:.2}", number(summary.total)),
        &format!("{:.2}", number(cfg.threshold_remaining)),
    )
}

#[test]
fn test_build_message_includes_prefix_and_counts() {
    let cfg = message_config(Some("PROD-东京"), 1000.0);
    let summary = EvalSummary {
        total: amount(842.5),
        included: 3,
        skipped_error: 1,
        skipped_unreportable: 2,
        all_failed: false,
        reportable_ids: vec![1, 2, 3],
    };
    let (subject, body) = message(&cfg, &summary);
    assert!(subject.contains("PROD-东京"));
    assert!(subject.contains("842"));
    assert!(body.contains("1000"));
    assert!(body.contains("纳入 3 个"));
    assert!(body.contains("跳过 1 个（查询失败）"));
}

#[test]
fn test_build_message_no_prefix_clean() {
    let cfg = message_config(None, 500.0);
    let (subject, _) = message(&cfg, &summary(100.0, &[1]));
    assert!(!subject.contains("  "));
    assert!(subject.contains("Kiro Credit 预警"));
}

#[test]
fn messages_are_exact() {
    let at = Moment { secs: 1_700_000_000, nanos: 0 };
    let found = EvalSummary {
        total: amount(842.5),
        included: 3,
        skipped_error: 1,
        skipped_unreportable: 2,
        all_failed: false,
        reportable_ids: vec![1, 2, 3],
    };
    let cfg = message_config(Some("  PROD "), 1000.0);
    let (subject, body) =
        AlertService::build_message_parts_at(&cfg, &found, "842.50", "1000.00", at);
    assert_eq!(subject, "⚠️ PROD Kiro Credit 预警：剩余 842.50 低于阈值 1000.00");
    assert_eq!(
        body,
        "[PROD] 当前总剩余额度：842.50\n预警阈值：1000.00\n统计凭据：纳入 3 个，跳过 1 个（查询失败），排除 2 个（不可上报）\n时间：2023-11-14T22:13:20+00:00"
    );
    let blank = message_config(Some("  "), 1000.0);
    let none = message_config(None, 1000.0);
    assert_eq!(
        AlertService::build_message_parts_at(&blank, &found, "1.00", "2.00", at),
        AlertService::build_message_parts_at(&none, &found, "1.00", "2.00", at)
    );
    let (subject, _) = service().build_message(&none, &found, "1.00", "2.00");
    assert_eq!(subject, "⚠️ Kiro Credit 预警：剩余 1.00 低于阈值 2.00");
    assert_eq!(AlertService::test_subject(&cfg), "✅ PROD Kiro Credit 预警测试");
    assert_eq!(AlertService::test_subject(&blank), "✅ Kiro Credit 预警测试");
}

#[test]
fn message_times_keep_their_fraction() {
    let at = Moment { secs: 1_700_000_000, nanos: 250_000_000 };
    let (_, body) = AlertService::build_message_parts_at(
        &message_config(None, 1.0),
        &summary(1.0, &[1]),
        "1.00",
        "1.00",
        at,
    );
    assert!(body.ends_with("时间：2023-11-14T22:13:20.250+00:00"));
}

fn telegram(id: &str, token: Option<&str>, chat: Option<&str>) -> AlertChannel {
    AlertChannel {
        id: id.to_string(),
        kind: ChannelKind::Telegram,
        enabled: true,
        name: None,
        bot_token: token.map(|s| s.to_string()),
        chat_id: chat.map(|s| s.to_string()),
        to: None,
    }
}

#[test]
fn test_merge_masked_token_keeps_original() {
    let original = telegram("1", Some("REAL-TOKEN"), Some("c"));
    let mut incoming = original.clone();
    incoming.bot_token = Some(AlertService::MASK_PLACEHOLDER.to_string());
    let merged = AlertService::merge_channel_secrets(incoming, &original);
    assert_eq!(merged.bot_token.as_deref(), Some("REAL-TOKEN"));
}

#[test]
fn test_merge_real_token_overrides() {
    let original = telegram("1", Some("OLD"), Some("c"));
    let mut incoming = original.clone();
    incoming.bot_token = Some("NEW".into());
    let merged = AlertService::merge_channel_secrets(incoming, &original);
    assert_eq!(merged.bot_token.as_deref(), Some("NEW"));
}

#[test]
fn a_missing_token_replaces_the_stored_one() {
    let original = telegram("1", Some("OLD"), Some("c"));
    let incoming = telegram("1", None, Some("c"));
    assert_eq!(AlertService::merge_channel_secrets(incoming, &original).bot_token, None);
}

fn ids(service: &AlertService) -> Vec<String> {
    service.config_snapshot().channels.iter().map(|c| c.id.clone()).collect()
}

#[test]
fn channels_are_added_changed_and_deleted() {
    let mut service = service();
    let a = service.add_channel(telegram("a", Some("TOKEN-A"), Some("1")));
    let b = service.add_channel(telegram("  ", Some("TOKEN-B"), Some("2")));
    let c = service.add_channel(telegram("", Some("TOKEN-C"), Some("3")));
    assert_eq!(a.id, "a");
    assert_eq!(b.id.len(), 36);
    assert_ne!(b.id, c.id);
    assert_eq!(b.id.as_bytes()[14], b'4');
    assert_eq!(ids(&service), vec![a.id.clone(), b.id.clone(), c.id.clone()]);

    let mut incoming = telegram("ignored", Some(AlertService::MASK_PLACEHOLDER), Some("22"));
    incoming.enabled = false;
    let changed = service.update_channel(&b.id, incoming).unwrap();
    assert_eq!(changed.id, b.id);
    assert_eq!(changed.bot_token.as_deref(), Some("TOKEN-B"));
    assert_eq!(changed.chat_id.as_deref(), Some("22"));
    assert!(!changed.enabled);
    assert_eq!(ids(&service), vec![a.id.clone(), b.id.clone(), c.id.clone()]);
    assert_eq!(service.config.channels[0].bot_token.as_deref(), Some("TOKEN-A"));
    assert_eq!(service.config.channels[2].bot_token.as_deref(), Some("TOKEN-C"));

    assert_eq!(
        service.update_channel("nobody", telegram("x", None, None)).unwrap_err(),
        "渠道不存在: nobody"
    );
    assert!(service.delete_channel(&b.id).is_ok());
    assert_eq!(ids(&service), vec![a.id.clone(), c.id.clone()]);
    assert_eq!(service.delete_channel(&b.id).unwrap_err(), format!("渠道不存在: {}", b.id));
    assert_eq!(ids(&service), vec![a.id, c.id]);
}

#[test]
fn an_id_is_given_only_where_there_is_none() {
    let mut service = service();
    let kept = service.add_channel_with(telegram("k", None, None), "new".to_string());
    let given = service.add_channel_with(telegram(" ", None, None), "new".to_string());
    assert_eq!((kept.id.as_str(), given.id.as_str()), ("k", "new"));
}

#[test]
fn configuration_changes() {
    let mut service = service();
    let after = service.update_config(None, Some(amount(5.0)), Some(60), Some(Some(" p ".into())));
    assert!(after.enabled);
    assert_eq!(number(after.threshold_remaining), 5.0);
    assert_eq!(after.poll_interval_secs, 60);
    assert_eq!(after.subject_prefix.as_deref(), Some(" p "));
    let after = service.update_config(Some(false), None, None, None);
    assert!(!after.enabled);
    assert_eq!(after.subject_prefix.as_deref(), Some(" p "));
    assert_eq!(after.poll_interval_secs, 60);
    let after = service.update_config(None, None, None, Some(Some(" \t".into())));
    assert_eq!(after.subject_prefix, None);
    service.update_config(None, None, None, Some(Some("q".into())));
    let after = service.update_config(None, None, None, Some(None));
    assert_eq!(after.subject_prefix, None);
}

fn tg(enabled: bool, token: Option<&str>, chat: Option<&str>) -> AlertChannel {
    let mut channel = telegram("x", token, chat);
    channel.enabled = enabled;
    channel
}

#[test]
fn test_skip_disabled_and_incomplete_telegram() {
    let chans = vec![
        tg(false, Some("t"), Some("c")),
        tg(true, None, Some("c")),
        tg(true, Some("t"), None),
        tg(true, Some("t"), Some("c")),
    ];
    let built = build_channels(&chans, &None);
    assert_eq!(built.len(), 1);
}

#[test]
fn test_telegram_error_message_excludes_token() {
    let token = "123456:SECRETTOKEN";
    let safe_msg = telegram_unreachable("error sending request");
    assert_eq!(safe_msg, format!("Telegram 请求失败: {}", "error sending request"));
    assert!(!safe_msg.contains(token));
    assert!(!safe_msg.contains("SECRETTOKEN"));
}

fn email(to: Option<&str>) -> AlertChannel {
    AlertChannel {
        id: "e".into(),
        kind: ChannelKind::Email,
        enabled: true,
        name: None,
        bot_token: None,
        chat_id: None,
        to: to.map(|s| s.to_string()),
    }
}

#[test]
fn test_email_skipped_without_smtp() {
    let built = build_channels(&vec![email(Some("a@b.com"))], &None);
    assert_eq!(built.len(), 0);
}

fn variables() -> SmtpVariables {
    SmtpVariables {
        host: Some("mail".into()),
        port: None,
        username: None,
        password: None,
        from: Some("me@x".into()),
        tls: None,
    }
}

#[test]
fn channels_are_built_with_their_labels() {
    let smtp = SmtpSettings::from_variables(&variables());
    let mut named = telegram("t1", Some("T"), Some("C"));
    named.name = Some("ops".into());
    let chans = vec![
        named,
        email(Some("a@b.com")),
        email(None),
        telegram("t2", Some("T2"), Some("C2")),
    ];
    let built = build_channels(&chans, &smtp);
    let labels: Vec<String> = built.iter().map(|c| c.label()).collect();
    assert_eq!(labels, vec!["ops", "Email#e", "Telegram#t2"]);
    match &built[1] {
        Channel::Email(n) => {
            assert_eq!(n.to, "a@b.com");
            assert_eq!(n.settings.host, "mail");
        }
        _ => panic!("expected a mail channel"),
    }
    let ok = delivery_result(&built[0], Ok(()));
    assert_eq!((ok.label.as_str(), ok.ok, ok.error), ("ops", true, None));
    let bad = delivery_result(&built[2], Err("no".into()));
    assert_eq!((bad.label.as_str(), bad.ok, bad.error), ("Telegram#t2", false, Some("no".into())));
}

#[test]
fn telegram_messages() {
    let n = TelegramNotifier {
        bot_token: "1:A".into(),
        chat_id: "-5".into(),
        label: "l".into(),
    };
    assert_eq!(n.url(), "https://api.telegram.org/bot1:A/sendMessage");
    let sent = to_value(&n.payload("s", "b"));
    assert_eq!(sent["chat_id"], "-5");
    assert_eq!(sent["text"], "s\n\nb");
    assert_eq!(sent["parse_mode"], "HTML");
    assert_eq!(telegram_refused("400 Bad Request", "x"), "Telegram 返回 400 Bad Request: x");
}

#[test]
fn the_status_decides_on_a_posted_message() {
    assert_eq!(telegram_outcome(200, "200 OK", "x"), Ok(()));
    assert_eq!(telegram_outcome(299, "299", ""), Ok(()));
    assert_eq!(
        telegram_outcome(199, "199", "x"),
        Err("Telegram 返回 199: x".to_string())
    );
    assert_eq!(
        telegram_outcome(300, "300 Multiple Choices", ""),
        Err("Telegram 返回 300 Multiple Choices: ".to_string())
    );
}

#[test]
fn test_parse_tls() {
    assert_eq!(parse_tls("implicit"), SmtpTls::Implicit);
    assert_eq!(parse_tls("IMPLICIT"), SmtpTls::Implicit);
    assert_eq!(parse_tls("none"), SmtpTls::NoTls);
    assert_eq!(parse_tls("starttls"), SmtpTls::StartTls);
    assert_eq!(parse_tls("anything"), SmtpTls::StartTls);
}

#[test]
fn test_default_port_by_tls() {
    assert_eq!(default_port(SmtpTls::Implicit), 465);
    assert_eq!(default_port(SmtpTls::StartTls), 587);
    assert_eq!(default_port(SmtpTls::NoTls), 587);
}

#[test]
fn ports_are_read_as_numbers_are() {
    for s in [
        "", "+", "0", "25", "+25", "-25", "-0", "65535", "65536", "00025", "999999999999", "2 5",
        " 25", "25 ", "0x19", "++1", "٣", "1e3", "000000000000065535",
    ] {
        assert_eq!(parse_port(s), s.parse::<u16>().ok(), "{s:?}");
    }
}

#[test]
fn mail_settings_need_a_server_and_a_sender() {
    let s = SmtpSettings::from_variables(&variables()).unwrap();
    assert_eq!((s.host.as_str(), s.from.as_str(), s.port, s.tls), ("mail", "me@x", 587, SmtpTls::StartTls));
    assert_eq!((s.username, s.password), (None, None));
    for missing in [None, Some(""), Some("  ")] {
        let mut v = variables();
        v.host = missing.map(|s| s.to_string());
        assert!(SmtpSettings::from_variables(&v).is_none());
        let mut v = variables();
        v.from = missing.map(|s| s.to_string());
        assert!(SmtpSettings::from_variables(&v).is_none());
    }
    let mut v = variables();
    v.tls = Some("Implicit".into());
    v.username = Some("u".into());
    v.password = Some(" ".into());
    v.port = Some("zero".into());
    let s = SmtpSettings::from_variables(&v).unwrap();
    assert_eq!((s.port, s.tls), (465, SmtpTls::Implicit));
    assert_eq!((s.username.as_deref(), s.password), (Some("u"), None));
    v.port = Some("2525".into());
    assert_eq!(SmtpSettings::from_variables(&v).unwrap().port, 2525);
}

#[test]
fn test_mask_token() {
    assert_eq!(mask_token("1234567890:ABCDEFGH"), "123456...GH");
    assert_eq!(mask_token("short"), "***");
}

#[test]
fn masks_hide_tokens() {
    assert_eq!(mask_token("123456789012"), "***");
    assert_eq!(mask_token("1234567890123"), "123456...23");
    assert_eq!(mask_token("1234567890:ABCDEFGé"), "***");
    assert_eq!(mask_token("123456aaaaaaaGH"), mask_token("123456bbbbbbbbbbbGH"));
    assert_eq!(mask_token(""), "***");
}

#[test]
fn configuration_is_shown_with_masked_tokens() {
    let mut cfg = message_config(Some("p"), 3.0);
    cfg.channels = vec![telegram("1", Some("1234567890:ABCDEFGH"), Some("c")), email(Some("t"))];
    let shown = AlertConfigResponse::from_config(&cfg, true);
    assert!(shown.enabled && shown.smtp_configured);
    assert_eq!(number(shown.threshold_remaining), 3.0);
    assert_eq!(shown.poll_interval_secs, 1800);
    assert_eq!(shown.subject_prefix.as_deref(), Some("p"));
    assert_eq!(shown.channels.len(), 2);
    assert_eq!(shown.channels[0].masked_bot_token.as_deref(), Some("123456...GH"));
    assert_eq!(shown.channels[0].chat_id.as_deref(), Some("c"));
    assert_eq!(shown.channels[1].masked_bot_token, None);
    assert_eq!(shown.channels[1].to.as_deref(), Some("t"));
    assert_eq!(shown.channels[1].kind, ChannelKind::Email);
}

#[test]
fn requests_become_channels() {
    let request = ChannelRequest {
        kind: ChannelKind::Email,
        enabled: None,
        name: Some("n".into()),
        bot_token: None,
        chat_id: None,
        to: Some("t".into()),
    };
    let channel = request.into_channel("id".into());
    assert!(channel.enabled);
    assert_eq!((channel.id.as_str(), channel.kind), ("id", ChannelKind::Email));
    assert_eq!((channel.name.as_deref(), channel.to.as_deref()), (Some("n"), Some("t")));
}

#[test]
fn tests_are_answered_channel_by_channel() {
    let shown = TestResponse::of(&vec![result(true), result(false)]);
    assert_eq!(shown.results.len(), 2);
    assert!(shown.results[0].ok && !shown.results[1].ok);
    assert_eq!(shown.results[1].error.as_deref(), Some("down"));
    assert_eq!(shown.results[1].label, "x");
}

#[test]
fn poll_delays_vary_by_five_minutes() {
    assert_eq!(poll_delay_with(1800, 301), 2101);
    let mut seen = Vec::new();
    for _ in 0..200 {
        let delay = poll_delay(1800);
        assert!((2100..=2400).contains(&delay));
        if !seen.contains(&delay) {
            seen.push(delay);
        }
    }
    assert!(seen.len() > 1);
}
