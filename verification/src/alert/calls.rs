//! What calls on warnings bring about, one after the other.

use vstd::prelude::*;

use crate::alert::config::{channels_view, AlertChannel, AlertConfig, ChannelKind, ChannelView};
use crate::alert::laws::{
    law_body_says_what_was_found, law_every_answer_is_counted, law_every_channel_is_sent_through,
    law_every_credential_is_counted, law_other_channels_stay, law_port_of_mail,
    law_security_of_mail, law_subject_says_what_is_left, law_what_is_shown_of_a_token,
};
use crate::alert::notify::{
    build_channels, delivery_result, label_of, notifier_of, notifiers_view, telegram_outcome,
    Channel, DeliveryResult, TelegramNotifier,
};
use crate::alert::poller::poll_delay;
use crate::alert::service::{
    effective_prefix, judge, lemma_place_of, place_of, reportable, summarize, AlertService,
    CredentialEntry, EvalSummary, Round, Skip,
};
use crate::alert::smtp_settings::{
    default_port, lowered, parse_port, parse_tls, SmtpSettings, SmtpTls, SmtpVariables,
};
use crate::alert::state::{decide, fingerprint, law_fingerprint_of_a_set, AlertState, Decision};
use crate::alert::types::{
    is_ascii_text, mask_token, AlertConfigResponse, ChannelRequest, StatusResponse, TestResponse,
};
use crate::amount::Amount;
use crate::clock::{rfc3339_text, Moment};
use crate::json::{lemma_lookup_nothing, lemma_lookup_pushed, text_field, Json};
use crate::rows::lemma_picked_push;
use crate::text::{dec, is_blank, maybe_text, occurs_in, trimmed};

verus! {

/// One channel that lacks nothing is sent through as it is: a chat by its bot and to its
/// chat, a mail address by the mail server that is set. One that lacks something is not.
pub proof fn law_one_channel(
    channels: &Vec<AlertChannel>,
    smtp: &Option<SmtpSettings>,
    built: Vec<Channel>,
)
    requires
        channels@.len() == 1,
        call_ensures(build_channels, (channels, smtp), built),
    ensures
        ({
            let channel = channels@[0];
            let complete = channel.enabled && match channel.kind {
                ChannelKind::Telegram => channel.bot_token is Some && channel.chat_id is Some,
                ChannelKind::Email => channel.to is Some && smtp is Some,
            };
            &&& !complete ==> built@.len() == 0
            &&& complete ==> built@.len() == 1 && match built@[0] {
                Channel::Telegram(notifier) => {
                    &&& channel.kind == ChannelKind::Telegram
                    &&& notifier.bot_token@ == channel.bot_token->0@
                    &&& notifier.chat_id@ == channel.chat_id->0@
                    &&& notifier.label@ == label_of(channel@)
                },
                Channel::Email(notifier) => {
                    &&& channel.kind == ChannelKind::Email
                    &&& notifier.to@ == channel.to->0@
                    &&& Some(notifier.settings) == *smtp
                    &&& notifier.label@ == label_of(channel@)
                },
            }
        }),
{
    let channel = channels@[0];
    let views = channels_view(channels@);
    let sent = |channel: ChannelView| notifier_of(channel, *smtp);
    law_every_channel_is_sent_through(views, *smtp);
    assert(views =~= Seq::<ChannelView>::empty().push(channel@));
    lemma_picked_push(Seq::<ChannelView>::empty(), channel@, sent);
    assert(Seq::<ChannelView>::empty().filter_map(sent).len() == 0);
    assert(notifiers_view(built@).len() == built@.len());
    if built@.len() > 0 {
        assert(notifiers_view(built@)[0] == built@[0]@);
    }
}

/// Channels are sent through in their order: what one more channel is sent through comes
/// behind what the others are.
pub proof fn law_one_more_channel(
    channels: &Vec<AlertChannel>,
    more: &Vec<AlertChannel>,
    one: &Vec<AlertChannel>,
    smtp: &Option<SmtpSettings>,
    first: Vec<Channel>,
    all: Vec<Channel>,
    only: Vec<Channel>,
)
    requires
        one@.len() == 1,
        more@ == channels@.push(one@[0]),
        call_ensures(build_channels, (channels, smtp), first),
        call_ensures(build_channels, (more, smtp), all),
        call_ensures(build_channels, (one, smtp), only),
    ensures
        notifiers_view(all@) == notifiers_view(first@) + notifiers_view(only@),
{
    let last = one@[0]@;
    let sent = |channel: ChannelView| notifier_of(channel, *smtp);
    let front = channels_view(channels@);
    law_every_channel_is_sent_through(front, *smtp);
    law_every_channel_is_sent_through(channels_view(more@), *smtp);
    law_every_channel_is_sent_through(channels_view(one@), *smtp);
    assert(channels_view(more@) =~= front.push(last));
    assert(channels_view(one@) =~= Seq::<ChannelView>::empty().push(last));
    lemma_picked_push(front, last, sent);
    lemma_picked_push(Seq::<ChannelView>::empty(), last, sent);
    assert(Seq::<ChannelView>::empty().filter_map(sent) =~= Seq::empty());
    assert(notifiers_view(all@) =~= notifiers_view(first@) + notifiers_view(only@));
}

/// A message to a chat goes to the address of its bot, names the chat, and says the subject
/// and the body.
pub proof fn law_message_goes_to_its_chat(
    notifier: &TelegramNotifier,
    subject: &str,
    body: &str,
    url: String,
    payload: Json,
)
    requires
        call_ensures(TelegramNotifier::url, (notifier,), url),
        call_ensures(TelegramNotifier::payload, (notifier, subject, body), payload),
    ensures
        url@ == "https://api.telegram.org/bot"@ + notifier.bot_token@ + "/sendMessage"@,
        text_field(payload@, "chat_id"@) == Some(notifier.chat_id@),
        text_field(payload@, "text"@) == Some(subject@ + "\n\n"@ + body@),
        text_field(payload@, "parse_mode"@) == Some("HTML"@),
{
    broadcast use {lemma_lookup_pushed, lemma_lookup_nothing};

    reveal_strlit("chat_id");
    reveal_strlit("text");
    reveal_strlit("parse_mode");
    assert("chat_id"@.len() == 7 && "text"@.len() == 4 && "parse_mode"@.len() == 10);
}

/// What came of sending is told under the name of the channel: that it went well, or the
/// error. Posting went well where the answer is of the two hundreds.
pub proof fn law_delivery_is_told(
    channel: &Channel,
    outcome: Result<(), String>,
    told: DeliveryResult,
    status: u16,
    status_text: &str,
    message: &str,
    posted: Result<(), String>,
)
    requires
        call_ensures(delivery_result, (channel, outcome), told),
        call_ensures(telegram_outcome, (status, status_text, message), posted),
    ensures
        told.ok <==> outcome is Ok,
        outcome is Ok ==> maybe_text(told.error) is None,
        outcome is Err ==> maybe_text(told.error) == Some(outcome->Err_0@),
        match *channel {
            Channel::Telegram(notifier) => told.label@ == notifier.label@,
            Channel::Email(notifier) => told.label@ == notifier.label@,
        },
        posted is Ok <==> status / 100 == 2,
        posted matches Err(error) ==> (status_text@ + ": "@ + message@).is_suffix_of(error@),
{
    if let Err(error) = posted {
        let end = status_text@ + ": "@ + message@;
        assert(error@.subrange(error@.len() - end.len(), error@.len() as int) =~= end);
    }
}

/// A look at the credits asks for those of the credentials that are counted, and says of how
/// many an answer came, of how many none did, and how many are not counted.
pub proof fn law_look_is_summed_up(
    entries: &Vec<CredentialEntry>,
    ids: Vec<u64>,
    outcomes: &Vec<bool>,
    total: Amount,
    summary: EvalSummary,
)
    requires
        call_ensures(reportable, (entries,), ids),
        outcomes@.len() == ids@.len(),
        call_ensures(summarize, (entries, outcomes, total), summary),
    ensures
        ids@ == entries@.filter(
            |entry: CredentialEntry|
                !entry.disabled && !(entry.auth_method matches Some(method) && method@
                    == "api_key"@),
        ).map_values(|entry: CredentialEntry| entry.id),
        summary.total == total,
        summary.reportable_ids@ == ids@,
        summary.included == outcomes@.filter(|came: bool| came).len(),
        summary.included + summary.skipped_error == ids@.len(),
        summary.skipped_unreportable + ids@.len() == entries@.len(),
        summary.all_failed <==> ids@.len() > 0 && summary.included == 0,
{
    law_every_credential_is_counted(entries@);
    law_every_answer_is_counted(outcomes@);
}

/// A look is left without consequence for the first reason that there is, and judged where
/// there is none: a warning is sent below the threshold where none has been sent, and where
/// the credentials or the threshold are not those that are remembered.
pub proof fn law_look_is_judged(
    config: &AlertConfig,
    state: &AlertState,
    summary: &EvalSummary,
    rearm_level: Amount,
    ids: &[u64],
    mark: String,
    round: Round,
)
    requires
        ids@ == summary.reportable_ids@,
        call_ensures(fingerprint, (ids,), mark),
        call_ensures(judge, (config, state, summary, rearm_level), round),
    ensures
        match round {
            Round::Skipped(Skip::Disabled) => !config.enabled,
            Round::Skipped(Skip::AllFailed) => config.enabled && summary.all_failed,
            Round::Skipped(Skip::NothingReportable) => config.enabled && !summary.all_failed
                && summary.reportable_ids@.len() == 0,
            Round::Judged { decision, fingerprint: found } => {
                let threshold = config.threshold_remaining;
                let changed = !(state.credential_fingerprint matches Some(last) && last@ == mark@)
                    || !(state.last_threshold matches Some(last) && last.is_same(threshold));
                let below = summary.total.is_below(threshold);
                &&& config.enabled && !summary.all_failed && summary.reportable_ids@.len() > 0
                &&& found@ == mark@
                &&& decision == Decision::Fire <==> below && (!state.fired || changed)
                &&& decision == Decision::Rearm <==> state.fired && (if changed {
                    !below
                } else {
                    summary.total.is_at_least(rearm_level)
                })
            },
        },
{
}

/// What a look found is remembered once what it led to was done: a warning counts as sent
/// where it reached somebody. A look without consequence is not remembered.
pub proof fn law_judged_look_is_remembered(
    service: &mut AlertService,
    summary: &EvalSummary,
    threshold: Amount,
    round: Round,
    results: &Vec<DeliveryResult>,
    at: i64,
)
    requires
        call_ensures(
            AlertService::finish_round_at,
            (service, summary, threshold, round, results, at),
            (),
        ),
    ensures
        final(service).config == old(service).config,
        final(service).smtp == old(service).smtp,
        match round {
            Round::Skipped(_) => final(service).state == old(service).state,
            Round::Judged { decision, fingerprint: mark } => {
                let kept = final(service).state;
                &&& kept.last_total_remaining == Some(summary.total)
                &&& kept.last_threshold == Some(threshold)
                &&& kept.last_evaluated_at == Some(at)
                &&& maybe_text(kept.credential_fingerprint) == Some(mark@)
                &&& kept.fired <==> match decision {
                    Decision::Fire => exists|i: int|
                        0 <= i < results@.len() && (#[trigger] results@[i]).ok,
                    Decision::Rearm => false,
                    Decision::Nothing => old(service).state.fired,
                }
            },
        },
{
}

/// A channel that is added stands behind the others and is the one that was sent; it has an
/// id in any case.
pub proof fn law_added_channel_stands_last(
    service: &mut AlertService,
    channel: AlertChannel,
    id: String,
    added: AlertChannel,
)
    requires
        call_ensures(AlertService::add_channel_with, (service, channel, id), added),
    ensures
        ({
            let before = old(service).config@.channels;
            let after = final(service).config@.channels;
            &&& after.len() == before.len() + 1
            &&& forall|i: int| 0 <= i < before.len() ==> #[trigger] after[i] == before[i]
            &&& after.last() == added@
        }),
        added.id@ == if is_blank(channel.id@) {
            id@
        } else {
            channel.id@
        },
        added.kind == channel.kind,
        added.enabled == channel.enabled,
        maybe_text(added.name) == maybe_text(channel.name),
        maybe_text(added.bot_token) == maybe_text(channel.bot_token),
        maybe_text(added.chat_id) == maybe_text(channel.chat_id),
        maybe_text(added.to) == maybe_text(channel.to),
        final(service).config.enabled == old(service).config.enabled,
        final(service).config.threshold_remaining == old(service).config.threshold_remaining,
        final(service).config.poll_interval_secs == old(service).config.poll_interval_secs,
        final(service).state == old(service).state,
{
    let before = old(service).config@.channels;
    assert(final(service).config@.channels.last() == added@);
    assert(added@.id == added.id@ && added@.kind == added.kind && added@.enabled == added.enabled);
    assert(added@.name == maybe_text(added.name) && added@.to == maybe_text(added.to));
    assert(final(service).config@.enabled == old(service).config@.enabled);
}

/// A channel that is changed is the first one of its id; it is what was sent, under the same
/// id, and keeps its token where the placeholder came back for it. All others stay. Where
/// there is none, nothing changes.
pub proof fn law_changed_channel_is_what_was_sent(
    service: &mut AlertService,
    id: &str,
    incoming: AlertChannel,
    r: Result<AlertChannel, String>,
)
    requires
        call_ensures(AlertService::update_channel, (service, id, incoming), r),
    ensures
        ({
            let before = old(service).config@.channels;
            let after = final(service).config@.channels;
            match r {
                Ok(changed) => exists|at: int|
                    0 <= at < before.len() && (#[trigger] before[at]).id == id@ && {
                        &&& after.len() == before.len()
                        &&& forall|j: int| 0 <= j < at ==> (#[trigger] before[j]).id != id@
                        &&& forall|j: int|
                            0 <= j < before.len() && j != at ==> #[trigger] after[j] == before[j]
                        &&& after[at] == changed@
                        &&& changed@.id == id@
                        &&& changed@.kind == incoming.kind
                        &&& changed@.enabled == incoming.enabled
                        &&& changed@.name == maybe_text(incoming.name)
                        &&& changed@.chat_id == maybe_text(incoming.chat_id)
                        &&& changed@.to == maybe_text(incoming.to)
                        &&& changed@.bot_token == if maybe_text(incoming.bot_token) == Some(
                            "__unchanged__"@,
                        ) {
                            before[at].bot_token
                        } else {
                            maybe_text(incoming.bot_token)
                        }
                    },
                Err(_) => *final(service) == *old(service) && forall|j: int|
                    0 <= j < before.len() ==> (#[trigger] before[j]).id != id@,
            }
        }),
        final(service).state == old(service).state,
{
    let before = old(service).config@.channels;
    lemma_place_of(before, id@);
    let at = place_of(before, id@);
    if at < before.len() {
        assert(before[at].id == id@);
    }
}

/// A channel that is deleted is gone and the others stay, in their order; where there was
/// none of the id, that is said.
pub proof fn law_deleted_channel_is_not_found(
    service: &mut AlertService,
    id: &str,
    r: Result<(), String>,
)
    requires
        call_ensures(AlertService::delete_channel, (service, id), r),
    ensures
        ({
            let before = old(service).config@.channels;
            let after = final(service).config@.channels;
            &&& after == before.filter(|channel: ChannelView| channel.id != id@)
            &&& r is Ok <==> after.len() != before.len()
        }),
        final(service).state == old(service).state,
{
    law_other_channels_stay(old(service).config@.channels, id@);
}

/// A change of the configuration sets what it names and leaves everything else, and is shown
/// as it was made.
pub proof fn law_changed_config_is_shown(
    service: &mut AlertService,
    enabled: Option<bool>,
    threshold: Option<Amount>,
    poll_interval_secs: Option<u64>,
    subject_prefix: Option<Option<String>>,
    shown: AlertConfig,
)
    requires
        call_ensures(
            AlertService::update_config,
            (service, enabled, threshold, poll_interval_secs, subject_prefix),
            shown,
        ),
    ensures
        ({
            let before = old(service).config@;
            let after = final(service).config@;
            &&& shown@ == after
            &&& after.channels == before.channels
            &&& after.enabled == if enabled is Some {
                enabled->0
            } else {
                before.enabled
            }
            &&& after.threshold_remaining == if threshold is Some {
                threshold->0
            } else {
                before.threshold_remaining
            }
            &&& after.poll_interval_secs == if poll_interval_secs is Some {
                poll_interval_secs->0
            } else {
                before.poll_interval_secs
            }
            &&& match subject_prefix {
                None => after.subject_prefix == before.subject_prefix,
                Some(None) => after.subject_prefix is None,
                Some(Some(prefix)) => after.subject_prefix == if is_blank(prefix@) {
                    None
                } else {
                    Some(prefix@)
                },
            }
        }),
        final(service).state == old(service).state,
        final(service).smtp == old(service).smtp,
{
}

/// A configuration is shown as it is, each channel in its place and its token masked.
pub proof fn law_config_is_shown(
    config: &AlertConfig,
    smtp_configured: bool,
    shown: AlertConfigResponse,
    i: int,
)
    requires
        call_ensures(AlertConfigResponse::from_config, (config, smtp_configured), shown),
    ensures
        shown.enabled == config.enabled,
        shown.threshold_remaining == config.threshold_remaining,
        shown.poll_interval_secs == config.poll_interval_secs,
        maybe_text(shown.subject_prefix) == maybe_text(config.subject_prefix),
        shown.smtp_configured == smtp_configured,
        shown.channels@.len() == config.channels@.len(),
        0 <= i < config.channels@.len() ==> {
            let one = shown.channels@[i];
            let channel = config.channels@[i];
            &&& one.id@ == channel.id@
            &&& one.kind == channel.kind
            &&& one.enabled == channel.enabled
            &&& maybe_text(one.name) == maybe_text(channel.name)
            &&& maybe_text(one.chat_id) == maybe_text(channel.chat_id)
            &&& maybe_text(one.to) == maybe_text(channel.to)
            &&& one.masked_bot_token is Some <==> channel.bot_token is Some
            &&& one.masked_bot_token matches Some(text) ==> (text@ == "***"@ || text@.len() == 11)
        },
{
    reveal_strlit("...");
    if 0 <= i < config.channels@.len() {
        assert(shown.channels@[i].shows(config@.channels[i]));
        assert(config@.channels[i] == config.channels@[i]@);
    }
}

/// What an administrator sends becomes a channel as it is, enabled unless it says otherwise;
/// what is remembered and what came of a test is shown as it is.
pub proof fn law_shown_as_it_is(
    request: ChannelRequest,
    id: String,
    channel: AlertChannel,
    state: &AlertState,
    status: StatusResponse,
    results: &Vec<DeliveryResult>,
    tested: TestResponse,
    i: int,
)
    requires
        call_ensures(ChannelRequest::into_channel, (request, id), channel),
        call_ensures(StatusResponse::of, (state,), status),
        call_ensures(TestResponse::of, (results,), tested),
    ensures
        channel.id@ == id@,
        channel.kind == request.kind,
        channel.enabled == (request.enabled != Some(false)),
        maybe_text(channel.name) == maybe_text(request.name),
        maybe_text(channel.bot_token) == maybe_text(request.bot_token),
        maybe_text(channel.chat_id) == maybe_text(request.chat_id),
        maybe_text(channel.to) == maybe_text(request.to),
        status.fired == state.fired,
        status.last_total_remaining == state.last_total_remaining,
        status.last_evaluated_at == state.last_evaluated_at,
        status.last_threshold == state.last_threshold,
        tested.results@.len() == results@.len(),
        0 <= i < results@.len() ==> {
            let one = tested.results@[i];
            one.label@ == results@[i].label@ && one.ok == results@[i].ok && maybe_text(one.error)
                == maybe_text(results@[i].error)
        },
{
    assert(channel@.id == id@ && channel@.kind == request.kind);
    if 0 <= i < results@.len() {
        assert(tested.results@[i].label == results@[i].label);
    }
}

/// Mail is sent as the variables say: it needs a server and a sender, and each setting is
/// taken from its own variable.
pub proof fn law_mail_is_sent_as_the_variables_say(
    variables: &SmtpVariables,
    r: Option<SmtpSettings>,
)
    requires
        call_ensures(SmtpSettings::from_variables, (variables,), r),
    ensures
        ({
            let given = |value: Option<String>| value matches Some(text) && !is_blank(text@);
            &&& r is Some <==> given(variables.host) && given(variables.from)
            &&& r matches Some(settings) ==> {
                &&& Some(settings.host@) == maybe_text(variables.host)
                &&& Some(settings.from@) == maybe_text(variables.from)
                &&& settings.username is Some <==> given(variables.username)
                &&& settings.username is Some ==> maybe_text(settings.username) == maybe_text(
                    variables.username,
                )
                &&& settings.password is Some <==> given(variables.password)
                &&& settings.password is Some ==> maybe_text(settings.password) == maybe_text(
                    variables.password,
                )
                &&& variables.tls is None ==> settings.tls == SmtpTls::StartTls
                &&& !given(variables.port) ==> settings.port == if settings.tls
                    == SmtpTls::Implicit {
                    465u16
                } else {
                    587u16
                }
            }
        }),
{
    if let Some(settings) = r {
        assert(maybe_text(settings.username) is Some <==> settings.username is Some);
        assert(maybe_text(settings.password) is Some <==> settings.password is Some);
    }
}

/// The next look comes after the interval and a jitter of five to ten minutes.
pub proof fn law_next_look_comes_later(base: u64, r: u64)
    requires
        call_ensures(poll_delay, (base,), r),
    ensures
        base + 300 <= r <= base + 600,
{
}

/// A warning says what is left and what the threshold is, in its subject and in its body.
pub proof fn law_warning_says_what_is_left(
    config: &AlertConfig,
    summary: &EvalSummary,
    total: &str,
    threshold: &str,
    at: Moment,
    r: (String, String),
    tested: String,
)
    requires
        call_ensures(
            AlertService::build_message_parts_at,
            (config, summary, total, threshold, at),
            r,
        ),
        call_ensures(AlertService::test_subject, (config,), tested),
    ensures
        ("剩余 "@ + total@ + " 低于阈值 "@ + threshold@).is_suffix_of(r.0@),
        occurs_in(r.1@, "当前总剩余额度："@ + total@ + "\n"@),
        occurs_in(r.1@, "预警阈值："@ + threshold@ + "\n"@),
        occurs_in(r.1@, "纳入 "@ + dec(summary.included as nat) + " 个，"@),
        occurs_in(r.1@, "跳过 "@ + dec(summary.skipped_error as nat) + " 个（查询失败）"@),
        occurs_in(r.1@, "排除 "@ + dec(summary.skipped_unreportable as nat) + " 个（不可上报）"@),
        ("时间："@ + rfc3339_text(at.secs, at.nanos)).is_suffix_of(r.1@),
        config.subject_prefix matches Some(prefix) ==> (!is_blank(prefix@) ==> occurs_in(
            r.0@,
            " "@ + trimmed(prefix@) + " "@,
        ) && ("["@ + trimmed(prefix@) + "]"@).is_prefix_of(r.1@) && occurs_in(
            tested@,
            " "@ + trimmed(prefix@) + " "@,
        )),
{
    let prefix = effective_prefix(config@.subject_prefix);
    law_subject_says_what_is_left(prefix, total@, threshold@);
    law_body_says_what_was_found(
        prefix,
        total@,
        threshold@,
        *summary,
        rfc3339_text(at.secs, at.nanos),
    );
}

/// What is shown of a token is its ends, or nothing; a port and a security are the ones that
/// are written.
pub proof fn law_shown_and_read(
    token: &str,
    shown: String,
    port: u16,
    written: &str,
    read: Option<u16>,
    tls: SmtpTls,
    usual: u16,
    name: &str,
    named: SmtpTls,
)
    requires
        call_ensures(mask_token, (token,), shown),
        written@ == dec(port as nat),
        call_ensures(parse_port, (written,), read),
        call_ensures(default_port, (tls,), usual),
        call_ensures(parse_tls, (name,), named),
    ensures
        is_ascii_text(token@) && token@.len() > 12 ==> shown@.len() == 11 && shown@.take(6)
            == token@.take(6) && shown@[9] == token@[token@.len() - 2] && shown@[10]
            == token@[token@.len() - 1],
        !(is_ascii_text(token@) && token@.len() > 12) ==> shown@ == "***"@,
        read == Some(port),
        usual == if tls == SmtpTls::Implicit {
            465u16
        } else {
            587u16
        },
        named == SmtpTls::Implicit <==> lowered(name@) == "implicit"@,
        named == SmtpTls::NoTls <==> lowered(name@) == "none"@,
{
    law_what_is_shown_of_a_token(token@);
    law_port_of_mail(port, tls);
    law_security_of_mail(name@);
    if is_ascii_text(token@) && token@.len() > 12 {
        assert forall|i: int| 0 <= i < 6 implies shown@.take(6)[i] == token@.take(6)[i] by {
            assert(shown@[i] == token@[i]);
        }
        assert(shown@.take(6) =~= token@.take(6));
    }
}

/// What is decided on a look: a warning where one is due, and none twice for the same.
pub proof fn law_decided_as_due(
    state: &AlertState,
    total: Amount,
    threshold: Amount,
    rearm_level: Amount,
    mark: &str,
    r: Decision,
)
    requires
        call_ensures(decide, (state, total, threshold, rearm_level, mark), r),
    ensures
        ({
            let changed = !(state.credential_fingerprint matches Some(last) && last@ == mark@) || !(
            state.last_threshold matches Some(last) && last.is_same(threshold));
            &&& r == Decision::Fire <==> total.is_below(threshold) && (!state.fired || changed)
            &&& r == Decision::Rearm <==> state.fired && (if changed {
                !total.is_below(threshold)
            } else {
                total.is_at_least(rearm_level)
            })
        }),
{
}

/// Fingerprints of the same credentials are the same, in whatever order and however often
/// each is named.
pub proof fn law_same_credentials_same_fingerprint(a: &[u64], b: &[u64], x: String, y: String)
    requires
        forall|id: u64| a@.contains(id) <==> b@.contains(id),
        call_ensures(fingerprint, (a,), x),
        call_ensures(fingerprint, (b,), y),
    ensures
        x@ == y@,
{
    law_fingerprint_of_a_set(a@, b@);
}

} // verus!
