//! What warnings are: whom they reach, what they say, and when they are sent.

use vstd::prelude::*;

use crate::alert::config::{AlertChannel, ChannelKind, ChannelView, ConfigView};
use crate::alert::notify::{label_of, notifier_of, notifiers, Channel, DeliveryResult};
use crate::alert::service::{
    any_delivered, changed_config, effective_prefix, is_reportable, lemma_place_of, place_of,
    reportable_ids, skip_reason, successes, test_subject_of, warning_body, warning_subject,
    with_channel, with_own_id, without_channel, CredentialEntry, EvalSummary,
};
use crate::alert::smtp_settings::{
    chosen_port, chosen_tls, is_digit, lowered, number_of, port_number, set_to, unsigned_digits,
    SmtpSettings, SmtpTls,
};
use crate::alert::state::{
    after, brings_change, decision, has_changed, recorded, AlertState, Decision, RoundView,
    StateView,
};
use crate::alert::types::{is_ascii_text, masked, ChannelResponse};
use crate::amount::{Amount, INFINITY_BITS, SIGN_BIT};
use crate::rows::lemma_picked_push;
use crate::text::{
    dec, is_blank, is_white_space, law_trimmed_is_the_text_inside, maybe_text, occurs_at, occurs_in,
    trimmed,
};

verus! {

/// A warning goes where its channel says: to the chat of the channel, by the bot of the
/// channel, or to the mail address of the channel, through the mail server that is set. It
/// goes under the name of the channel.
pub proof fn law_warning_goes_where_its_channel_says(
    channel: AlertChannel,
    smtp: Option<SmtpSettings>,
    sent: Channel,
)
    requires
        notifier_of(channel@, smtp) == Some(sent@),
    ensures
        channel.enabled,
        channel.kind == ChannelKind::Telegram ==> {
            &&& channel.bot_token is Some && channel.chat_id is Some
            &&& sent matches Channel::Telegram(notifier) && notifier.bot_token@
                == channel.bot_token->0@ && notifier.chat_id@ == channel.chat_id->0@
                && notifier.label@ == label_of(channel@)
        },
        channel.kind == ChannelKind::Email ==> {
            &&& channel.to is Some
            &&& sent matches Channel::Email(notifier) && notifier.to@ == channel.to->0@ && Some(
                notifier.settings,
            ) == smtp && notifier.label@ == label_of(channel@)
        },
        match channel.name {
            Some(name) => label_of(channel@) == name@,
            None => label_of(channel@) == (if channel.kind == ChannelKind::Telegram {
                "Telegram#"@
            } else {
                "Email#"@
            }) + channel.id@,
        },
{
    reveal_strlit("Telegram");
    reveal_strlit("Email");
    reveal_strlit("#");
    reveal_strlit("Telegram#");
    reveal_strlit("Email#");
    assert("Telegram"@ + "#"@ =~= "Telegram#"@);
    assert("Email"@ + "#"@ =~= "Email#"@);
}

/// A channel that is enabled and lacks nothing is sent through.
pub proof fn law_complete_channel_is_sent_through(
    channel: AlertChannel,
    smtp: Option<SmtpSettings>,
)
    requires
        channel.enabled,
        match channel.kind {
            ChannelKind::Telegram => channel.bot_token is Some && channel.chat_id is Some,
            ChannelKind::Email => channel.to is Some && smtp is Some,
        },
    ensures
        notifier_of(channel@, smtp) is Some,
{
}

/// A warning goes through every channel that can be sent through, in their order, and
/// through no other.
pub proof fn law_every_channel_is_sent_through(
    channels: Seq<ChannelView>,
    smtp: Option<SmtpSettings>,
)
    ensures
        notifiers(channels, smtp) == channels.filter_map(
            |channel: ChannelView| notifier_of(channel, smtp),
        ),
    decreases channels.len(),
{
    let sent = |channel: ChannelView| notifier_of(channel, smtp);
    if channels.len() == 0 {
        assert(notifiers(channels, smtp) =~= channels.filter_map(sent));
    } else {
        law_every_channel_is_sent_through(channels.drop_last(), smtp);
        lemma_picked_push(channels.drop_last(), channels.last(), sent);
        assert(channels.drop_last().push(channels.last()) =~= channels);
    }
}

/// The credits of every credential are counted that is enabled and no key, in their order,
/// and of no other.
pub proof fn law_every_credential_is_counted(entries: Seq<CredentialEntry>)
    ensures
        reportable_ids(entries) == entries.filter(
            |entry: CredentialEntry|
                !entry.disabled && !(entry.auth_method matches Some(method) && method@
                    == "api_key"@),
        ).map_values(|entry: CredentialEntry| entry.id),
    decreases entries.len(),
{
    reveal(Seq::filter);
    let counted = |entry: CredentialEntry|
        !entry.disabled && !(entry.auth_method matches Some(method) && method@ == "api_key"@);
    let id = |entry: CredentialEntry| entry.id;
    if entries.len() > 0 {
        law_every_credential_is_counted(entries.drop_last());
        assert(is_reportable(entries.last()) <==> counted(entries.last()));
    }
    assert(reportable_ids(entries) =~= entries.filter(counted).map_values(id));
}

/// The answers that came are those that did.
pub proof fn law_every_answer_is_counted(outcomes: Seq<bool>)
    ensures
        successes(outcomes) == outcomes.filter(|came: bool| came).len(),
    decreases outcomes.len(),
{
    reveal(Seq::filter);
    if outcomes.len() > 0 {
        law_every_answer_is_counted(outcomes.drop_last());
    }
}

/// A look at the credits has a consequence exactly where warnings are enabled, an answer
/// came, and there are credits to count.
pub proof fn law_look_has_a_consequence(config: ConfigView, summary: EvalSummary)
    ensures
        skip_reason(config, summary) is None <==> config.enabled && !summary.all_failed
            && summary.reportable_ids@.len() > 0,
{
}

/// A warning is sent exactly where the credits are below the threshold and no warning has
/// been sent, or something has changed since. After a warning, a change or a recovery that
/// brings none makes ready for the next. Nothing else is done.
pub proof fn law_when_a_warning_is_sent(state: StateView, round: RoundView)
    ensures
        decision(state, round) == Decision::Fire <==> round.total.is_below(round.threshold) && (
        !state.fired || brings_change(state, round)),
        decision(state, round) == Decision::Rearm <==> state.fired && (if brings_change(
            state,
            round,
        ) {
            !round.total.is_below(round.threshold)
        } else {
            round.total.is_at_least(round.rearm_level)
        }),
{
}

/// Something has changed where the credentials or the threshold are not those that are
/// remembered, or where none are.
pub proof fn law_what_a_change_is(state: AlertState, threshold: Amount, fingerprint: Seq<char>)
    ensures
        has_changed(state@, threshold, fingerprint) <==> {
            ||| state.credential_fingerprint is None
            ||| state.credential_fingerprint->0@ != fingerprint
            ||| state.last_threshold is None
            ||| !state.last_threshold->0.is_same(threshold)
        },
{
}

/// After a look at the credits all that it found is remembered. A warning that was sent
/// counts where it reached somebody; what makes ready for the next one lets it be sent.
pub proof fn law_look_is_remembered(
    state: StateView,
    done: Decision,
    delivered: bool,
    total: Amount,
    threshold: Amount,
    fingerprint: Seq<char>,
    at: i64,
    kept: AlertState,
)
    requires
        kept@ == recorded(state, done, delivered, total, threshold, fingerprint, at),
    ensures
        kept.last_total_remaining == Some(total),
        kept.last_evaluated_at == Some(at),
        kept.last_threshold == Some(threshold),
        kept.credential_fingerprint matches Some(mark) && mark@ == fingerprint,
        done == Decision::Fire ==> kept.fired == delivered,
        done == Decision::Rearm ==> !kept.fired,
        done == Decision::Nothing ==> kept.fired == state.fired,
{
}

proof fn lemma_occurs(before: Seq<char>, part: Seq<char>, behind: Seq<char>)
    ensures
        occurs_in(before + part + behind, part),
{
    let all = before + part + behind;
    assert(all.subrange(before.len() as int, (before.len() + part.len()) as int) =~= part);
    assert(occurs_at(all, part, before.len() as int));
}

/// The subject of a warning says what is left and what the threshold is, in this order and
/// at its end; and the prefix, where there is one.
pub proof fn law_subject_says_what_is_left(
    prefix: Option<Seq<char>>,
    total: Seq<char>,
    threshold: Seq<char>,
)
    ensures
        ("剩余 "@ + total + " 低于阈值 "@ + threshold).is_suffix_of(
            warning_subject(prefix, total, threshold),
        ),
        prefix matches Some(name) ==> occurs_in(
            warning_subject(prefix, total, threshold),
            " "@ + name + " "@,
        ),
        prefix matches Some(name) ==> occurs_in(test_subject_of(prefix), " "@ + name + " "@),
{
    reveal_strlit("剩余 ");
    reveal_strlit(" Kiro Credit 预警：剩余 ");
    reveal_strlit("⚠️ Kiro Credit 预警：剩余 ");
    reveal_strlit(" Kiro Credit 预警测试");
    reveal_strlit("⚠️ ");
    reveal_strlit("✅ ");
    reveal_strlit(" ");
    let subject = warning_subject(prefix, total, threshold);
    let end = "剩余 "@ + total + " 低于阈值 "@ + threshold;
    assert(subject.subrange(subject.len() - end.len(), subject.len() as int) =~= end);
    if let Some(name) = prefix {
        let mark = "⚠️ "@.take("⚠️ "@.len() - 1);
        let part = " "@ + name + " "@;
        let behind = " Kiro Credit 预警：剩余 "@.skip(1) + total + " 低于阈值 "@ + threshold;
        lemma_occurs(mark, part, behind);
        assert(mark + part + behind =~= subject);
        let tested = "✅ "@.take("✅ "@.len() - 1);
        let rest = " Kiro Credit 预警测试"@.skip(1);
        lemma_occurs(tested, part, rest);
        assert(tested + part + rest =~= test_subject_of(prefix));
    }
}

/// What stands between two texts stands, with the end of the first and the start of the
/// second, in the whole.
proof fn lemma_stands_between(
    before: Seq<char>,
    first: Seq<char>,
    middle: Seq<char>,
    second: Seq<char>,
    end: Seq<char>,
    start: Seq<char>,
    all: Seq<char>,
)
    requires
        end.is_suffix_of(first),
        start.is_prefix_of(second),
        (before + first + middle + second).is_prefix_of(all),
    ensures
        occurs_in(all, end + middle + start),
{
    let front = before + first + middle + second;
    let at = before.len() + first.len() - end.len();
    let part = end + middle + start;
    let cut = first.len() - end.len();
    assert(first.subrange(cut, first.len() as int) == end);
    assert(front =~= before + first.take(cut) + part + second.skip(start.len() as int));
    assert(front.subrange(at, at + part.len()) =~= part);
    assert(all.subrange(at, at + part.len()) =~= part);
    assert(occurs_at(all, part, at));
}

/// The front of the front of a text is a front of the text.
proof fn lemma_goes_before(front: Seq<char>, next: Seq<char>, all: Seq<char>)
    requires
        (front + next).is_prefix_of(all),
    ensures
        front.is_prefix_of(all),
{
    assert((front + next).take(front.len() as int) =~= front);
    assert(all.subrange(0, front.len() as int) =~= front);
}

proof fn lemma_whole(s: Seq<char>)
    ensures
        s.is_suffix_of(s),
{
    assert(s.subrange(0, s.len() as int) =~= s);
}

/// A text ends in the end of what stands before its last part, and in that part.
proof fn lemma_ends(before: Seq<char>, first: Seq<char>, last: Seq<char>, end: Seq<char>)
    requires
        end.is_suffix_of(first),
    ensures
        (end + last).is_suffix_of(before + first + last),
{
    let all = before + first + last;
    let cut = first.len() - end.len();
    assert(first.subrange(cut, first.len() as int) == end);
    assert(first =~= first.take(cut) + end);
    assert(all.subrange(all.len() - (end + last).len(), all.len() as int) =~= end + last);
}

/// How the words of a body begin and end.
proof fn lemma_words_of_a_body()
    ensures
        "\n"@.is_prefix_of("\n预警阈值："@),
        "预警阈值："@.is_suffix_of("\n预警阈值："@),
        "\n"@.is_prefix_of("\n统计凭据：纳入 "@),
        "纳入 "@.is_suffix_of("\n统计凭据：纳入 "@),
        " 个，"@.is_prefix_of(" 个，跳过 "@),
        "跳过 "@.is_suffix_of(" 个，跳过 "@),
        " 个（查询失败）"@.is_prefix_of(" 个（查询失败），排除 "@),
        "排除 "@.is_suffix_of(" 个（查询失败），排除 "@),
        " 个（不可上报）"@.is_prefix_of(" 个（不可上报）\n时间："@),
        "时间："@.is_suffix_of(" 个（不可上报）\n时间："@),
        "]"@.is_prefix_of("] "@),
        ""@ == Seq::<char>::empty(),
{
    reveal_strlit("\n预警阈值：");
    reveal_strlit("预警阈值：");
    reveal_strlit("\n");
    reveal_strlit("\n统计凭据：纳入 ");
    reveal_strlit("纳入 ");
    reveal_strlit(" 个，跳过 ");
    reveal_strlit(" 个，");
    reveal_strlit("跳过 ");
    reveal_strlit(" 个（查询失败），排除 ");
    reveal_strlit(" 个（查询失败）");
    reveal_strlit("排除 ");
    reveal_strlit(" 个（不可上报）\n时间：");
    reveal_strlit(" 个（不可上报）");
    reveal_strlit("时间：");
    reveal_strlit("] ");
    reveal_strlit("]");
    reveal_strlit("");
    assert(""@ =~= Seq::<char>::empty());
}

/// The body of a warning says what is left, what the threshold is, how many credentials were
/// counted, how many did not answer and how many are not counted, and when.
pub proof fn law_body_says_what_was_found(
    prefix: Option<Seq<char>>,
    total: Seq<char>,
    threshold: Seq<char>,
    summary: EvalSummary,
    time: Seq<char>,
)
    ensures
        ({
            let body = warning_body(prefix, total, threshold, summary, time);
            &&& occurs_in(body, "当前总剩余额度："@ + total + "\n"@)
            &&& occurs_in(body, "预警阈值："@ + threshold + "\n"@)
            &&& occurs_in(body, "纳入 "@ + dec(summary.included as nat) + " 个，"@)
            &&& occurs_in(body, "跳过 "@ + dec(summary.skipped_error as nat) + " 个（查询失败）"@)
            &&& occurs_in(
                body,
                "排除 "@ + dec(summary.skipped_unreportable as nat) + " 个（不可上报）"@,
            )
            &&& ("时间："@ + time).is_suffix_of(body)
            &&& prefix matches Some(name) ==> ("["@ + name + "]"@).is_prefix_of(body)
        }),
{
    lemma_words_of_a_body();
    let included = dec(summary.included as nat);
    let silent = dec(summary.skipped_error as nat);
    let left_out = dec(summary.skipped_unreportable as nat);
    let body = warning_body(prefix, total, threshold, summary, time);
    let head = match prefix {
        Some(name) => "["@ + name + "] "@,
        None => ""@,
    };
    let v = "当前总剩余额度："@;
    let w = "\n预警阈值："@;
    let x = "\n统计凭据：纳入 "@;
    let y = " 个，跳过 "@;
    let z = " 个（查询失败），排除 "@;
    let last = " 个（不可上报）\n时间："@;
    let a = head + v + total;
    let b = a + w + threshold;
    let c = b + x + included;
    let d = c + y + silent;
    let e = d + z + left_out;
    let f = e + last + time;
    assert(body == f);
    lemma_goes_before(e + last, time, f);
    lemma_goes_before(e, last, f);
    lemma_goes_before(d + z, left_out, f);
    lemma_goes_before(d, z, f);
    lemma_goes_before(c + y, silent, f);
    lemma_goes_before(c, y, f);
    lemma_goes_before(b + x, included, f);
    lemma_goes_before(b, x, f);
    lemma_goes_before(a + w, threshold, f);
    lemma_goes_before(a, w, f);
    lemma_goes_before(head + v, total, f);
    lemma_goes_before(head, v, f);
    lemma_whole(v);
    lemma_stands_between(head, v, total, w, v, "\n"@, f);
    lemma_stands_between(a, w, threshold, x, "预警阈值："@, "\n"@, f);
    lemma_stands_between(b, x, included, y, "纳入 "@, " 个，"@, f);
    lemma_stands_between(c, y, silent, z, "跳过 "@, " 个（查询失败）"@, f);
    lemma_stands_between(d, z, left_out, last, "排除 "@, " 个（不可上报）"@, f);
    lemma_ends(e, last, time, "时间："@);
    if let Some(name) = prefix {
        let open = "["@ + name + "]"@;
        assert(open.is_prefix_of(head));
    }
}

/// A prefix is used without the white space around it, and only where there is more to it.
pub proof fn law_prefix_is_trimmed(prefix: Option<Seq<char>>)
    ensures
        match effective_prefix(prefix) {
            Some(used) => prefix matches Some(given) && used == trimmed(given) && used.len() > 0,
            None => prefix matches Some(given) ==> forall|i: int|
                0 <= i < given.len() ==> is_white_space(#[trigger] given[i]),
        },
{
    if let Some(given) = prefix {
        law_trimmed_is_the_text_inside(given);
    }
}

/// A change of the configuration sets what it names and leaves everything else; the channels
/// are never touched. A prefix that is blank takes the prefix away.
pub proof fn law_change_sets_what_it_names(
    config: ConfigView,
    enabled: Option<bool>,
    threshold: Option<Amount>,
    poll_interval_secs: Option<u64>,
    subject_prefix: Option<Option<Seq<char>>>,
)
    ensures
        ({
            let new = changed_config(
                config,
                enabled,
                threshold,
                poll_interval_secs,
                subject_prefix,
            );
            &&& enabled is Some ==> Some(new.enabled) == enabled
            &&& enabled is None ==> new.enabled == config.enabled
            &&& threshold is Some ==> Some(new.threshold_remaining) == threshold
            &&& threshold is None ==> new.threshold_remaining == config.threshold_remaining
            &&& poll_interval_secs is Some ==> Some(new.poll_interval_secs) == poll_interval_secs
            &&& poll_interval_secs is None ==> new.poll_interval_secs == config.poll_interval_secs
            &&& subject_prefix is None ==> new.subject_prefix == config.subject_prefix
            &&& subject_prefix == Some(None::<Seq<char>>) ==> new.subject_prefix is None
            &&& subject_prefix matches Some(Some(prefix)) ==> new.subject_prefix == (if is_blank(
                prefix,
            ) {
                None
            } else {
                Some(prefix)
            })
            &&& new.channels == config.channels
        }),
{
}

/// A channel that is added or changed is the one that was sent, but for its id and for a
/// token that is to stay as it is.
pub proof fn law_channel_is_kept_as_sent(
    channels: Seq<ChannelView>,
    id: Seq<char>,
    incoming: ChannelView,
)
    ensures
        ({
            let added = with_own_id(incoming, id);
            &&& added.id == if is_blank(incoming.id) {
                id
            } else {
                incoming.id
            }
            &&& same_but_id_and_token(added, incoming)
            &&& added.bot_token == incoming.bot_token
        }),
        place_of(channels, id) < channels.len() ==> {
            let at = place_of(channels, id);
            let changed = with_channel(channels, id, incoming)[at];
            &&& changed.id == id
            &&& same_but_id_and_token(changed, incoming)
            &&& changed.bot_token == if incoming.bot_token == Some("__unchanged__"@) {
                channels[at].bot_token
            } else {
                incoming.bot_token
            }
        },
{
    lemma_place_of(channels, id);
}

/// Two channels that differ in their ids and tokens at most.
pub open spec fn same_but_id_and_token(a: ChannelView, b: ChannelView) -> bool {
    &&& a.kind == b.kind
    &&& a.enabled == b.enabled
    &&& a.name == b.name
    &&& a.chat_id == b.chat_id
    &&& a.to == b.to
}

/// The first channel of an id is the one that is changed.
pub proof fn law_first_channel_is_changed(channels: Seq<ChannelView>, id: Seq<char>, at: int)
    requires
        0 <= at < channels.len(),
        channels[at].id == id,
        forall|j: int| 0 <= j < at ==> (#[trigger] channels[j]).id != id,
    ensures
        place_of(channels, id) == at,
{
    lemma_place_of(channels, id);
}

/// What is left after a channel was deleted are the channels of other ids, in their order.
pub proof fn law_other_channels_stay(channels: Seq<ChannelView>, id: Seq<char>)
    ensures
        without_channel(channels, id) == channels.filter(|channel: ChannelView| channel.id != id),
    decreases channels.len(),
{
    reveal(Seq::filter);
    if channels.len() > 0 {
        law_other_channels_stay(channels.drop_last(), id);
    } else {
        assert(without_channel(channels, id) =~= channels.filter(
            |channel: ChannelView| channel.id != id,
        ));
    }
}

/// A long token is shown by its first six and its last two characters, any other not at all.
pub proof fn law_what_is_shown_of_a_token(token: Seq<char>)
    ensures
        is_ascii_text(token) && token.len() > 12 ==> {
            let shown = masked(token);
            &&& shown.len() == 11
            &&& forall|i: int| 0 <= i < 6 ==> #[trigger] shown[i] == token[i]
            &&& forall|i: int| 6 <= i < 9 ==> #[trigger] shown[i] == '.'
            &&& shown[9] == token[token.len() - 2]
            &&& shown[10] == token[token.len() - 1]
        },
        !(is_ascii_text(token) && token.len() > 12) ==> masked(token) == "***"@,
{
    reveal_strlit("...");
}

/// A channel is shown as it is, but for its token, which is masked.
pub proof fn law_channel_is_shown(channel: AlertChannel, shown: ChannelResponse)
    requires
        shown.shows(channel@),
    ensures
        shown.id@ == channel.id@,
        shown.kind == channel.kind,
        shown.enabled == channel.enabled,
        maybe_text(shown.name) == maybe_text(channel.name),
        maybe_text(shown.chat_id) == maybe_text(channel.chat_id),
        maybe_text(shown.to) == maybe_text(channel.to),
        match channel.bot_token {
            Some(token) => shown.masked_bot_token matches Some(text) && text@ == masked(token@),
            None => shown.masked_bot_token is None,
        },
{
}

/// A number in decimal stands for the number.
pub proof fn law_decimal_stands_for_its_number(n: nat)
    ensures
        number_of(dec(n)) == n,
        dec(n).len() > 0,
        forall|i: int| 0 <= i < dec(n).len() ==> is_digit(#[trigger] dec(n)[i]),
    decreases n,
{
    if n >= 10 {
        law_decimal_stands_for_its_number(n / 10);
        assert(dec(n).drop_last() =~= dec(n / 10));
    } else {
        assert(dec(n).drop_last() =~= Seq::<char>::empty());
        assert(number_of(Seq::<char>::empty()) == 0);
    }
}

/// A port that is set is used; where none is set, or none that there is, mail goes to port
/// 465 over a connection that is secured from the start, and to 587 over any other.
pub proof fn law_port_of_mail(port: u16, tls: SmtpTls)
    ensures
        port_number(dec(port as nat)) == Some(port),
        port_number("+"@ + dec(port as nat)) == Some(port),
        chosen_port(Some(dec(port as nat)), tls) == port,
        chosen_port(None, tls) == if tls == SmtpTls::Implicit {
            465u16
        } else {
            587u16
        },
{
    let digits = dec(port as nat);
    law_decimal_stands_for_its_number(port as nat);
    reveal_strlit("+");
    assert(is_digit(digits[0]));
    assert(unsigned_digits("+"@ + digits) =~= digits);
    law_trimmed_is_the_text_inside(digits);
    assert(!is_white_space(digits[0]));
}

/// A connection is secured as its name says, however the name is written; where nothing is
/// said, or something else, it is secured once it stands.
pub proof fn law_security_of_mail(name: Seq<char>)
    ensures
        chosen_tls(None) == SmtpTls::StartTls,
        chosen_tls(Some(name)) == SmtpTls::Implicit <==> lowered(name) == "implicit"@,
        chosen_tls(Some(name)) == SmtpTls::NoTls <==> lowered(name) == "none"@,
{
    reveal_strlit("implicit");
    reveal_strlit("none");
    assert("implicit"@.len() == 8 && "none"@.len() == 4);
}

/// A variable counts as set where it is more than white space, and then to what it says.
pub proof fn law_variable_is_set(value: Seq<char>)
    ensures
        set_to(Some(value)) == (if forall|i: int|
            0 <= i < value.len() ==> is_white_space(#[trigger] value[i]) {
            None
        } else {
            Some(value)
        }),
        set_to(None) is None,
{
    law_trimmed_is_the_text_inside(value);
}

/// Of two numbers exactly one holds: one is below the other, the other below it, or they are
/// the same; and being at least another is not being below it. What is no number compares
/// with nothing.
pub proof fn law_amounts_are_ordered(a: Amount, b: Amount)
    ensures
        !a.is_nan() && !b.is_nan() ==> {
            &&& a.is_at_least(b) <==> !a.is_below(b)
            &&& a.is_same(b) <==> !a.is_below(b) && !b.is_below(a)
            &&& !(a.is_below(b) && b.is_below(a))
        },
        a.is_nan() || b.is_nan() ==> !a.is_below(b) && !a.is_at_least(b) && !a.is_same(b),
        a.bits <= INFINITY_BITS && b.bits <= INFINITY_BITS ==> (a.is_below(b) <==> a.bits < b.bits),
        SIGN_BIT < a.bits <= SIGN_BIT + INFINITY_BITS && b.bits <= INFINITY_BITS ==> a.is_below(b),
        SIGN_BIT <= a.bits <= SIGN_BIT + INFINITY_BITS && SIGN_BIT <= b.bits <= SIGN_BIT
            + INFINITY_BITS ==> (a.is_below(b) <==> a.bits > b.bits),
{
}

/// A warning has reached somebody where one more channel delivered it, or an earlier one
/// did; before it was sent it has reached nobody.
pub proof fn law_one_delivery_is_enough(results: Seq<DeliveryResult>, result: DeliveryResult)
    ensures
        !any_delivered(Seq::empty()),
        any_delivered(results.push(result)) <==> any_delivered(results) || result.ok,
{
    let longer = results.push(result);
    assert(longer[results.len() as int] == result);
    if any_delivered(results) {
        let i = choose|i: int| 0 <= i < results.len() && (#[trigger] results[i]).ok;
        assert(longer[i].ok);
    }
    if any_delivered(longer) {
        let i = choose|i: int| 0 <= i < longer.len() && (#[trigger] longer[i]).ok;
        if i < results.len() {
            assert(results[i].ok);
        }
    }
}

} // verus!
