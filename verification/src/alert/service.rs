//! The configuration and the state of warnings, and what an administrator and a look at the
//! credits do to them.

use vstd::prelude::*;

use crate::alert::config::{channels_view, AlertChannel, AlertConfig, ChannelView, ConfigView};
use crate::alert::notify::DeliveryResult;
use crate::alert::smtp_settings::SmtpSettings;
use crate::alert::state::{
    decide, fingerprint, fingerprint_of, judged, recorded, AlertState, Decision,
};
use crate::amount::Amount;
use crate::clock::{now, rfc3339, rfc3339_text, Moment, LAST_SECOND};
use crate::ids::{fresh_uuid, is_hex_digit, is_hyphen_place, is_uuid};
use crate::text::{
    blank, copy_maybe, dec, decimal, is_blank, join2, join3, maybe_text, same, trim, trimmed,
};

verus! {

/// What a test says.
pub const TEST_BODY: &'static str = "这是一条测试消息，配置生效。";

/// A credential, as far as it matters whether its credits are counted.
#[derive(Debug)]
pub struct CredentialEntry {
    pub id: u64,
    pub disabled: bool,
    pub auth_method: Option<String>,
}

/// What a look at the credits found.
#[derive(Debug)]
pub struct EvalSummary {
    pub total: Amount,
    pub included: usize,
    pub skipped_error: usize,
    pub skipped_unreportable: usize,
    pub all_failed: bool,
    pub reportable_ids: Vec<u64>,
}

/// Whether the credits of a credential are counted: it is not disabled, and not a key,
/// whose credits are not known.
pub open spec fn is_reportable(entry: CredentialEntry) -> bool {
    !entry.disabled && maybe_text(entry.auth_method) != Some("api_key"@)
}

/// The credentials whose credits are counted, in their order.
pub open spec fn reportable_ids(entries: Seq<CredentialEntry>) -> Seq<u64>
    decreases entries.len(),
{
    if entries.len() == 0 {
        Seq::empty()
    } else {
        let front = reportable_ids(entries.drop_last());
        if is_reportable(entries.last()) {
            front.push(entries.last().id)
        } else {
            front
        }
    }
}

/// How many of a row of answers came.
pub open spec fn successes(outcomes: Seq<bool>) -> nat
    decreases outcomes.len(),
{
    if outcomes.len() == 0 {
        0
    } else {
        successes(outcomes.drop_last()) + if outcomes.last() {
            1nat
        } else {
            0nat
        }
    }
}

/// Why a look at the credits is left without consequence.
#[derive(Debug, Clone, Copy, PartialEq, Eq, Structural)]
pub enum Skip {
    /// Warnings are disabled.
    Disabled,
    /// No answer came.
    AllFailed,
    /// There are no credits to count.
    NothingReportable,
}

/// What a look at the credits leads to.
#[derive(Debug)]
pub enum Round {
    /// Nothing, not even a change of what is remembered.
    Skipped(Skip),
    /// A decision, for the credentials of a fingerprint.
    Judged { decision: Decision, fingerprint: String },
}

/// Why a look at the credits is left without consequence, where it is.
pub open spec fn skip_reason(config: ConfigView, summary: EvalSummary) -> Option<Skip> {
    if !config.enabled {
        Some(Skip::Disabled)
    } else if summary.all_failed {
        Some(Skip::AllFailed)
    } else if summary.reportable_ids@.len() == 0 {
        Some(Skip::NothingReportable)
    } else {
        None
    }
}

/// A warning reached somebody.
pub open spec fn any_delivered(results: Seq<DeliveryResult>) -> bool {
    exists|i: int| 0 <= i < results.len() && (#[trigger] results[i]).ok
}

/// The prefix of a subject, where it is more than white space.
pub open spec fn effective_prefix(prefix: Option<Seq<char>>) -> Option<Seq<char>> {
    match prefix {
        Some(prefix) if !is_blank(prefix) => Some(trimmed(prefix)),
        _ => None,
    }
}

/// The subject of a warning, the amounts given as texts.
pub open spec fn warning_subject(
    prefix: Option<Seq<char>>,
    total: Seq<char>,
    threshold: Seq<char>,
) -> Seq<char> {
    (match prefix {
        Some(prefix) => "⚠️ "@ + prefix + " Kiro Credit 预警：剩余 "@,
        None => "⚠️ Kiro Credit 预警：剩余 "@,
    }) + total + " 低于阈值 "@ + threshold
}

/// The body of a warning, the amounts and the time given as texts.
pub open spec fn warning_body(
    prefix: Option<Seq<char>>,
    total: Seq<char>,
    threshold: Seq<char>,
    summary: EvalSummary,
    time: Seq<char>,
) -> Seq<char> {
    (match prefix {
        Some(prefix) => "["@ + prefix + "] "@,
        None => ""@,
    }) + "当前总剩余额度："@ + total + "\n预警阈值："@ + threshold + "\n统计凭据：纳入 "@ + dec(
        summary.included as nat,
    ) + " 个，跳过 "@ + dec(summary.skipped_error as nat) + " 个（查询失败），排除 "@ + dec(
        summary.skipped_unreportable as nat,
    ) + " 个（不可上报）\n时间："@ + time
}

/// The subject of a test.
pub open spec fn test_subject_of(prefix: Option<Seq<char>>) -> Seq<char> {
    match prefix {
        Some(prefix) => "✅ "@ + prefix + " Kiro Credit 预警测试"@,
        None => "✅ Kiro Credit 预警测试"@,
    }
}

/// A prefix of nothing but white space is no prefix.
pub proof fn law_blank_prefix_is_none(prefix: Seq<char>)
    requires
        is_blank(prefix),
    ensures
        effective_prefix(Some(prefix)) == effective_prefix(None),
{
}

/// A configuration with a change.
pub open spec fn changed_config(
    config: ConfigView,
    enabled: Option<bool>,
    threshold: Option<Amount>,
    poll_interval_secs: Option<u64>,
    subject_prefix: Option<Option<Seq<char>>>,
) -> ConfigView {
    ConfigView {
        enabled: match enabled {
            Some(enabled) => enabled,
            None => config.enabled,
        },
        threshold_remaining: match threshold {
            Some(threshold) => threshold,
            None => config.threshold_remaining,
        },
        poll_interval_secs: match poll_interval_secs {
            Some(seconds) => seconds,
            None => config.poll_interval_secs,
        },
        subject_prefix: match subject_prefix {
            Some(Some(prefix)) => if is_blank(prefix) {
                None
            } else {
                Some(prefix)
            },
            Some(None) => None,
            None => config.subject_prefix,
        },
        channels: config.channels,
    }
}

/// A prefix that may be missing, in a change that may not speak of it, as plain values.
pub open spec fn prefix_change(change: Option<Option<String>>) -> Option<Option<Seq<char>>> {
    match change {
        Some(prefix) => Some(maybe_text(prefix)),
        None => None,
    }
}

/// A channel as it was sent, with the token that is kept where the placeholder for it came
/// back.
pub open spec fn merged(incoming: ChannelView, original: ChannelView) -> ChannelView {
    if incoming.bot_token == Some(AlertService::MASK_PLACEHOLDER@) {
        ChannelView { bot_token: original.bot_token, ..incoming }
    } else {
        incoming
    }
}

/// A channel under an id of its own where it came with none.
pub open spec fn with_own_id(channel: ChannelView, id: Seq<char>) -> ChannelView {
    if is_blank(channel.id) {
        ChannelView { id, ..channel }
    } else {
        channel
    }
}

/// Where the first channel of an id stands; behind all channels where there is none.
pub open spec fn place_of(channels: Seq<ChannelView>, id: Seq<char>) -> int
    decreases channels.len(),
{
    if channels.len() == 0 || channels[0].id == id {
        0
    } else {
        1 + place_of(channels.drop_first(), id)
    }
}

/// The channels with the first one of an id replaced by what was sent, under the same id.
pub open spec fn with_channel(
    channels: Seq<ChannelView>,
    id: Seq<char>,
    incoming: ChannelView,
) -> Seq<ChannelView> {
    let at = place_of(channels, id);
    channels.update(at, ChannelView { id, ..merged(incoming, channels[at]) })
}

/// The channels without those of an id.
pub open spec fn without_channel(channels: Seq<ChannelView>, id: Seq<char>) -> Seq<ChannelView>
    decreases channels.len(),
{
    if channels.len() == 0 {
        Seq::empty()
    } else {
        let front = without_channel(channels.drop_last(), id);
        if channels.last().id == id {
            front
        } else {
            front.push(channels.last())
        }
    }
}

/// What is known of `place_of`.
pub proof fn lemma_place_of(channels: Seq<ChannelView>, id: Seq<char>)
    ensures
        0 <= place_of(channels, id) <= channels.len(),
        forall|j: int| 0 <= j < place_of(channels, id) ==> (#[trigger] channels[j]).id != id,
        place_of(channels, id) < channels.len() ==> channels[place_of(channels, id)].id == id,
    decreases channels.len(),
{
    if channels.len() > 0 && channels[0].id != id {
        let rest = channels.drop_first();
        lemma_place_of(rest, id);
        assert forall|j: int| 0 <= j < place_of(channels, id) implies (
        #[trigger] channels[j]).id != id by {
            if j > 0 {
                assert(channels[j] == rest[j - 1]);
            }
        }
    }
}

/// A placeholder that comes back for a token leaves the token as it is; anything else
/// takes its place.
pub proof fn law_placeholder_keeps_the_token(incoming: ChannelView, original: ChannelView)
    ensures
        incoming.bot_token == Some(AlertService::MASK_PLACEHOLDER@) ==> merged(incoming, original).bot_token
            == original.bot_token,
        incoming.bot_token != Some(AlertService::MASK_PLACEHOLDER@) ==> merged(incoming, original).bot_token
            == incoming.bot_token,
{
}

/// A change of a channel keeps its id and its place, and leaves every other channel as it
/// is.
pub proof fn law_change_of_a_channel(
    channels: Seq<ChannelView>,
    id: Seq<char>,
    incoming: ChannelView,
)
    requires
        place_of(channels, id) < channels.len(),
    ensures
        with_channel(channels, id, incoming).len() == channels.len(),
        forall|i: int|
            0 <= i < channels.len() ==> (#[trigger] with_channel(channels, id, incoming)[i]).id
                == channels[i].id,
        forall|i: int|
            0 <= i < channels.len() && i != place_of(channels, id) ==> #[trigger] with_channel(
                channels,
                id,
                incoming,
            )[i] == channels[i],
{
    lemma_place_of(channels, id);
}

/// A channel that was deleted is gone, and no other is.
pub proof fn law_deleted_channel_is_gone(
    channels: Seq<ChannelView>,
    id: Seq<char>,
    channel: ChannelView,
)
    ensures
        without_channel(channels, id).contains(channel) <==> channels.contains(channel)
            && channel.id != id,
    decreases channels.len(),
{
    let left = without_channel(channels, id);
    if channels.len() > 0 {
        let rest = channels.drop_last();
        let front = without_channel(rest, id);
        law_deleted_channel_is_gone(rest, id, channel);
        if channels.contains(channel) {
            let i = choose|i: int| 0 <= i < channels.len() && channels[i] == channel;
            if i < rest.len() {
                assert(rest[i] == channel);
            }
        }
        if rest.contains(channel) {
            let i = choose|i: int| 0 <= i < rest.len() && rest[i] == channel;
            assert(channels[i] == channel);
        }
        if front.contains(channel) {
            let i = choose|i: int| 0 <= i < front.len() && front[i] == channel;
            assert(left[i] == channel);
        }
        if left.contains(channel) {
            let i = choose|i: int| 0 <= i < left.len() && left[i] == channel;
            if i < front.len() {
                assert(front[i] == channel);
            }
        }
        if channels.last().id != id {
            assert(left[front.len() as int] == channels.last());
        }
        assert(channels[channels.len() - 1] == channels.last());
    }
}

/// A UUID is more than white space.
proof fn lemma_uuid_is_not_blank(id: Seq<char>)
    requires
        is_uuid(id),
    ensures
        !is_blank(id),
{
    assert(!is_hyphen_place(0) && !is_hyphen_place(35));
    assert(is_hex_digit(id[0]) && is_hex_digit(id[35]));
    assert(trimmed(id) == id);
}

/// The credentials whose credits are counted, in their order.
pub fn reportable(entries: &Vec<CredentialEntry>) -> (r: Vec<u64>)
    ensures
        r@ == reportable_ids(entries@),
        r@.len() <= entries@.len(),
{
    let mut ids: Vec<u64> = Vec::new();
    for i in 0..entries.len()
        invariant
            ids@ == reportable_ids(entries@.take(i as int)),
            ids@.len() <= i,
    {
        assert(entries@.take(i + 1).drop_last() =~= entries@.take(i as int));
        let key = match &entries[i].auth_method {
            Some(method) => same(method.as_str(), "api_key"),
            None => false,
        };
        if !entries[i].disabled && !key {
            ids.push(entries[i].id);
        }
    }
    assert(entries@.take(entries@.len() as int) =~= entries@);
    ids
}

/// What a look at the credits found: for each credential whose credits are counted, whether
/// an answer came, and the sum of what is left.
pub fn summarize(entries: &Vec<CredentialEntry>, outcomes: &Vec<bool>, total: Amount) -> (r:
    EvalSummary)
    requires
        outcomes@.len() == reportable_ids(entries@).len(),
    ensures
        r.total == total,
        r.reportable_ids@ == reportable_ids(entries@),
        r.included == successes(outcomes@),
        r.skipped_error == outcomes@.len() - successes(outcomes@),
        r.skipped_unreportable == entries@.len() - reportable_ids(entries@).len(),
        r.all_failed == (outcomes@.len() > 0 && successes(outcomes@) == 0),
        r.included + r.skipped_error + r.skipped_unreportable == entries@.len(),
{
    let ids = reportable(entries);
    let mut included: usize = 0;
    let mut skipped_error: usize = 0;
    for i in 0..outcomes.len()
        invariant
            included + skipped_error == i,
            included == successes(outcomes@.take(i as int)),
    {
        assert(outcomes@.take(i + 1).drop_last() =~= outcomes@.take(i as int));
        if outcomes[i] {
            included = included + 1;
        } else {
            skipped_error = skipped_error + 1;
        }
    }
    assert(outcomes@.take(outcomes@.len() as int) =~= outcomes@);
    let skipped_unreportable: usize = entries.len() - ids.len();
    EvalSummary {
        total,
        included,
        skipped_error,
        skipped_unreportable,
        all_failed: ids.len() > 0 && included == 0,
        reportable_ids: ids,
    }
}

/// What a look at the credits leads to, under a configuration and with what is remembered.
pub fn judge(
    config: &AlertConfig,
    state: &AlertState,
    summary: &EvalSummary,
    rearm_level: Amount,
) -> (r: Round)
    ensures
        match skip_reason(config@, *summary) {
            Some(reason) => r == Round::Skipped(reason),
            None => r matches Round::Judged { decision: done, fingerprint: mark } && mark@
                == fingerprint_of(summary.reportable_ids@.to_set()) && done == judged(
                state@,
                summary.total,
                config.threshold_remaining,
                rearm_level,
                mark@,
            ),
        },
{
    if !config.enabled {
        return Round::Skipped(Skip::Disabled);
    }
    if summary.all_failed {
        return Round::Skipped(Skip::AllFailed);
    }
    if summary.reportable_ids.len() == 0 {
        return Round::Skipped(Skip::NothingReportable);
    }
    let mark = fingerprint(summary.reportable_ids.as_slice());
    let done = decide(
        state,
        summary.total,
        config.threshold_remaining,
        rearm_level,
        mark.as_str(),
    );
    Round::Judged { decision: done, fingerprint: mark }
}

/// Whether a warning reached somebody.
pub fn delivered(results: &Vec<DeliveryResult>) -> (r: bool)
    ensures
        r == any_delivered(results@),
{
    for i in 0..results.len()
        invariant
            forall|j: int| 0 <= j < i ==> !(#[trigger] results@[j]).ok,
    {
        if results[i].ok {
            return true;
        }
    }
    false
}

/// The prefix of a subject, where it is more than white space.
fn prefix_of(config: &AlertConfig) -> (r: Option<String>)
    ensures
        maybe_text(r) == effective_prefix(config@.subject_prefix),
{
    match &config.subject_prefix {
        Some(prefix) => {
            let plain = trim(prefix.as_str());
            if plain.is_empty() {
                None
            } else {
                Some(plain.to_owned())
            }
        },
        None => None,
    }
}

/// The configuration and the state of warnings.
#[derive(Debug)]
pub struct AlertService {
    pub config: AlertConfig,
    pub state: AlertState,
    pub smtp: Option<SmtpSettings>,
}

impl AlertService {
    /// What stands for a token that is to stay as it is.
    pub const MASK_PLACEHOLDER: &'static str = "__unchanged__";

    /// Warnings with what was kept of them.
    pub fn new(config: AlertConfig, state: AlertState, smtp: Option<SmtpSettings>) -> (r:
        AlertService)
        ensures
            r.config == config,
            r.state == state,
            r.smtp == smtp,
    {
        AlertService { config, state, smtp }
    }

    /// The configuration.
    pub fn config_snapshot(&self) -> (r: AlertConfig)
        ensures
            r@ == self.config@,
            r.channels@ == self.config.channels@,
    {
        self.config.clone()
    }

    /// What is remembered.
    pub fn state_snapshot(&self) -> (r: AlertState)
        ensures
            r == self.state,
    {
        self.state.clone()
    }

    /// A channel as it was sent, with the token that is kept where the placeholder for it
    /// came back.
    pub fn merge_channel_secrets(incoming: AlertChannel, original: &AlertChannel) -> (r:
        AlertChannel)
        ensures
            r@ == merged(incoming@, original@),
    {
        let unchanged = match &incoming.bot_token {
            Some(token) => same(token.as_str(), Self::MASK_PLACEHOLDER),
            None => false,
        };
        if unchanged {
            AlertChannel { bot_token: copy_maybe(&original.bot_token), ..incoming }
        } else {
            incoming
        }
    }

    /// Changes the configuration.
    pub fn update_config(
        &mut self,
        enabled: Option<bool>,
        threshold: Option<Amount>,
        poll_interval_secs: Option<u64>,
        subject_prefix: Option<Option<String>>,
    ) -> (r: AlertConfig)
        ensures
            final(self).config@ == changed_config(
                old(self).config@,
                enabled,
                threshold,
                poll_interval_secs,
                prefix_change(subject_prefix),
            ),
            r@ == final(self).config@,
            final(self).state == old(self).state,
            final(self).smtp == old(self).smtp,
    {
        if let Some(enabled) = enabled {
            self.config.enabled = enabled;
        }
        if let Some(threshold) = threshold {
            self.config.threshold_remaining = threshold;
        }
        if let Some(seconds) = poll_interval_secs {
            self.config.poll_interval_secs = seconds;
        }
        if let Some(prefix) = subject_prefix {
            self.config.subject_prefix = match prefix {
                Some(prefix) => if blank(prefix.as_str()) {
                    None
                } else {
                    Some(prefix)
                },
                None => None,
            };
        }
        self.config_snapshot()
    }

    /// Adds a channel, under a given id where it came with none.
    pub fn add_channel_with(&mut self, channel: AlertChannel, id: String) -> (r: AlertChannel)
        ensures
            r@ == with_own_id(channel@, id@),
            final(self).config@ == (ConfigView {
                channels: old(self).config@.channels.push(with_own_id(channel@, id@)),
                ..old(self).config@
            }),
            final(self).state == old(self).state,
            final(self).smtp == old(self).smtp,
    {
        let channel = if blank(channel.id.as_str()) {
            AlertChannel { id, ..channel }
        } else {
            channel
        };
        let added = channel.clone();
        self.config.channels.push(channel);
        assert(self.config@.channels =~= old(self).config@.channels.push(added@));
        added
    }

    /// Adds a channel, under an id of its own where it came with none.
    pub fn add_channel(&mut self, channel: AlertChannel) -> (r: AlertChannel)
        ensures
            exists|id: Seq<char>|
                is_uuid(id) && r@ == #[trigger] with_own_id(channel@, id),
            !is_blank(r@.id),
            final(self).config@ == (ConfigView {
                channels: old(self).config@.channels.push(r@),
                ..old(self).config@
            }),
            final(self).state == old(self).state,
            final(self).smtp == old(self).smtp,
    {
        let id = fresh_uuid();
        proof {
            lemma_uuid_is_not_blank(id@);
        }
        self.add_channel_with(channel, id)
    }

    /// Where the first channel of an id stands; behind all channels where there is none.
    fn channel_place(&self, id: &str) -> (r: usize)
        ensures
            r == place_of(self.config@.channels, id@),
    {
        let ghost all = self.config@.channels;
        for i in 0..self.config.channels.len()
            invariant
                all == channels_view(self.config.channels@),
                forall|j: int| 0 <= j < i ==> (#[trigger] all[j]).id != id@,
        {
            assert(all[i as int].id == self.config.channels@[i as int].id@);
            if same(self.config.channels[i].id.as_str(), id) {
                proof {
                    lemma_place_of(all, id@);
                }
                return i;
            }
        }
        proof {
            lemma_place_of(all, id@);
        }
        self.config.channels.len()
    }

    /// Replaces the first channel of an id by what was sent, under the same id.
    pub fn update_channel(&mut self, id: &str, incoming: AlertChannel) -> (r: Result<
        AlertChannel,
        String,
    >)
        ensures
            final(self).state == old(self).state,
            final(self).smtp == old(self).smtp,
            ({
                let before = old(self).config@;
                let at = place_of(before.channels, id@);
                if at < before.channels.len() {
                    &&& final(self).config@ == (ConfigView {
                        channels: with_channel(before.channels, id@, incoming@),
                        ..before
                    })
                    &&& r matches Ok(channel) && channel@ == with_channel(
                        before.channels,
                        id@,
                        incoming@,
                    )[at]
                } else {
                    &&& *final(self) == *old(self)
                    &&& r matches Err(error) && error@ == "渠道不存在: "@ + id@
                }
            }),
    {
        let at = self.channel_place(id);
        if at == self.config.channels.len() {
            return Err(join2("渠道不存在: ", id));
        }
        proof {
            lemma_place_of(self.config@.channels, id@);
        }
        let ghost before = self.config@.channels;
        assert(before[at as int] == self.config.channels@[at as int]@);
        let kept = Self::merge_channel_secrets(incoming, &self.config.channels[at]);
        let channel = AlertChannel { id: id.to_owned(), ..kept };
        let shown = channel.clone();
        self.config.channels.set(at, channel);
        assert(self.config@.channels =~= with_channel(before, id@, incoming@));
        Ok(shown)
    }

    /// Takes out the channels of an id.
    pub fn delete_channel(&mut self, id: &str) -> (r: Result<(), String>)
        ensures
            final(self).state == old(self).state,
            final(self).smtp == old(self).smtp,
            final(self).config@ == (ConfigView {
                channels: without_channel(old(self).config@.channels, id@),
                ..old(self).config@
            }),
            if without_channel(old(self).config@.channels, id@).len() == old(
                self,
            ).config@.channels.len() {
                r matches Err(error) && error@ == "渠道不存在: "@ + id@
            } else {
                r is Ok
            },
    {
        let ghost all = self.config@.channels;
        let mut left: Vec<AlertChannel> = Vec::new();
        assert(channels_view(left@) =~= without_channel(all.take(0), id@));
        for i in 0..self.config.channels.len()
            invariant
                all == channels_view(self.config.channels@),
                channels_view(left@) == without_channel(all.take(i as int), id@),
        {
            assert(all.take(i + 1).drop_last() =~= all.take(i as int));
            assert(all.take(i + 1).last() == self.config.channels@[i as int]@);
            if !same(self.config.channels[i].id.as_str(), id) {
                let ghost before = channels_view(left@);
                let channel = self.config.channels[i].clone();
                left.push(channel);
                assert(channels_view(left@) =~= before.push(channel@));
            }
        }
        assert(all.take(all.len() as int) =~= all);
        let gone = left.len() != self.config.channels.len();
        assert(left@.len() == channels_view(left@).len());
        self.config.channels = left;
        if gone {
            Ok(())
        } else {
            Err(join2("渠道不存在: ", id))
        }
    }

    /// The subject and the body of a warning at a moment, the amounts given as texts.
    pub fn build_message_parts_at(
        cfg: &AlertConfig,
        summary: &EvalSummary,
        total: &str,
        threshold: &str,
        at: Moment,
    ) -> (r: (String, String))
        requires
            at.wf(),
        ensures
            r.0@ == warning_subject(effective_prefix(cfg@.subject_prefix), total@, threshold@),
            r.1@ == warning_body(
                effective_prefix(cfg@.subject_prefix),
                total@,
                threshold@,
                *summary,
                rfc3339_text(at.secs, at.nanos),
            ),
    {
        let prefix = prefix_of(cfg);
        let mut subject = match &prefix {
            Some(prefix) => join3("⚠️ ", prefix.as_str(), " Kiro Credit 预警：剩余 "),
            None => "⚠️ Kiro Credit 预警：剩余 ".to_owned(),
        };
        subject.append(total);
        subject.append(" 低于阈值 ");
        subject.append(threshold);
        let mut body = match &prefix {
            Some(prefix) => join3("[", prefix.as_str(), "] "),
            None => "".to_owned(),
        };
        body.append("当前总剩余额度：");
        body.append(total);
        body.append("\n预警阈值：");
        body.append(threshold);
        body.append("\n统计凭据：纳入 ");
        body.append(decimal(summary.included as u64).as_str());
        body.append(" 个，跳过 ");
        body.append(decimal(summary.skipped_error as u64).as_str());
        body.append(" 个（查询失败），排除 ");
        body.append(decimal(summary.skipped_unreportable as u64).as_str());
        body.append(" 个（不可上报）\n时间：");
        body.append(rfc3339(at).as_str());
        (subject, body)
    }

    /// The subject and the body of a warning now, the amounts given as texts.
    pub fn build_message_parts(
        cfg: &AlertConfig,
        summary: &EvalSummary,
        total: &str,
        threshold: &str,
    ) -> (r: (String, String))
        ensures
            r.0@ == warning_subject(effective_prefix(cfg@.subject_prefix), total@, threshold@),
            exists|at: Moment| #[trigger]
                at.wf() && r.1@ == warning_body(
                    effective_prefix(cfg@.subject_prefix),
                    total@,
                    threshold@,
                    *summary,
                    rfc3339_text(at.secs, at.nanos),
                ),
    {
        Self::build_message_parts_at(cfg, summary, total, threshold, now())
    }

    /// The subject and the body of a warning now, the amounts given as texts.
    pub fn build_message(
        &self,
        cfg: &AlertConfig,
        summary: &EvalSummary,
        total: &str,
        threshold: &str,
    ) -> (r: (String, String))
        ensures
            r.0@ == warning_subject(effective_prefix(cfg@.subject_prefix), total@, threshold@),
            exists|at: Moment| #[trigger]
                at.wf() && r.1@ == warning_body(
                    effective_prefix(cfg@.subject_prefix),
                    total@,
                    threshold@,
                    *summary,
                    rfc3339_text(at.secs, at.nanos),
                ),
    {
        Self::build_message_parts(cfg, summary, total, threshold)
    }

    /// The subject of a test.
    pub fn test_subject(cfg: &AlertConfig) -> (r: String)
        ensures
            r@ == test_subject_of(effective_prefix(cfg@.subject_prefix)),
    {
        match prefix_of(cfg) {
            Some(prefix) => join3("✅ ", prefix.as_str(), " Kiro Credit 预警测试"),
            None => "✅ Kiro Credit 预警测试".to_owned(),
        }
    }

    /// Remembers a look at the credits at a time, after what it led to was done. One that
    /// was left without consequence is not remembered.
    pub fn finish_round_at(
        &mut self,
        summary: &EvalSummary,
        threshold: Amount,
        round: Round,
        results: &Vec<DeliveryResult>,
        at: i64,
    )
        ensures
            final(self).config == old(self).config,
            final(self).smtp == old(self).smtp,
            match round {
                Round::Skipped(_) => final(self).state == old(self).state,
                Round::Judged { decision: done, fingerprint: mark } => final(self).state@
                    == recorded(
                    old(self).state@,
                    done,
                    any_delivered(results@),
                    summary.total,
                    threshold,
                    mark@,
                    at,
                ),
            },
    {
        match round {
            Round::Skipped(_) => {},
            Round::Judged { decision: done, fingerprint: mark } => {
                match done {
                    Decision::Fire => {
                        self.state.fired = delivered(results);
                    },
                    Decision::Rearm => {
                        self.state.fired = false;
                    },
                    Decision::Nothing => {},
                }
                self.state.last_total_remaining = Some(summary.total);
                self.state.last_evaluated_at = Some(at);
                self.state.last_threshold = Some(threshold);
                self.state.credential_fingerprint = Some(mark);
            },
        }
    }

    /// Remembers a look at the credits now, after what it led to was done. One that was
    /// left without consequence is not remembered.
    pub fn finish_round(
        &mut self,
        summary: &EvalSummary,
        threshold: Amount,
        round: Round,
        results: &Vec<DeliveryResult>,
    )
        ensures
            final(self).config == old(self).config,
            final(self).smtp == old(self).smtp,
            match round {
                Round::Skipped(_) => final(self).state == old(self).state,
                Round::Judged { decision: done, fingerprint: mark } => exists|at: i64|
                    is_time(at) && final(self).state@ == #[trigger] recorded(
                        old(self).state@,
                        done,
                        any_delivered(results@),
                        summary.total,
                        threshold,
                        mark@,
                        at,
                    ),
            },
    {
        let at: i64 = now().secs;
        self.finish_round_at(summary, threshold, round, results, at)
    }
}

/// A second since 1970 that has a calendar date.
pub open spec fn is_time(at: i64) -> bool {
    0 <= at <= LAST_SECOND
}

} // verus!
