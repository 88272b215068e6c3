//! What an administrator sends and is shown. A token is never shown as a whole.

use vstd::prelude::*;

use crate::alert::config::{AlertChannel, AlertConfig, ChannelKind, ChannelView};
use crate::alert::notify::DeliveryResult;
use crate::alert::state::AlertState;
use crate::amount::Amount;
use crate::text::{copy_maybe, join3, maybe_text, to_chars};

verus! {

/// A text of ASCII characters.
pub open spec fn is_ascii_text(s: Seq<char>) -> bool {
    forall|i: int| 0 <= i < s.len() ==> (#[trigger] s[i] as u32) < 128
}

/// A token as it is shown: its first six and its last two characters where it is long, else
/// nothing of it.
pub open spec fn masked(token: Seq<char>) -> Seq<char> {
    if is_ascii_text(token) && token.len() > 12 {
        token.take(6) + "..."@ + token.skip(token.len() - 2)
    } else {
        "***"@
    }
}

/// No token is shown as it is, but for the three stars that stand for a short one.
pub proof fn law_token_is_not_shown(token: Seq<char>)
    requires
        token != "***"@,
    ensures
        masked(token) != token,
{
    reveal_strlit("...");
}

/// What is shown of a token tells nothing of the characters in its middle.
pub proof fn law_middle_is_hidden(a: Seq<char>, b: Seq<char>)
    requires
        is_ascii_text(a),
        is_ascii_text(b),
        a.len() > 12,
        b.len() > 12,
        a.take(6) == b.take(6),
        a.skip(a.len() - 2) == b.skip(b.len() - 2),
    ensures
        masked(a) == masked(b),
{
}

/// A token as it is shown.
pub fn mask_token(token: &str) -> (r: String)
    ensures
        r@ == masked(token@),
{
    let chars = to_chars(token);
    let mut ascii = true;
    for i in 0..chars.len()
        invariant
            chars@ == token@,
            ascii == forall|j: int| 0 <= j < i ==> (#[trigger] chars@[j] as u32) < 128,
    {
        if chars[i] as u32 >= 128 {
            ascii = false;
        }
    }
    if ascii && chars.len() > 12 {
        let head = token.substring_char(0, 6);
        let tail = token.substring_char(chars.len() - 2, chars.len());
        assert(head@ =~= token@.take(6));
        assert(tail@ =~= token@.skip(token@.len() - 2));
        join3(head, "...", tail)
    } else {
        "***".to_owned()
    }
}

/// What is shown of a channel.
#[derive(Debug)]
pub struct ChannelResponse {
    pub id: String,
    pub kind: ChannelKind,
    pub enabled: bool,
    pub name: Option<String>,
    pub masked_bot_token: Option<String>,
    pub chat_id: Option<String>,
    pub to: Option<String>,
}

impl ChannelResponse {
    /// The response shows this channel.
    pub open spec fn shows(self, channel: ChannelView) -> bool {
        &&& self.id@ == channel.id
        &&& self.kind == channel.kind
        &&& self.enabled == channel.enabled
        &&& maybe_text(self.name) == channel.name
        &&& maybe_text(self.masked_bot_token) == match channel.bot_token {
            Some(token) => Some(masked(token)),
            None => None,
        }
        &&& maybe_text(self.chat_id) == channel.chat_id
        &&& maybe_text(self.to) == channel.to
    }

    /// What is shown of a channel.
    fn of(channel: &AlertChannel) -> (r: ChannelResponse)
        ensures
            r.shows(channel@),
    {
        ChannelResponse {
            id: channel.id.clone(),
            kind: channel.kind,
            enabled: channel.enabled,
            name: copy_maybe(&channel.name),
            masked_bot_token: match &channel.bot_token {
                Some(token) => Some(mask_token(token.as_str())),
                None => None,
            },
            chat_id: copy_maybe(&channel.chat_id),
            to: copy_maybe(&channel.to),
        }
    }
}

/// What is shown of the configuration.
#[derive(Debug)]
pub struct AlertConfigResponse {
    pub enabled: bool,
    pub threshold_remaining: Amount,
    pub poll_interval_secs: u64,
    pub subject_prefix: Option<String>,
    pub channels: Vec<ChannelResponse>,
    pub smtp_configured: bool,
}

impl AlertConfigResponse {
    /// What is shown of a configuration, each channel in its place.
    pub fn from_config(cfg: &AlertConfig, smtp_configured: bool) -> (r: AlertConfigResponse)
        ensures
            r.enabled == cfg.enabled,
            r.threshold_remaining == cfg.threshold_remaining,
            r.poll_interval_secs == cfg.poll_interval_secs,
            maybe_text(r.subject_prefix) == maybe_text(cfg.subject_prefix),
            r.channels@.len() == cfg.channels@.len(),
            forall|i: int|
                0 <= i < r.channels@.len() ==> (#[trigger] r.channels@[i]).shows(cfg@.channels[i]),
            r.smtp_configured == smtp_configured,
    {
        let mut channels: Vec<ChannelResponse> = Vec::new();
        for i in 0..cfg.channels.len()
            invariant
                channels@.len() == i,
                forall|j: int| 0 <= j < i ==> (#[trigger] channels@[j]).shows(cfg.channels@[j]@),
        {
            channels.push(ChannelResponse::of(&cfg.channels[i]));
        }
        AlertConfigResponse {
            enabled: cfg.enabled,
            threshold_remaining: cfg.threshold_remaining,
            poll_interval_secs: cfg.poll_interval_secs,
            subject_prefix: copy_maybe(&cfg.subject_prefix),
            channels,
            smtp_configured,
        }
    }
}

/// A change of the configuration.
#[derive(Debug)]
pub struct UpdateConfigRequest {
    pub enabled: Option<bool>,
    pub threshold_remaining: Option<Amount>,
    pub poll_interval_secs: Option<u64>,
    pub subject_prefix: Option<String>,
}

/// A channel as an administrator sends it.
#[derive(Debug)]
pub struct ChannelRequest {
    pub kind: ChannelKind,
    pub enabled: Option<bool>,
    pub name: Option<String>,
    pub bot_token: Option<String>,
    pub chat_id: Option<String>,
    pub to: Option<String>,
}

impl ChannelRequest {
    /// The channel that a request describes, enabled where it does not say.
    pub fn into_channel(self, id: String) -> (r: AlertChannel)
        ensures
            r@ == (ChannelView {
                id: id@,
                kind: self.kind,
                enabled: match self.enabled {
                    Some(enabled) => enabled,
                    None => true,
                },
                name: maybe_text(self.name),
                bot_token: maybe_text(self.bot_token),
                chat_id: maybe_text(self.chat_id),
                to: maybe_text(self.to),
            }),
    {
        AlertChannel {
            id,
            kind: self.kind,
            enabled: match self.enabled {
                Some(enabled) => enabled,
                None => true,
            },
            name: self.name,
            bot_token: self.bot_token,
            chat_id: self.chat_id,
            to: self.to,
        }
    }
}

/// What is shown of the last look at the credits.
#[derive(Debug)]
pub struct StatusResponse {
    pub fired: bool,
    pub last_total_remaining: Option<Amount>,
    pub last_evaluated_at: Option<i64>,
    pub last_threshold: Option<Amount>,
}

impl StatusResponse {
    /// What is shown of what is remembered.
    pub fn of(state: &AlertState) -> (r: StatusResponse)
        ensures
            r.fired == state.fired,
            r.last_total_remaining == state.last_total_remaining,
            r.last_evaluated_at == state.last_evaluated_at,
            r.last_threshold == state.last_threshold,
    {
        StatusResponse {
            fired: state.fired,
            last_total_remaining: state.last_total_remaining,
            last_evaluated_at: state.last_evaluated_at,
            last_threshold: state.last_threshold,
        }
    }
}

/// What came of a test on a channel.
#[derive(Debug)]
pub struct TestChannelResult {
    pub label: String,
    pub ok: bool,
    pub error: Option<String>,
}

/// What came of a test.
#[derive(Debug)]
pub struct TestResponse {
    pub results: Vec<TestChannelResult>,
}

impl TestResponse {
    /// What came of a test, each channel in its place.
    pub fn of(results: &Vec<DeliveryResult>) -> (r: TestResponse)
        ensures
            r.results@.len() == results@.len(),
            forall|i: int|
                0 <= i < r.results@.len() ==> (#[trigger] r.results@[i]).label == results@[i].label
                    && r.results@[i].ok == results@[i].ok && r.results@[i].error
                    == results@[i].error,
    {
        let mut shown: Vec<TestChannelResult> = Vec::new();
        for i in 0..results.len()
            invariant
                shown@.len() == i,
                forall|j: int|
                    0 <= j < i ==> (#[trigger] shown@[j]).label == results@[j].label
                        && shown@[j].ok == results@[j].ok && shown@[j].error == results@[j].error,
        {
            let result = &results[i];
            shown.push(
                TestChannelResult {
                    label: result.label.clone(),
                    ok: result.ok,
                    error: copy_maybe(&result.error),
                },
            );
        }
        TestResponse { results: shown }
    }
}

} // verus!
