//! What warnings are sent for, and to whom.

use vstd::prelude::*;

use crate::amount::{Amount, THOUSAND_BITS};
use crate::text::{copy_maybe, maybe_text};

verus! {

/// How often the credits are looked at where nobody says, in seconds.
pub const DEFAULT_POLL_INTERVAL_SECS: u64 = 1800;

/// The kind of a channel.
#[derive(Debug, Clone, Copy, PartialEq, Eq, Structural)]
pub enum ChannelKind {
    Telegram,
    Email,
}

/// A channel that warnings are sent through.
#[derive(Debug)]
pub struct AlertChannel {
    pub id: String,
    pub kind: ChannelKind,
    pub enabled: bool,
    pub name: Option<String>,
    pub bot_token: Option<String>,
    pub chat_id: Option<String>,
    pub to: Option<String>,
}

impl Clone for AlertChannel {
    fn clone(&self) -> (r: AlertChannel)
        ensures
            r == *self,
    {
        AlertChannel {
            id: self.id.clone(),
            kind: self.kind,
            enabled: self.enabled,
            name: copy_maybe(&self.name),
            bot_token: copy_maybe(&self.bot_token),
            chat_id: copy_maybe(&self.chat_id),
            to: copy_maybe(&self.to),
        }
    }
}

/// A channel as plain values.
pub struct ChannelView {
    pub id: Seq<char>,
    pub kind: ChannelKind,
    pub enabled: bool,
    pub name: Option<Seq<char>>,
    pub bot_token: Option<Seq<char>>,
    pub chat_id: Option<Seq<char>>,
    pub to: Option<Seq<char>>,
}

impl View for AlertChannel {
    type V = ChannelView;

    open spec fn view(&self) -> ChannelView {
        ChannelView {
            id: self.id@,
            kind: self.kind,
            enabled: self.enabled,
            name: maybe_text(self.name),
            bot_token: maybe_text(self.bot_token),
            chat_id: maybe_text(self.chat_id),
            to: maybe_text(self.to),
        }
    }
}

/// The channels of a row, as plain values.
pub open spec fn channels_view(channels: Seq<AlertChannel>) -> Seq<ChannelView> {
    channels.map_values(|channel: AlertChannel| channel@)
}

/// What warnings are sent for, and to whom.
#[derive(Debug)]
pub struct AlertConfig {
    pub enabled: bool,
    pub threshold_remaining: Amount,
    pub poll_interval_secs: u64,
    pub subject_prefix: Option<String>,
    pub channels: Vec<AlertChannel>,
}

/// A configuration as plain values.
pub struct ConfigView {
    pub enabled: bool,
    pub threshold_remaining: Amount,
    pub poll_interval_secs: u64,
    pub subject_prefix: Option<Seq<char>>,
    pub channels: Seq<ChannelView>,
}

impl View for AlertConfig {
    type V = ConfigView;

    open spec fn view(&self) -> ConfigView {
        ConfigView {
            enabled: self.enabled,
            threshold_remaining: self.threshold_remaining,
            poll_interval_secs: self.poll_interval_secs,
            subject_prefix: maybe_text(self.subject_prefix),
            channels: channels_view(self.channels@),
        }
    }
}

impl Clone for AlertConfig {
    fn clone(&self) -> (r: AlertConfig)
        ensures
            r@ == self@,
            r.channels@ == self.channels@,
    {
        let mut channels: Vec<AlertChannel> = Vec::new();
        for i in 0..self.channels.len()
            invariant
                channels@ == self.channels@.take(i as int),
        {
            channels.push(self.channels[i].clone());
            assert(channels@ =~= self.channels@.take(i + 1));
        }
        assert(self.channels@.take(self.channels@.len() as int) =~= self.channels@);
        AlertConfig {
            enabled: self.enabled,
            threshold_remaining: self.threshold_remaining,
            poll_interval_secs: self.poll_interval_secs,
            subject_prefix: copy_maybe(&self.subject_prefix),
            channels,
        }
    }
}

impl Default for AlertConfig {
    /// No warnings yet, below one thousand once they are enabled.
    fn default() -> (r: AlertConfig)
        ensures
            r@ == (ConfigView {
                enabled: false,
                threshold_remaining: Amount { bits: THOUSAND_BITS },
                poll_interval_secs: DEFAULT_POLL_INTERVAL_SECS,
                subject_prefix: None,
                channels: Seq::empty(),
            }),
    {
        let r = AlertConfig {
            enabled: false,
            threshold_remaining: Amount::thousand(),
            poll_interval_secs: DEFAULT_POLL_INTERVAL_SECS,
            subject_prefix: None,
            channels: Vec::new(),
        };
        assert(r@.channels =~= Seq::<ChannelView>::empty());
        r
    }
}

} // verus!
