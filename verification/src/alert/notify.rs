//! How warnings are sent: to whom, and with which words.

use vstd::prelude::*;

use crate::alert::config::{channels_view, AlertChannel, ChannelKind, ChannelView};
use crate::alert::smtp_settings::SmtpSettings;
use crate::json::{no_fields, text, Fields, Json, JsonView};
use crate::status::{grants, is_success};
use crate::text::{join2, join3, maybe_text};

verus! {

/// A chat that warnings are sent to.
#[derive(Debug)]
pub struct TelegramNotifier {
    pub bot_token: String,
    pub chat_id: String,
    pub label: String,
}

/// A mail address that warnings are sent to.
#[derive(Debug)]
pub struct SmtpNotifier {
    pub settings: SmtpSettings,
    pub to: String,
    pub label: String,
}

/// A channel that can be sent through.
#[derive(Debug)]
pub enum Channel {
    Telegram(TelegramNotifier),
    Email(SmtpNotifier),
}

/// A channel that can be sent through, as plain values.
pub enum NotifierView {
    Telegram { bot_token: Seq<char>, chat_id: Seq<char>, label: Seq<char> },
    Email { settings: SmtpSettings, to: Seq<char>, label: Seq<char> },
}

impl View for Channel {
    type V = NotifierView;

    open spec fn view(&self) -> NotifierView {
        match *self {
            Channel::Telegram(notifier) => NotifierView::Telegram {
                bot_token: notifier.bot_token@,
                chat_id: notifier.chat_id@,
                label: notifier.label@,
            },
            Channel::Email(notifier) => NotifierView::Email {
                settings: notifier.settings,
                to: notifier.to@,
                label: notifier.label@,
            },
        }
    }
}

/// The channels of a row, as plain values.
pub open spec fn notifiers_view(channels: Seq<Channel>) -> Seq<NotifierView> {
    channels.map_values(|channel: Channel| channel@)
}

/// What came of sending through a channel.
#[derive(Debug)]
pub struct DeliveryResult {
    pub label: String,
    pub ok: bool,
    pub error: Option<String>,
}

/// The name of a kind of channel.
pub open spec fn kind_name(kind: ChannelKind) -> Seq<char> {
    match kind {
        ChannelKind::Telegram => "Telegram"@,
        ChannelKind::Email => "Email"@,
    }
}

/// What a channel is called: by its name, or by its kind and id.
pub open spec fn label_of(channel: ChannelView) -> Seq<char> {
    match channel.name {
        Some(name) => name,
        None => kind_name(channel.kind) + "#"@ + channel.id,
    }
}

/// What a channel is sent through: a chat needs a token and an id, a mail address needs a
/// mail server. A channel that is disabled or lacks something is left out.
pub open spec fn notifier_of(channel: ChannelView, smtp: Option<SmtpSettings>) -> Option<
    NotifierView,
> {
    if !channel.enabled {
        None
    } else {
        match channel.kind {
            ChannelKind::Telegram => match (channel.bot_token, channel.chat_id) {
                (Some(bot_token), Some(chat_id)) => Some(
                    NotifierView::Telegram { bot_token, chat_id, label: label_of(channel) },
                ),
                _ => None,
            },
            ChannelKind::Email => match (smtp, channel.to) {
                (Some(settings), Some(to)) => Some(
                    NotifierView::Email { settings, to, label: label_of(channel) },
                ),
                _ => None,
            },
        }
    }
}

/// What the channels of a row are sent through, in their order.
pub open spec fn notifiers(channels: Seq<ChannelView>, smtp: Option<SmtpSettings>) -> Seq<
    NotifierView,
>
    decreases channels.len(),
{
    if channels.len() == 0 {
        Seq::empty()
    } else {
        let front = notifiers(channels.drop_last(), smtp);
        match notifier_of(channels.last(), smtp) {
            Some(notifier) => front.push(notifier),
            None => front,
        }
    }
}

/// Nothing is sent through a channel that is disabled, and no mail without a mail server.
pub proof fn law_left_out_channels(channel: ChannelView, smtp: Option<SmtpSettings>)
    ensures
        !channel.enabled ==> notifier_of(channel, smtp) is None,
        channel.kind == ChannelKind::Email && smtp is None ==> notifier_of(channel, smtp) is None,
        channel.kind == ChannelKind::Telegram && (channel.bot_token is None
            || channel.chat_id is None) ==> notifier_of(channel, smtp) is None,
{
}

impl Channel {
    /// What the channel is called.
    pub fn label(&self) -> (r: String)
        ensures
            r@ == match self@ {
                NotifierView::Telegram { label, .. } => label,
                NotifierView::Email { label, .. } => label,
            },
    {
        match self {
            Channel::Telegram(notifier) => notifier.label.clone(),
            Channel::Email(notifier) => notifier.label.clone(),
        }
    }
}

/// What a channel is called.
fn make_label(channel: &AlertChannel) -> (r: String)
    ensures
        r@ == label_of(channel@),
{
    match &channel.name {
        Some(name) => name.clone(),
        None => match channel.kind {
            ChannelKind::Telegram => join3("Telegram", "#", channel.id.as_str()),
            ChannelKind::Email => join3("Email", "#", channel.id.as_str()),
        },
    }
}

/// What a channel is sent through, where it can be.
fn build_channel(channel: &AlertChannel, smtp: &Option<SmtpSettings>) -> (r: Option<Channel>)
    ensures
        match notifier_of(channel@, *smtp) {
            Some(notifier) => r matches Some(found) && found@ == notifier,
            None => r is None,
        },
{
    if !channel.enabled {
        return None;
    }
    let label = make_label(channel);
    match channel.kind {
        ChannelKind::Telegram => match (&channel.bot_token, &channel.chat_id) {
            (Some(bot_token), Some(chat_id)) => Some(
                Channel::Telegram(
                    TelegramNotifier {
                        bot_token: bot_token.clone(),
                        chat_id: chat_id.clone(),
                        label,
                    },
                ),
            ),
            _ => None,
        },
        ChannelKind::Email => match (smtp, &channel.to) {
            (Some(settings), Some(to)) => Some(
                Channel::Email(
                    SmtpNotifier { settings: settings.clone(), to: to.clone(), label },
                ),
            ),
            _ => None,
        },
    }
}

/// What the channels of a row are sent through, in their order.
pub fn build_channels(cfg_channels: &Vec<AlertChannel>, smtp: &Option<SmtpSettings>) -> (r: Vec<
    Channel,
>)
    ensures
        notifiers_view(r@) == notifiers(channels_view(cfg_channels@), *smtp),
{
    let ghost all = channels_view(cfg_channels@);
    let mut built: Vec<Channel> = Vec::new();
    assert(notifiers_view(built@) =~= notifiers(all.take(0), *smtp));
    for i in 0..cfg_channels.len()
        invariant
            all == channels_view(cfg_channels@),
            notifiers_view(built@) == notifiers(all.take(i as int), *smtp),
    {
        assert(all.take(i + 1).drop_last() =~= all.take(i as int));
        assert(all.take(i + 1).last() == cfg_channels@[i as int]@);
        if let Some(channel) = build_channel(&cfg_channels[i], smtp) {
            let ghost before = notifiers_view(built@);
            built.push(channel);
            assert(notifiers_view(built@) =~= before.push(channel@));
        }
    }
    assert(all.take(all.len() as int) =~= all);
    built
}

impl TelegramNotifier {
    /// The URL that a message is posted to.
    pub fn url(&self) -> (r: String)
        ensures
            r@ == "https://api.telegram.org/bot"@ + self.bot_token@ + "/sendMessage"@,
    {
        join3("https://api.telegram.org/bot", self.bot_token.as_str(), "/sendMessage")
    }

    /// The message that is posted.
    pub fn payload(&self, subject: &str, body: &str) -> (r: Json)
        ensures
            r@ == JsonView::Object(
                no_fields().push(("chat_id"@, JsonView::Text(self.chat_id@))).push(
                    ("text"@, JsonView::Text(subject@ + "\n\n"@ + body@)),
                ).push(("parse_mode"@, JsonView::Text("HTML"@))),
            ),
    {
        Fields::new().with("chat_id", text(self.chat_id.as_str())).with(
            "text",
            text(join3(subject, "\n\n", body).as_str()),
        ).with("parse_mode", text("HTML")).into_object()
    }
}

/// Why a message could not be posted, by the error of the connection, which does not name
/// the URL.
pub fn telegram_unreachable(error: &str) -> (r: String)
    ensures
        r@ == "Telegram 请求失败: "@ + error@,
{
    join2("Telegram 请求失败: ", error)
}

/// Why a message was refused.
pub fn telegram_refused(status: &str, message: &str) -> (r: String)
    ensures
        r@ == "Telegram 返回 "@ + status@ + ": "@ + message@,
{
    let mut r = join3("Telegram 返回 ", status, ": ");
    r.append(message);
    r
}

/// What came of posting a message, by the status of the answer: nothing wrong, or why it was
/// refused.
pub fn telegram_outcome(status: u16, status_text: &str, message: &str) -> (r: Result<(), String>)
    ensures
        r is Ok == grants(status),
        r matches Err(error) ==> error@ == "Telegram 返回 "@ + status_text@ + ": "@ + message@,
{
    if is_success(status) {
        Ok(())
    } else {
        Err(telegram_refused(status_text, message))
    }
}

/// What came of sending through a channel: nothing wrong, or an error.
pub fn delivery_result(channel: &Channel, outcome: Result<(), String>) -> (r: DeliveryResult)
    ensures
        r.label@ == (match channel@ {
            NotifierView::Telegram { label, .. } => label,
            NotifierView::Email { label, .. } => label,
        }),
        r.ok == outcome is Ok,
        maybe_text(r.error) == match outcome {
            Ok(_) => None,
            Err(error) => Some(error@),
        },
{
    let label = channel.label();
    match outcome {
        Ok(_) => DeliveryResult { label, ok: true, error: None },
        Err(error) => DeliveryResult { label, ok: false, error: Some(error) },
    }
}

} // verus!
