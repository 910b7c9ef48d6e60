//! Notification channels (CRUD with name and JSON configuration checks) and
//! account × channel notification bindings.
use vstd::prelude::*;
use crate::json::{is_valid_json, json_valid};
use crate::records::{owner_checked, owner_gate};
use crate::text::{concat3, is_blank, owned, str_eq, str_is_empty, trim_seq, trim_str};
use crate::OpenDeskResult;

verus! {

/// Kind of a notification channel.
#[derive(Debug, Clone, Copy, PartialEq, Eq, Structural)]
pub enum ChannelKind {
    Dingtalk,
    Feishu,
    Bark,
    Email,
    Webhook,
    Wechat,
    Telegram,
    Pushplus,
}

/// The wire name of a channel kind.
pub open spec fn channel_kind_name(k: ChannelKind) -> Seq<char> {
    match k {
        ChannelKind::Dingtalk => "dingtalk"@,
        ChannelKind::Feishu => "feishu"@,
        ChannelKind::Bark => "bark"@,
        ChannelKind::Email => "email"@,
        ChannelKind::Webhook => "webhook"@,
        ChannelKind::Wechat => "wechat"@,
        ChannelKind::Telegram => "telegram"@,
        ChannelKind::Pushplus => "pushplus"@,
    }
}

/// The display label of a channel kind.
pub open spec fn channel_kind_label(k: ChannelKind) -> Seq<char> {
    match k {
        ChannelKind::Dingtalk => "钉钉通知"@,
        ChannelKind::Feishu => "飞书通知"@,
        ChannelKind::Bark => "Bark通知"@,
        ChannelKind::Email => "邮件通知"@,
        ChannelKind::Webhook => "Webhook"@,
        ChannelKind::Wechat => "微信通知"@,
        ChannelKind::Telegram => "Telegram"@,
        ChannelKind::Pushplus => "PushPlus"@,
    }
}

/// The kind named `value`; unknown names are DingTalk.
pub open spec fn channel_kind_of(value: Seq<char>) -> ChannelKind {
    if value == "feishu"@ {
        ChannelKind::Feishu
    } else if value == "bark"@ {
        ChannelKind::Bark
    } else if value == "email"@ {
        ChannelKind::Email
    } else if value == "webhook"@ {
        ChannelKind::Webhook
    } else if value == "wechat"@ {
        ChannelKind::Wechat
    } else if value == "telegram"@ {
        ChannelKind::Telegram
    } else if value == "pushplus"@ {
        ChannelKind::Pushplus
    } else {
        ChannelKind::Dingtalk
    }
}

impl ChannelKind {
    /// The wire name.
    pub fn as_str(&self) -> (s: &'static str)
        ensures
            s@ == channel_kind_name(*self),
    {
        match self {
            ChannelKind::Dingtalk => "dingtalk",
            ChannelKind::Feishu => "feishu",
            ChannelKind::Bark => "bark",
            ChannelKind::Email => "email",
            ChannelKind::Webhook => "webhook",
            ChannelKind::Wechat => "wechat",
            ChannelKind::Telegram => "telegram",
            ChannelKind::Pushplus => "pushplus",
        }
    }

    /// The kind with the given wire name; unknown names are DingTalk.
    pub fn from_str(value: &str) -> (k: Self)
        ensures
            k == channel_kind_of(value@),
    {
        if str_eq(value, "feishu") {
            ChannelKind::Feishu
        } else if str_eq(value, "bark") {
            ChannelKind::Bark
        } else if str_eq(value, "email") {
            ChannelKind::Email
        } else if str_eq(value, "webhook") {
            ChannelKind::Webhook
        } else if str_eq(value, "wechat") {
            ChannelKind::Wechat
        } else if str_eq(value, "telegram") {
            ChannelKind::Telegram
        } else if str_eq(value, "pushplus") {
            ChannelKind::Pushplus
        } else {
            ChannelKind::Dingtalk
        }
    }

    /// The display label.
    pub fn label(&self) -> (s: &'static str)
        ensures
            s@ == channel_kind_label(*self),
    {
        match self {
            ChannelKind::Dingtalk => "钉钉通知",
            ChannelKind::Feishu => "飞书通知",
            ChannelKind::Bark => "Bark通知",
            ChannelKind::Email => "邮件通知",
            ChannelKind::Webhook => "Webhook",
            ChannelKind::Wechat => "微信通知",
            ChannelKind::Telegram => "Telegram",
            ChannelKind::Pushplus => "PushPlus",
        }
    }
}

/// A notification channel.
#[derive(Debug)]
pub struct NotificationChannel {
    pub id: i64,
    pub owner_id: i64,
    pub name: String,
    pub kind: ChannelKind,
    /// Configuration (a JSON string).
    pub config: String,
    pub enabled: bool,
}

impl Clone for NotificationChannel {
    fn clone(&self) -> (r: Self)
        ensures
            r == *self,
    {
        NotificationChannel {
            id: self.id,
            owner_id: self.owner_id,
            name: self.name.clone(),
            kind: self.kind,
            config: self.config.clone(),
            enabled: self.enabled,
        }
    }
}

/// A notification binding: one account notified through one channel.
#[derive(Debug)]
pub struct MessageNotification {
    pub id: i64,
    pub owner_id: i64,
    /// The account.
    pub account_id: String,
    pub channel_id: i64,
    pub enabled: bool,
    /// The channel's name (filled in by the store when listing).
    pub channel_name: Option<String>,
}

impl Clone for MessageNotification {
    fn clone(&self) -> (r: Self)
        ensures
            r == *self,
    {
        MessageNotification {
            id: self.id,
            owner_id: self.owner_id,
            account_id: self.account_id.clone(),
            channel_id: self.channel_id,
            enabled: self.enabled,
            channel_name: self.channel_name.clone(),
        }
    }
}

/// Storage of channels and bindings, implemented by the application. Each
/// `closed spec fn` below names the answers the store may give to one of its
/// calls (unconstrained unless an implementation says otherwise).
pub trait NotificationStore {
    /// `r` is an answer to listing the user's channels.
    closed spec fn channels_listed(&self, owner_id: i64, r: OpenDeskResult<Vec<NotificationChannel>>) -> bool {
        true
    }

    /// `r` is an answer to looking up the user's channel `channel_id`.
    closed spec fn channel_got(&self, owner_id: i64, channel_id: i64, r: OpenDeskResult<Option<NotificationChannel>>) -> bool {
        true
    }

    /// `r` is an answer to storing the new channel `channel`.
    closed spec fn channel_created(&self, channel: NotificationChannel, r: OpenDeskResult<NotificationChannel>) -> bool {
        true
    }

    /// `r` is an answer to updating a channel to `channel`.
    closed spec fn channel_updated(&self, channel: NotificationChannel, r: OpenDeskResult<()>) -> bool {
        true
    }

    /// `r` is an answer to deleting the user's channel `channel_id`.
    closed spec fn channel_deleted(&self, owner_id: i64, channel_id: i64, r: OpenDeskResult<()>) -> bool {
        true
    }

    /// `r` is an answer to listing the user's bindings.
    closed spec fn notifications_listed(&self, owner_id: i64, r: OpenDeskResult<Vec<MessageNotification>>) -> bool {
        true
    }

    /// `r` is an answer to setting the binding of the account and channel.
    closed spec fn notification_upserted(
        &self,
        owner_id: i64,
        account: Seq<char>,
        channel_id: i64,
        enabled: bool,
        r: OpenDeskResult<MessageNotification>,
    ) -> bool {
        true
    }

    /// `r` is an answer to deleting the user's binding `notification_id`.
    closed spec fn notification_deleted(&self, owner_id: i64, notification_id: i64, r: OpenDeskResult<()>) -> bool {
        true
    }

    /// The user's channels.
    fn list_channels(&self, owner_id: i64) -> (r: OpenDeskResult<Vec<NotificationChannel>>)
        ensures
            self.channels_listed(owner_id, r);

    /// The user's channel with the given id.
    fn get_channel(&self, owner_id: i64, channel_id: i64) -> (r: OpenDeskResult<Option<NotificationChannel>>)
        ensures
            self.channel_got(owner_id, channel_id, r);

    /// Stores a new channel and returns it as stored.
    fn create_channel(&self, channel: &NotificationChannel) -> (r: OpenDeskResult<NotificationChannel>)
        ensures
            self.channel_created(*channel, r);

    /// Updates a channel.
    fn update_channel(&self, channel: &NotificationChannel) -> (r: OpenDeskResult<()>)
        ensures
            self.channel_updated(*channel, r);

    /// Deletes the user's channel.
    fn delete_channel(&self, owner_id: i64, channel_id: i64) -> (r: OpenDeskResult<()>)
        ensures
            self.channel_deleted(owner_id, channel_id, r);

    /// The user's bindings, with channel names.
    fn list_notifications(&self, owner_id: i64) -> (r: OpenDeskResult<Vec<MessageNotification>>)
        ensures
            self.notifications_listed(owner_id, r);

    /// Sets the binding of the account and channel (updating the one that
    /// exists, else creating it).
    fn upsert_notification(
        &self,
        owner_id: i64,
        account_id: &str,
        channel_id: i64,
        enabled: bool,
    ) -> (r: OpenDeskResult<MessageNotification>)
        ensures
            self.notification_upserted(owner_id, account_id@, channel_id, enabled, r);

    /// Deletes the user's binding.
    fn delete_notification(&self, owner_id: i64, notification_id: i64) -> (r: OpenDeskResult<()>)
        ensures
            self.notification_deleted(owner_id, notification_id, r);
}

/// `stored` is `channel` with its name trimmed and its configuration
/// normalized (see [`normalized_config`]), the other fields kept.
pub open spec fn normalized_channel(channel: NotificationChannel, stored: NotificationChannel) -> bool {
    &&& stored.id == channel.id
    &&& stored.owner_id == channel.owner_id
    &&& stored.kind == channel.kind
    &&& stored.enabled == channel.enabled
    &&& stored.name@ == trim_seq(channel.name@)
    &&& stored.config@ == normalized_config(channel.config@)
}

/// The message refusing a channel that is missing or not the user's.
pub open spec fn channel_missing() -> Seq<char> {
    "渠道不存在或无权限"@
}

/// The configuration stored for a given one: trimmed, `{}` when blank.
pub open spec fn normalized_config(config: Seq<char>) -> Seq<char> {
    if trim_seq(config).len() == 0 {
        "{}"@
    } else {
        trim_seq(config)
    }
}

/// Why a channel is refused: a blank name, or a configuration that is not
/// valid JSON once normalized.
pub open spec fn channel_refusal(name: Seq<char>, config: Seq<char>) -> Option<Seq<char>> {
    if trim_seq(name).len() == 0 {
        Some("渠道名称不能为空"@)
    } else if !json_valid(normalized_config(config)) {
        Some("渠道配置必须是合法 JSON"@)
    } else {
        None
    }
}

/// The outcome of a channel test, given the lookup of the user's channel.
pub open spec fn test_outcome(got: OpenDeskResult<Option<NotificationChannel>>, r: OpenDeskResult<String>) -> bool {
    match got {
        Err(e) => r == Err::<String, String>(e),
        Ok(None) => r matches Err(m) && m@ == channel_missing(),
        Ok(Some(c)) => if json_valid(c.config@) {
            r matches Ok(s) && s@ == "渠道「"@ + c.name@ + "」配置校验通过"@
        } else {
            r matches Err(m) && m@ == "渠道配置不是合法 JSON"@
        },
    }
}

/// Notification service.
pub struct NotificationService<'a> {
    /// The store the service works on.
    pub store: &'a dyn NotificationStore,
}

impl<'a> NotificationService<'a> {
    pub fn new(store: &'a dyn NotificationStore) -> Self {
        Self { store }
    }

    /// The user's channels, as the store lists them.
    pub fn list_channels(&self, owner_id: i64) -> (r: OpenDeskResult<Vec<NotificationChannel>>)
        ensures
            self.store.channels_listed(owner_id, r),
    {
        self.store.list_channels(owner_id)
    }

    /// Creates a channel for the user with a normalized name and
    /// configuration; see [`channel_refusal`] for what is refused. A channel
    /// not refused is stored with the user set.
    pub fn create_channel(&self, owner_id: i64, channel: NotificationChannel) -> (r: OpenDeskResult<NotificationChannel>)
        ensures
            channel_refusal(channel.name@, channel.config@) matches Some(m) ==> (r matches Err(e) && e@ == m),
            channel_refusal(channel.name@, channel.config@) is None ==> exists|stored: NotificationChannel|
                #![trigger self.store.channel_created(stored, r)]
                normalized_channel((NotificationChannel { owner_id: owner_id, ..channel }), stored)
                    && self.store.channel_created(stored, r),
    {
        let mut channel = channel;
        channel.owner_id = owner_id;
        match Self::normalize(&mut channel) {
            Err(e) => return Err(e),
            Ok(()) => {},
        }
        self.store.create_channel(&channel)
    }

    /// Updates the user's channel with a normalized name and configuration:
    /// the lookup of the user's channel with that id decides (see
    /// [`owner_checked`]); for a channel found, a refused name or
    /// configuration is answered, else the store updates it.
    pub fn update_channel(&self, owner_id: i64, channel: NotificationChannel) -> (r: OpenDeskResult<()>)
        ensures
            exists|got: OpenDeskResult<Option<NotificationChannel>>|
                #![trigger self.store.channel_got(owner_id, channel.id, got)]
                self.store.channel_got(owner_id, channel.id, got) && owner_checked(got, r, channel_missing()) && (got matches Ok(
                    Some(_),
                ) ==> match channel_refusal(channel.name@, channel.config@) {
                    Some(m) => r matches Err(e) && e@ == m,
                    None => exists|stored: NotificationChannel|
                        #![trigger self.store.channel_updated(stored, r)]
                        normalized_channel(channel, stored) && self.store.channel_updated(stored, r),
                }),
    {
        let got = self.store.get_channel(owner_id, channel.id);
        let ghost original = channel;
        let r = match owner_gate(&got, "渠道不存在或无权限") {
            Err(e) => Err(e),
            Ok(_) => {
                let mut channel = channel;
                match Self::normalize(&mut channel) {
                    Err(e) => Err(e),
                    Ok(()) => {
                        let r = self.store.update_channel(&channel);
                        assert(normalized_channel(original, channel));
                        r
                    },
                }
            },
        };
        assert(owner_checked(got, r, channel_missing()));
        r
    }

    /// Enables or disables the user's channel: the lookup of the user's
    /// channel decides (see [`owner_checked`]); a channel found is updated to
    /// itself with `enabled` set.
    pub fn set_channel_enabled(&self, owner_id: i64, channel_id: i64, enabled: bool) -> (r: OpenDeskResult<()>)
        ensures
            exists|got: OpenDeskResult<Option<NotificationChannel>>|
                #![trigger self.store.channel_got(owner_id, channel_id, got)]
                self.store.channel_got(owner_id, channel_id, got) && owner_checked(got, r, channel_missing()) && (got matches Ok(
                    Some(c),
                ) ==> self.store.channel_updated((NotificationChannel { enabled: enabled, ..c }), r)),
    {
        let got = self.store.get_channel(owner_id, channel_id);
        let r = match owner_gate(&got, "渠道不存在或无权限") {
            Err(e) => Err(e),
            Ok(c) => {
                let mut channel = c.clone();
                channel.enabled = enabled;
                self.store.update_channel(&channel)
            },
        };
        assert(owner_checked(got, r, channel_missing()));
        r
    }

    /// Deletes the user's channel: the lookup of the user's channel decides
    /// (see [`owner_checked`]); a channel found is deleted.
    pub fn delete_channel(&self, owner_id: i64, channel_id: i64) -> (r: OpenDeskResult<()>)
        ensures
            exists|got: OpenDeskResult<Option<NotificationChannel>>|
                #![trigger self.store.channel_got(owner_id, channel_id, got)]
                self.store.channel_got(owner_id, channel_id, got) && owner_checked(got, r, channel_missing()) && (got matches Ok(
                    Some(_),
                ) ==> self.store.channel_deleted(owner_id, channel_id, r)),
    {
        let got = self.store.get_channel(owner_id, channel_id);
        let r = match owner_gate(&got, "渠道不存在或无权限") {
            Err(e) => Err(e),
            Ok(_) => self.store.delete_channel(owner_id, channel_id),
        };
        assert(owner_checked(got, r, channel_missing()));
        r
    }

    /// Tests the user's channel: its configuration must be valid JSON (the
    /// message itself is sent elsewhere).
    pub fn test_channel(&self, owner_id: i64, channel_id: i64) -> (r: OpenDeskResult<String>)
        ensures
            exists|got: OpenDeskResult<Option<NotificationChannel>>|
                #![trigger self.store.channel_got(owner_id, channel_id, got)]
                self.store.channel_got(owner_id, channel_id, got) && test_outcome(got, r),
    {
        let got = self.store.get_channel(owner_id, channel_id);
        let r = Self::test_verdict(&got);
        assert(test_outcome(got, r));
        r
    }

    /// The outcome of a channel test for the given lookup (see [`test_outcome`]).
    pub fn test_verdict(got: &OpenDeskResult<Option<NotificationChannel>>) -> (r: OpenDeskResult<String>)
        ensures
            test_outcome(*got, r),
    {
        match got {
            Err(e) => Err(e.clone()),
            Ok(None) => Err(owned("渠道不存在或无权限")),
            Ok(Some(c)) => {
                if !is_valid_json(c.config.as_str()) {
                    Err(owned("渠道配置不是合法 JSON"))
                } else {
                    Ok(concat3("渠道「", c.name.as_str(), "」配置校验通过"))
                }
            },
        }
    }

    /// The user's bindings, as the store lists them.
    pub fn list_notifications(&self, owner_id: i64) -> (r: OpenDeskResult<Vec<MessageNotification>>)
        ensures
            self.store.notifications_listed(owner_id, r),
    {
        self.store.list_notifications(owner_id)
    }

    /// Sets the binding of an account and the user's channel; a blank account
    /// or a channel that is missing or not the user's is refused.
    pub fn set_notification(&self, owner_id: i64, account_id: &str, channel_id: i64, enabled: bool) -> (r:
        OpenDeskResult<MessageNotification>)
        ensures
            trim_seq(account_id@).len() == 0 ==> (r matches Err(e) && e@ == "账号不能为空"@),
            trim_seq(account_id@).len() > 0 ==> exists|got: OpenDeskResult<Option<NotificationChannel>>|
                #![trigger self.store.channel_got(owner_id, channel_id, got)]
                self.store.channel_got(owner_id, channel_id, got) && owner_checked(got, r, channel_missing()) && (got matches Ok(
                    Some(_),
                ) ==> self.store.notification_upserted(owner_id, account_id@, channel_id, enabled, r)),
    {
        if is_blank(account_id) {
            return Err(owned("账号不能为空"));
        }
        let got = self.store.get_channel(owner_id, channel_id);
        let r = match owner_gate(&got, "渠道不存在或无权限") {
            Err(e) => Err(e),
            Ok(_) => self.store.upsert_notification(owner_id, account_id, channel_id, enabled),
        };
        assert(owner_checked(got, r, channel_missing()));
        r
    }

    /// Deletes the user's binding.
    pub fn delete_notification(&self, owner_id: i64, notification_id: i64) -> (r: OpenDeskResult<()>)
        ensures
            self.store.notification_deleted(owner_id, notification_id, r),
    {
        self.store.delete_notification(owner_id, notification_id)
    }

    /// Normalizes the name (trimmed) and the configuration (see
    /// [`normalized_config`]); see [`channel_refusal`] for what is refused.
    pub fn normalize(channel: &mut NotificationChannel) -> (r: OpenDeskResult<()>)
        ensures
            final(channel).id == old(channel).id,
            final(channel).owner_id == old(channel).owner_id,
            final(channel).kind == old(channel).kind,
            final(channel).enabled == old(channel).enabled,
            final(channel).name@ == trim_seq(old(channel).name@),
            trim_seq(old(channel).name@).len() == 0 ==> final(channel).config == old(channel).config,
            trim_seq(old(channel).name@).len() > 0 ==> final(channel).config@ == normalized_config(old(channel).config@),
            match channel_refusal(old(channel).name@, old(channel).config@) {
                Some(m) => r matches Err(e) && e@ == m,
                None => r is Ok,
            },
    {
        channel.name = trim_str(channel.name.as_str());
        if str_is_empty(channel.name.as_str()) {
            return Err(owned("渠道名称不能为空"));
        }
        let trimmed = trim_str(channel.config.as_str());
        channel.config = if str_is_empty(trimmed.as_str()) {
            owned("{}")
        } else {
            trimmed
        };
        if !is_valid_json(channel.config.as_str()) {
            return Err(owned("渠道配置必须是合法 JSON"));
        }
        Ok(())
    }
}


/// Parsing a channel kind's wire name gives the kind back.
pub proof fn lemma_channel_kind_roundtrip(k: ChannelKind)
    ensures
        channel_kind_of(channel_kind_name(k)) == k,
{
    reveal_strlit("dingtalk");
    reveal_strlit("feishu");
    reveal_strlit("bark");
    reveal_strlit("email");
    reveal_strlit("webhook");
    reveal_strlit("wechat");
    reveal_strlit("telegram");
    reveal_strlit("pushplus");
    assert("dingtalk"@[0] != "feishu"@[0]);
    assert("dingtalk"@[0] != "bark"@[0]);
    assert("dingtalk"@[0] != "email"@[0]);
    assert("dingtalk"@[0] != "webhook"@[0]);
    assert("dingtalk"@[0] != "wechat"@[0]);
    assert("dingtalk"@[0] != "telegram"@[0]);
    assert("dingtalk"@[0] != "pushplus"@[0]);
    assert("feishu"@[0] != "bark"@[0]);
    assert("feishu"@[0] != "email"@[0]);
    assert("feishu"@[0] != "webhook"@[0]);
    assert("feishu"@[0] != "wechat"@[0]);
    assert("feishu"@[0] != "telegram"@[0]);
    assert("feishu"@[0] != "pushplus"@[0]);
    assert("bark"@[0] != "email"@[0]);
    assert("bark"@[0] != "webhook"@[0]);
    assert("bark"@[0] != "wechat"@[0]);
    assert("bark"@[0] != "telegram"@[0]);
    assert("bark"@[0] != "pushplus"@[0]);
    assert("email"@[0] != "webhook"@[0]);
    assert("email"@[0] != "wechat"@[0]);
    assert("email"@[0] != "telegram"@[0]);
    assert("email"@[0] != "pushplus"@[0]);
    assert("webhook"@[2] != "wechat"@[2]);
    assert("webhook"@[0] != "telegram"@[0]);
    assert("webhook"@[0] != "pushplus"@[0]);
    assert("wechat"@[0] != "telegram"@[0]);
    assert("wechat"@[0] != "pushplus"@[0]);
    assert("telegram"@[0] != "pushplus"@[0]);
}

} // verus!
