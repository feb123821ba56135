//! Records the router moves between regions.

use vstd::prelude::*;
use vstd::string::*;
use crate::text::{decimal, push_decimal};

verus! {

/// A calendar date.
#[derive(Debug, Default, Clone, Copy, PartialEq, Eq, Structural)]
pub struct Date {
    pub year: i32,
    pub month: u32,
    pub day: u32,
}

/// A chat user.
#[derive(Debug, Default, Clone)]
pub struct User {
    /// User identifier.
    pub user_id: i64,
    /// Name of the user.
    pub username: String,
    /// Password hash.
    pub password_hash: String,
    /// E-mail address.
    pub email: String,
    /// Day the account was created.
    pub created_at: Option<Date>,
    /// Day of the last login.
    pub last_login: Option<Date>,
}

/// `prefix`, the decimal `n`, then `suffix`.
pub open spec fn tagged(prefix: Seq<char>, n: u64, suffix: Seq<char>) -> Seq<char> {
    prefix + decimal(n as nat) + suffix
}

/// `prefix`, the decimal `n`, then `suffix`.
pub fn tag_number(prefix: &str, n: u64, suffix: &str) -> (r: String)
    ensures
        r@ == tagged(prefix@, n, suffix@),
{
    let mut out = String::new();
    out.append(prefix);
    push_decimal(&mut out, n);
    out.append(suffix);
    assert(out@ =~= tagged(prefix@, n, suffix@));
    out
}

/// A server-wide setting with an integer value.
#[derive(Debug, Default, Clone)]
pub struct ServerSetting {
    pub setting_id: i64,
    pub settings_name: String,
    pub settings_value: i32,
}

impl ServerSetting {
    /// Fills the record from drawn numbers: the name is `setting_<name_n>`.
    pub fn fill_random(&mut self, name_n: u64, value: i32)
        ensures
            final(self).setting_id == old(self).setting_id,
            final(self).settings_name@ == tagged("setting_"@, name_n, ""@),
            final(self).settings_value == value,
    {
        self.settings_name = tag_number("setting_", name_n, "");
        self.settings_value = value;
    }
}

/// A per-channel setting.
#[derive(Debug, Default, Clone)]
pub struct ChannelSetting {
    pub setting_id: i64,
    pub channel_id: i64,
    pub setting_name: String,
    pub setting_value: String,
}

impl ChannelSetting {
    /// Fills the record from drawn numbers: `setting_name_<name_n>` set to
    /// `setting_value_<value_n>` for `channel_id`.
    pub fn fill_random(&mut self, channel_id: i64, name_n: u64, value_n: u64)
        ensures
            final(self).setting_id == old(self).setting_id,
            final(self).channel_id == channel_id,
            final(self).setting_name@ == tagged("setting_name_"@, name_n, ""@),
            final(self).setting_value@ == tagged("setting_value_"@, value_n, ""@),
    {
        self.channel_id = channel_id;
        self.setting_name = tag_number("setting_name_", name_n, "");
        self.setting_value = tag_number("setting_value_", value_n, "");
    }
}

/// A per-user setting.
#[derive(Debug, Default, Clone)]
pub struct UserSetting {
    pub settings_id: i64,
    pub user_id: i64,
    pub settings_name: String,
    pub settings_value: String,
}

impl UserSetting {
    /// Fills the record from drawn numbers: `setting_name_<name_n>` set to
    /// `setting_value_<value_n>` for `user_id`.
    pub fn fill_random(&mut self, user_id: i64, name_n: u64, value_n: u64)
        ensures
            final(self).settings_id == old(self).settings_id,
            final(self).user_id == user_id,
            final(self).settings_name@ == tagged("setting_name_"@, name_n, ""@),
            final(self).settings_value@ == tagged("setting_value_"@, value_n, ""@),
    {
        self.user_id = user_id;
        self.settings_name = tag_number("setting_name_", name_n, "");
        self.settings_value = tag_number("setting_value_", value_n, "");
    }
}

/// A server-wide setting kept as a key and a value.
#[derive(Debug, Default, Clone)]
pub struct ServerSettingKV {
    pub settings_name: String,
    pub settings_value: String,
}

impl ServerSettingKV {
    /// Fills the record from drawn numbers: `setting_<name_n>` set to
    /// `setting_val_<value_n>`.
    pub fn fill_random(&mut self, name_n: u64, value_n: u64)
        ensures
            final(self).settings_name@ == tagged("setting_"@, name_n, ""@),
            final(self).settings_value@ == tagged("setting_val_"@, value_n, ""@),
    {
        self.settings_name = tag_number("setting_", name_n, "");
        self.settings_value = tag_number("setting_val_", value_n, "");
    }
}

/// A per-channel setting kept as a key and a value.
#[derive(Debug, Default, Clone)]
pub struct ChannelSettingKV {
    pub channel_id: i64,
    pub settings_name: String,
    pub settings_value: String,
}

impl ChannelSettingKV {
    /// Fills the record from drawn numbers: `setting_<name_n>` set to
    /// `setting_val_<value_n>` for `channel_id`.
    pub fn fill_random(&mut self, channel_id: i64, name_n: u64, value_n: u64)
        ensures
            final(self).channel_id == channel_id,
            final(self).settings_name@ == tagged("setting_"@, name_n, ""@),
            final(self).settings_value@ == tagged("setting_val_"@, value_n, ""@),
    {
        self.channel_id = channel_id;
        self.settings_name = tag_number("setting_", name_n, "");
        self.settings_value = tag_number("setting_val_", value_n, "");
    }
}

/// A per-user setting kept as a key and a value.
#[derive(Debug, Default, Clone)]
pub struct UserSettingKV {
    pub user_id: i64,
    pub settings_name: String,
    pub settings_value: String,
}

impl UserSettingKV {
    /// Fills the record from drawn numbers: `setting_<name_n>` set to
    /// `setting_val_<value_n>` for `user_id`.
    pub fn fill_random(&mut self, user_id: i64, name_n: u64, value_n: u64)
        ensures
            final(self).user_id == user_id,
            final(self).settings_name@ == tagged("setting_"@, name_n, ""@),
            final(self).settings_value@ == tagged("setting_val_"@, value_n, ""@),
    {
        self.user_id = user_id;
        self.settings_name = tag_number("setting_", name_n, "");
        self.settings_value = tag_number("setting_val_", value_n, "");
    }
}

/// A user's public profile.
#[derive(Debug, Default, Clone)]
pub struct UserProfile {
    pub profile_id: i64,
    pub user_id: i64,
    pub bio: String,
    pub profile_picture_url: String,
    pub location: String,
}

impl UserProfile {
    /// Fills the record from drawn numbers, for `user_id`.
    pub fn fill_random(&mut self, user_id: i64, bio_n: u64, picture_n: u64, location_n: u64)
        ensures
            final(self).profile_id == old(self).profile_id,
            final(self).user_id == user_id,
            final(self).bio@ == tagged("This is a random bio for user "@, bio_n, ""@),
            final(self).profile_picture_url@ == tagged(
                "https://example.com/profile_pictures/user_"@,
                picture_n,
                ".png"@,
            ),
            final(self).location@ == tagged("Location "@, location_n, ""@),
    {
        self.user_id = user_id;
        self.bio = tag_number("This is a random bio for user ", bio_n, "");
        self.profile_picture_url = tag_number(
            "https://example.com/profile_pictures/user_",
            picture_n,
            ".png",
        );
        self.location = tag_number("Location ", location_n, "");
    }
}

/// The day generated records are dated, 2025-01-01.
pub open spec fn first_day() -> Date {
    Date { year: 2025, month: 1, day: 1 }
}

/// The day after `first_day`, 2025-01-02.
pub open spec fn second_day() -> Date {
    Date { year: 2025, month: 1, day: 2 }
}

impl User {
    /// Fills the record from drawn numbers: `user_<name_n>`, `hash_<hash_n>`,
    /// `user<mail_n>@example.com`, created 2025-01-01, last seen 2025-01-02.
    pub fn fill_random(&mut self, name_n: u64, hash_n: u64, mail_n: u64)
        ensures
            final(self).user_id == old(self).user_id,
            final(self).username@ == tagged("user_"@, name_n, ""@),
            final(self).password_hash@ == tagged("hash_"@, hash_n, ""@),
            final(self).email@ == tagged("user"@, mail_n, "@example.com"@),
            final(self).created_at == Some(first_day()),
            final(self).last_login == Some(second_day()),
    {
        self.username = tag_number("user_", name_n, "");
        self.password_hash = tag_number("hash_", hash_n, "");
        self.email = tag_number("user", mail_n, "@example.com");
        self.created_at = Some(Date { year: 2025, month: 1, day: 1 });
        self.last_login = Some(Date { year: 2025, month: 1, day: 2 });
    }
}

/// Membership of a user in a channel.
#[derive(Debug, Default, Clone)]
pub struct ChannelUser {
    pub channel_user_id: i64,
    pub channel_id: i64,
    pub user_id: i64,
    pub joined_at: Option<Date>,
    pub role: String,
}

impl ChannelUser {
    /// Fills the record from drawn numbers: joined 2025-01-01 with role
    /// `role_<role_n>`.
    pub fn fill_random(&mut self, channel_user_id: i64, channel_id: i64, user_id: i64, role_n: u64)
        ensures
            final(self).channel_user_id == channel_user_id,
            final(self).channel_id == channel_id,
            final(self).user_id == user_id,
            final(self).joined_at == Some(first_day()),
            final(self).role@ == tagged("role_"@, role_n, ""@),
    {
        self.channel_user_id = channel_user_id;
        self.channel_id = channel_id;
        self.user_id = user_id;
        self.joined_at = Some(Date { year: 2025, month: 1, day: 1 });
        self.role = tag_number("role_", role_n, "");
    }
}

/// A chat channel.
#[derive(Debug, Default, Clone)]
pub struct Channel {
    pub channel_id: i64,
    pub channel_name: String,
    pub topic: i32,
    pub created_by: i64,
    pub creator: Option<Date>,
    pub is_private: bool,
}

impl Channel {
    /// Fills the record from drawn values: `channel_<name_n>`, created
    /// 2025-01-01.
    pub fn fill_random(&mut self, name_n: u64, topic: i32, created_by: i64, is_private: bool)
        ensures
            final(self).channel_id == old(self).channel_id,
            final(self).channel_name@ == tagged("channel_"@, name_n, ""@),
            final(self).topic == topic,
            final(self).created_by == created_by,
            final(self).creator == Some(first_day()),
            final(self).is_private == is_private,
    {
        self.channel_name = tag_number("channel_", name_n, "");
        self.topic = topic;
        self.created_by = created_by;
        self.creator = Some(Date { year: 2025, month: 1, day: 1 });
        self.is_private = is_private;
    }
}

/// A chat message; the time is in seconds since the Unix epoch.
#[derive(Debug, Default, Clone)]
pub struct Message {
    pub message_id: i64,
    pub channel_id: i64,
    pub user_id: i64,
    pub message_text: String,
    pub timestamp: Option<i64>,
}

impl Message {
    /// Fills the record from drawn numbers and the current time `now`.
    pub fn fill_random(&mut self, channel_id: i64, user_id: i64, text_n: u64, now: i64)
        ensures
            final(self).message_id == old(self).message_id,
            final(self).channel_id == channel_id,
            final(self).user_id == user_id,
            final(self).message_text@ == tagged("This is a random message "@, text_n, ""@),
            final(self).timestamp == Some(now),
    {
        self.channel_id = channel_id;
        self.user_id = user_id;
        self.message_text = tag_number("This is a random message ", text_n, "");
        self.timestamp = Some(now);
    }
}

/// A reaction to a message; the time is in seconds since the Unix epoch.
#[derive(Debug, Default, Clone)]
pub struct Reaction {
    pub reaction_id: i64,
    pub message_id: i64,
    pub user_id: i64,
    pub timestamp: Option<i64>,
    pub reaction_type: String,
}

impl Reaction {
    /// Fills the record from drawn numbers and the current time `now`.
    pub fn fill_random(&mut self, message_id: i64, user_id: i64, type_n: u64, now: i64)
        ensures
            final(self).reaction_id == old(self).reaction_id,
            final(self).message_id == message_id,
            final(self).user_id == user_id,
            final(self).timestamp == Some(now),
            final(self).reaction_type@ == tagged("reaction_type_"@, type_n, ""@),
    {
        self.message_id = message_id;
        self.user_id = user_id;
        self.timestamp = Some(now);
        self.reaction_type = tag_number("reaction_type_", type_n, "");
    }
}

/// A user banned from a channel.
#[derive(Debug, Default, Clone)]
pub struct Ban {
    pub ban_id: i64,
    pub channel_id: i64,
    pub user_id: i64,
    pub banned_at: Option<Date>,
    pub reason: String,
}

impl Ban {
    /// Fills the record from drawn numbers: banned 2025-01-01 for
    /// `Reason for ban <reason_n>`.
    pub fn fill_random(&mut self, channel_id: i64, user_id: i64, reason_n: u64)
        ensures
            final(self).ban_id == old(self).ban_id,
            final(self).channel_id == channel_id,
            final(self).user_id == user_id,
            final(self).banned_at == Some(first_day()),
            final(self).reason@ == tagged("Reason for ban "@, reason_n, ""@),
    {
        self.channel_id = channel_id;
        self.user_id = user_id;
        self.banned_at = Some(Date { year: 2025, month: 1, day: 1 });
        self.reason = tag_number("Reason for ban ", reason_n, "");
    }
}

/// An event log line; the time is in seconds since the Unix epoch.
#[derive(Debug, Default, Clone)]
pub struct Log {
    pub log_id: i64,
    pub event_type: String,
    pub user_id: i64,
    pub channel_id: i64,
    pub timestamp: Option<i64>,
    pub details: String,
}

impl Log {
    /// Fills the record from drawn numbers and the current time `now`.
    pub fn fill_random(&mut self, event_n: u64, user_id: i64, channel_id: i64, now: i64, details_n: u64)
        ensures
            final(self).log_id == old(self).log_id,
            final(self).event_type@ == tagged("event_type_"@, event_n, ""@),
            final(self).user_id == user_id,
            final(self).channel_id == channel_id,
            final(self).timestamp == Some(now),
            final(self).details@ == tagged("Details for event "@, details_n, ""@),
    {
        self.event_type = tag_number("event_type_", event_n, "");
        self.user_id = user_id;
        self.channel_id = channel_id;
        self.timestamp = Some(now);
        self.details = tag_number("Details for event ", details_n, "");
    }
}

} // verus!
