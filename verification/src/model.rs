//! The messages and records that the bot exchanges with WeChat and with the
//! account service.

use vstd::prelude::*;

verus! {

/// A message that WeChat forwards to the bot.
#[derive(Clone, Debug, PartialEq, Eq)]
pub struct WxResponse {
    pub to_user_name: Option<String>,
    pub from_user_name: Option<String>,
    pub create_time: Option<i64>,
    pub msg_type: Option<String>,
    pub content: Option<String>,
    pub msg_id: Option<i64>,
    pub msg_data_id: Option<String>,
    pub idx: Option<i64>,
}

/// The text reply that the bot sends back.
#[derive(Clone, Debug, PartialEq, Eq)]
pub struct WxSendText {
    pub to_user_name: Option<String>,
    pub from_user_name: Option<String>,
    pub create_time: Option<i64>,
    pub msg_type: Option<String>,
    pub content: Option<String>,
}

impl WxSendText {
    /// A reply with every field empty.
    pub fn new() -> (t: Self)
        ensures
            t.to_user_name is None,
            t.from_user_name is None,
            t.create_time is None,
            t.msg_type is None,
            t.content is None,
    {
        WxSendText {
            to_user_name: None,
            from_user_name: None,
            create_time: None,
            msg_type: None,
            content: None,
        }
    }
}

/// A member's record in the alliance's account service.
#[derive(Clone, Debug, PartialEq, Eq)]
pub struct SnipeAccount {
    pub id: Option<i64>,
    pub name: Option<String>,
    pub tag: Option<String>,
    pub clan_name: Option<String>,
    /// The member's role: 1 for an administrator, 2 for a member.
    pub kind: Option<i64>,
    pub status: Option<i64>,
    pub create_time: Option<String>,
    pub update_time: Option<String>,
}

impl Default for SnipeAccount {
    fn default() -> (a: Self)
        ensures
            a.id is None && a.name is None && a.tag is None && a.clan_name is None
                && a.kind is None && a.status is None && a.create_time is None
                && a.update_time is None,
    {
        SnipeAccount {
            id: None,
            name: None,
            tag: None,
            clan_name: None,
            kind: None,
            status: None,
            create_time: None,
            update_time: None,
        }
    }
}

/// When an alliance's war window is open.
#[derive(Clone, Debug, PartialEq, Eq)]
pub struct ListTime {
    pub union: String,
    pub day: String,
    pub time: String,
}

impl ListTime {
    /// `"{union}: {day} {time}"`.
    pub fn format_time(&self) -> (s: String)
        ensures
            s@ == self.union@ + ": "@ + self.day@ + " "@ + self.time@,
    {
        let mut s = self.union.clone();
        s.append(": ");
        s.append(self.day.as_str());
        s.append(" ");
        s.append(self.time.as_str());
        s
    }
}

} // verus!
