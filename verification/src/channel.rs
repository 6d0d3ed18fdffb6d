//! Channels, categories and the kinds of channel a server can hold.
use vstd::prelude::*;
use crate::error::AppError;
use crate::text::{concat2, str_eq};

verus! {

/// The kinds of channel.
#[derive(Debug, Clone, Copy, PartialEq, Eq, Structural)]
pub enum ChannelType {
    Text,
    Voice,
    Video,
    Screen,
    Forum,
    Announcement,
    Nsfw,
}

/// The lower-case name under which a channel kind is stored and sent.
pub open spec fn channel_type_name(t: ChannelType) -> Seq<char> {
    match t {
        ChannelType::Text => "text"@,
        ChannelType::Voice => "voice"@,
        ChannelType::Video => "video"@,
        ChannelType::Screen => "screen"@,
        ChannelType::Forum => "forum"@,
        ChannelType::Announcement => "announcement"@,
        ChannelType::Nsfw => "nsfw"@,
    }
}

/// The channel kind whose name is `s`, if any.
pub open spec fn parse_channel_type(s: Seq<char>) -> Option<ChannelType> {
    if s == "text"@ {
        Some(ChannelType::Text)
    } else if s == "voice"@ {
        Some(ChannelType::Voice)
    } else if s == "video"@ {
        Some(ChannelType::Video)
    } else if s == "screen"@ {
        Some(ChannelType::Screen)
    } else if s == "forum"@ {
        Some(ChannelType::Forum)
    } else if s == "announcement"@ {
        Some(ChannelType::Announcement)
    } else if s == "nsfw"@ {
        Some(ChannelType::Nsfw)
    } else {
        None
    }
}

impl ChannelType {
    /// The stored name of this kind.
    pub fn as_str(&self) -> (res: &str)
        ensures
            res@ == channel_type_name(*self),
    {
        match self {
            ChannelType::Text => "text",
            ChannelType::Voice => "voice",
            ChannelType::Video => "video",
            ChannelType::Screen => "screen",
            ChannelType::Forum => "forum",
            ChannelType::Announcement => "announcement",
            ChannelType::Nsfw => "nsfw",
        }
    }

    /// The kind named `s`, or `None` for an unknown name.
    pub fn from_str(s: &str) -> (res: Option<Self>)
        ensures
            res == parse_channel_type(s@),
    {
        if str_eq(s, "text") {
            Some(ChannelType::Text)
        } else if str_eq(s, "voice") {
            Some(ChannelType::Voice)
        } else if str_eq(s, "video") {
            Some(ChannelType::Video)
        } else if str_eq(s, "screen") {
            Some(ChannelType::Screen)
        } else if str_eq(s, "forum") {
            Some(ChannelType::Forum)
        } else if str_eq(s, "announcement") {
            Some(ChannelType::Announcement)
        } else if str_eq(s, "nsfw") {
            Some(ChannelType::Nsfw)
        } else {
            None
        }
    }
}

/// Parsing the name of a kind gives that kind back, and a name parses to a
/// kind only when it is that kind's name.
pub proof fn law_channel_type_round_trip(t: ChannelType, s: Seq<char>)
    ensures
        parse_channel_type(channel_type_name(t)) == Some(t),
        parse_channel_type(s) == Some(t) ==> s == channel_type_name(t),
{
    reveal_strlit("text");
    reveal_strlit("voice");
    reveal_strlit("video");
    reveal_strlit("screen");
    reveal_strlit("forum");
    reveal_strlit("announcement");
    reveal_strlit("nsfw");
    assert("text"@[0] != "nsfw"@[0]);
    assert("voice"@[2] != "video"@[2]);
    assert("voice"@[0] != "forum"@[0]);
    assert("video"@[0] != "forum"@[0]);
    assert("text"@.len() != "voice"@.len());
    assert("text"@.len() != "screen"@.len());
    assert("text"@.len() != "announcement"@.len());
    assert("voice"@.len() != "screen"@.len());
    assert("voice"@.len() != "announcement"@.len());
    assert("voice"@.len() != "nsfw"@.len());
    assert("video"@.len() != "screen"@.len());
    assert("video"@.len() != "announcement"@.len());
    assert("video"@.len() != "nsfw"@.len());
    assert("screen"@.len() != "forum"@.len());
    assert("screen"@.len() != "announcement"@.len());
    assert("screen"@.len() != "nsfw"@.len());
    assert("forum"@.len() != "announcement"@.len());
    assert("forum"@.len() != "nsfw"@.len());
    assert("announcement"@.len() != "nsfw"@.len());
}

/// Checks the kind requested for a new channel: one of the known names, or
/// `BadRequest` naming the refused kind.
pub fn validate_channel_type(channel_type: &str) -> (res: Result<(), AppError>)
    ensures
        res is Ok <==> parse_channel_type(channel_type@) is Some,
        res matches Err(e) ==> e == AppError::BadRequest(e->BadRequest_0) && e->BadRequest_0@
            == "Type de salon invalide : "@ + channel_type@,
{
    match ChannelType::from_str(channel_type) {
        Some(_) => Ok(()),
        None => Err(AppError::BadRequest(concat2("Type de salon invalide : ", channel_type))),
    }
}

/// A channel of a server.
#[derive(Debug, Clone)]
pub struct Channel {
    pub id: String,
    pub server_id: String,
    pub category_id: Option<String>,
    pub name: String,
    pub channel_type: String,
    pub topic: String,
    pub position: i32,
    pub is_archived: bool,
    pub created_at: String,
    pub updated_at: String,
}

/// A category grouping channels.
#[derive(Debug, Clone)]
pub struct Category {
    pub id: String,
    pub server_id: String,
    pub name: String,
    pub position: i32,
    pub created_at: String,
}

/// Request body to create a channel.
#[derive(Debug, Clone)]
pub struct CreateChannelRequest {
    pub name: String,
    pub channel_type: String,
    pub category_id: Option<String>,
}

/// Request body to update a channel.
#[derive(Debug, Clone)]
pub struct UpdateChannelRequest {
    pub name: Option<String>,
    pub topic: Option<String>,
    pub is_archived: Option<bool>,
}

/// Request body to create a category.
#[derive(Debug, Clone)]
pub struct CreateCategoryRequest {
    pub name: String,
}

/// Request body to update a category.
#[derive(Debug, Clone)]
pub struct UpdateCategoryRequest {
    pub name: Option<String>,
    pub position: Option<i32>,
}

} // verus!
