use crate::constants::{EXPIRE_MAX_SECS, EXPIRE_MIN_SECS, PRIORITY_EMERGENCY, PRIORITY_MIN, RETRY_MIN_SECS};
use crate::rules::is_sound_token;
use crate::text::is_blank;
use vstd::prelude::*;

verus! {

/// A text-only notification, as handed to the sending side.
///
/// Prefer `MessageBuilder` to filling the fields by hand: a record that comes out of
/// the builder is `consistent`.
#[derive(Debug, Clone)]
pub struct Message {
    /// Token of the sending application.
    pub app_token: String,
    /// Key of the receiving user.
    pub user_key: String,
    /// The notification's text.
    pub message: String,
    /// Title shown above the text; the application's name is shown when unset.
    pub title: Option<String>,
    /// A supplementary link.
    pub url: Option<String>,
    /// Caption of the supplementary link.
    pub url_title: Option<String>,
    /// From -2 (no alert) to 2 (emergency, asks for confirmation).
    pub priority: Option<i8>,
    /// Token of the sound to play.
    pub sound: Option<String>,
    /// Unix time, in seconds, to show in place of the time of receipt.
    pub timestamp: Option<u64>,
    /// Names of the devices to deliver to; every device when unset.
    pub devices: Option<Vec<String>>,
    /// Seconds after which the notification deletes itself.
    pub ttl: Option<u32>,
    /// Seconds between two alerts of an emergency notification.
    pub retry: Option<i32>,
    /// Seconds after which an emergency notification stops alerting.
    pub expire: Option<i32>,
}

/// What a `Message` holds, as mathematical values.
pub ghost struct MessageView {
    pub app_token: Seq<char>,
    pub user_key: Seq<char>,
    pub message: Seq<char>,
    pub title: Option<Seq<char>>,
    pub url: Option<Seq<char>>,
    pub url_title: Option<Seq<char>>,
    pub priority: Option<i8>,
    pub sound: Option<Seq<char>>,
    pub timestamp: Option<u64>,
    pub devices: Option<Seq<Seq<char>>>,
    pub ttl: Option<u32>,
    pub retry: Option<i32>,
    pub expire: Option<i32>,
}

impl View for Message {
    type V = MessageView;

    open spec fn view(&self) -> MessageView {
        MessageView {
            app_token: self.app_token@,
            user_key: self.user_key@,
            message: self.message@,
            title: self.title.deep_view(),
            url: self.url.deep_view(),
            url_title: self.url_title.deep_view(),
            priority: self.priority,
            sound: self.sound.deep_view(),
            timestamp: self.timestamp,
            devices: self.devices.deep_view(),
            ttl: self.ttl,
            retry: self.retry,
            expire: self.expire,
        }
    }
}

impl Default for Message {
    /// Empty credentials, a placeholder text and nothing else set.
    fn default() -> (m: Message)
        ensures
            m@ == MessageView::blank(),
    {
        Message {
            app_token: String::new(),
            user_key: String::new(),
            message: "No message set.".to_owned(),
            title: None,
            url: None,
            url_title: None,
            priority: None,
            sound: None,
            timestamp: None,
            devices: None,
            ttl: None,
            retry: None,
            expire: None,
        }
    }
}

impl MessageView {
    /// What holds of every record on its way through a `MessageBuilder`: each optional
    /// field, where set, holds a value that the remote side accepts, and the retry
    /// interval and the expiry are set for an emergency only.
    pub open spec fn consistent(self) -> bool {
        &&& self.title matches Some(t) ==> !is_blank(t)
        &&& self.url matches Some(u) ==> !is_blank(u)
        &&& self.url_title is Some ==> self.url is Some
        &&& self.priority matches Some(p) ==> PRIORITY_MIN <= p <= PRIORITY_EMERGENCY
        &&& self.sound matches Some(s) ==> is_sound_token(s)
        &&& self.ttl matches Some(t) ==> t > 0
        &&& self.retry matches Some(r) ==> r >= RETRY_MIN_SECS
        &&& self.expire matches Some(e) ==> EXPIRE_MIN_SECS <= e <= EXPIRE_MAX_SECS
        &&& self.priority != Some(PRIORITY_EMERGENCY) ==> self.retry is None && self.expire is None
    }

    /// What holds moreover of a record that a `MessageBuilder` has finished: an
    /// emergency has its retry interval and its expiry.
    pub open spec fn complete(self) -> bool {
        &&& self.consistent()
        &&& self.priority == Some(PRIORITY_EMERGENCY) ==> self.retry is Some && self.expire is Some
    }

    /// The record that `Message::default` makes.
    pub open spec fn blank() -> MessageView {
        MessageView {
            app_token: Seq::empty(),
            user_key: Seq::empty(),
            message: "No message set."@,
            title: None,
            url: None,
            url_title: None,
            priority: None,
            sound: None,
            timestamp: None,
            devices: None,
            ttl: None,
            retry: None,
            expire: None,
        }
    }
}

} // verus!
