use crate::constants::{
    EXPIRE_MAX_SECS, EXPIRE_MIN_SECS, PRIORITY_EMERGENCY, PRIORITY_NORMAL, RETRY_MIN_SECS,
};
use crate::devices::{offer_name, offer_names, owned_names, texts, with_name, with_names};
use crate::message::{Message, MessageView};
use crate::rules::{
    clamp_priority, keep_text, optional_text, stored_expire, stored_priority, stored_retry,
    stored_text, stored_ttl,
};
use crate::sound::PushoverSound;
use crate::text::{is_blank, str_is_blank};
use vstd::prelude::*;

verus! {

/// Assembles a `Message` step by step. Each step takes the builder and gives it back;
/// `build` ends the chain. No step rejects its input: a value that the remote side would
/// not accept is corrected or dropped.
#[derive(Debug)]
pub struct MessageBuilder {
    build: Message,
}

impl MessageView {
    /// The record a builder starts from.
    pub open spec fn fresh(user_key: Seq<char>, app_token: Seq<char>, message: Seq<char>) -> MessageView {
        MessageView { user_key, app_token, message, ..MessageView::blank() }
    }

    /// A blank text leaves the message as it is.
    pub open spec fn modify_message(self, message: Seq<char>) -> MessageView {
        if is_blank(message) {
            self
        } else {
            MessageView { message, ..self }
        }
    }

    pub open spec fn set_title(self, title: Seq<char>) -> MessageView {
        MessageView { title: stored_text(title), ..self }
    }

    pub open spec fn remove_title(self) -> MessageView {
        MessageView { title: None, ..self }
    }

    /// A blank link unsets link and caption; another link is stored, and its caption
    /// replaces the present one where one is given.
    pub open spec fn set_url(self, url: Seq<char>, url_title: Option<Seq<char>>) -> MessageView {
        if is_blank(url) {
            self.remove_url()
        } else {
            MessageView {
                url: Some(url),
                url_title: if url_title is Some {
                    url_title
                } else {
                    self.url_title
                },
                ..self
            }
        }
    }

    pub open spec fn remove_url(self) -> MessageView {
        MessageView { url: None, url_title: None, ..self }
    }

    /// Stores the corrected priority; a record that is no emergency afterwards loses its
    /// retry interval and its expiry.
    pub open spec fn set_priority(self, priority: i8) -> MessageView {
        let stored = stored_priority(priority);
        if stored == PRIORITY_EMERGENCY {
            MessageView { priority: Some(stored), ..self }
        } else {
            MessageView { priority: Some(stored), retry: None, expire: None, ..self }
        }
    }

    pub open spec fn remove_priority(self) -> MessageView {
        MessageView { priority: Some(PRIORITY_NORMAL), retry: None, expire: None, ..self }
    }

    /// Only an emergency takes a retry interval.
    pub open spec fn set_retry(self, retry_secs: i32) -> MessageView {
        if self.priority == Some(PRIORITY_EMERGENCY) {
            MessageView { retry: Some(stored_retry(retry_secs)), ..self }
        } else {
            self
        }
    }

    /// Only an emergency takes an expiry.
    pub open spec fn set_expire(self, expire_secs: i32) -> MessageView {
        if self.priority == Some(PRIORITY_EMERGENCY) {
            MessageView { expire: Some(stored_expire(expire_secs)), ..self }
        } else {
            self
        }
    }

    pub open spec fn set_sound(self, sound: PushoverSound) -> MessageView {
        MessageView { sound: Some(sound.token()), ..self }
    }

    pub open spec fn remove_sound(self) -> MessageView {
        MessageView { sound: None, ..self }
    }

    pub open spec fn set_timestamp(self, unix_timestamp: u64) -> MessageView {
        MessageView { timestamp: Some(unix_timestamp), ..self }
    }

    pub open spec fn remove_timestamp(self) -> MessageView {
        MessageView { timestamp: None, ..self }
    }

    /// The one name takes the place of the whole list; a blank name unsets the list.
    pub open spec fn set_device(self, device_name: Seq<char>) -> MessageView {
        if is_blank(device_name) {
            self.clear_devices_list()
        } else {
            MessageView { devices: Some(seq![device_name]), ..self }
        }
    }

    pub open spec fn add_device(self, device_name: Seq<char>) -> MessageView {
        MessageView { devices: with_name(self.devices, device_name), ..self }
    }

    pub open spec fn set_devices(self, device_names: Seq<Seq<char>>) -> MessageView {
        MessageView { devices: Some(device_names), ..self }
    }

    pub open spec fn merge_devices(self, device_names: Seq<Seq<char>>) -> MessageView {
        MessageView { devices: with_names(self.devices, device_names), ..self }
    }

    pub open spec fn clear_devices_list(self) -> MessageView {
        MessageView { devices: None, ..self }
    }

    pub open spec fn set_ttl(self, ttl_secs: u32) -> MessageView {
        MessageView { ttl: stored_ttl(ttl_secs), ..self }
    }

    /// An emergency gets the shortest retry interval and the longest expiry where it
    /// has none; nothing else changes.
    pub open spec fn build(self) -> MessageView {
        if self.priority == Some(PRIORITY_EMERGENCY) {
            MessageView {
                retry: if self.retry is None {
                    Some(RETRY_MIN_SECS)
                } else {
                    self.retry
                },
                expire: if self.expire is None {
                    Some(EXPIRE_MAX_SECS)
                } else {
                    self.expire
                },
                ..self
            }
        } else {
            self
        }
    }
}

/// A priority outside -2..=2 is stored as 0, and finishing the record keeps it so.
pub proof fn lemma_unknown_priority_becomes_normal(m: MessageView, priority: i8)
    requires
        priority < -2 || priority > 2,
    ensures
        m.set_priority(priority).priority == Some(0i8),
        m.set_priority(priority).build().priority == Some(0i8),
{
}

/// Whenever a step leaves the priority at anything but 2, retry interval and expiry
/// are unset after it.
pub proof fn lemma_leaving_emergency_clears(m: MessageView, priority: i8)
    requires
        priority != 2,
    ensures
        m.set_priority(priority).retry is None,
        m.set_priority(priority).expire is None,
        m.remove_priority().retry is None,
        m.remove_priority().expire is None,
{
}

/// A time to live of zero leaves the record, also the finished one, without any.
pub proof fn lemma_zero_ttl_unsets(m: MessageView)
    ensures
        m.set_ttl(0).ttl is None,
        m.set_ttl(0).build().ttl is None,
{
}

/// Merging a name that the device list holds already changes nothing in the record:
/// the list keeps its names, their order and its length.
pub proof fn lemma_merge_known_device(m: MessageView, name: Seq<char>)
    requires
        m.devices is Some,
        m.devices->0.contains(name),
    ensures
        m.merge_devices(seq![name]) == m,
        m.add_device(name) == m,
{
    let names = seq![name];
    assert(names.drop_last() =~= Seq::<Seq<char>>::empty());
    assert(with_names(m.devices, names.drop_last()) == m.devices);
}

/// An emergency that was given neither retry interval nor expiry is finished with 30
/// and 10800 seconds; one that was given them keeps what was stored, untouched.
pub proof fn lemma_emergency_defaults(m: MessageView)
    requires
        m.priority == Some(2i8),
    ensures
        m.retry is None ==> m.build().retry == Some(30i32),
        m.expire is None ==> m.build().expire == Some(10800i32),
        m.retry is Some ==> m.build().retry == m.retry,
        m.expire is Some ==> m.build().expire == m.expire,
{
}

/// The retry interval and the expiry that an emergency asks for come out of `build`
/// as they were stored: the request itself where it is in range, the nearest bound
/// where it is not.
pub proof fn lemma_emergency_keeps_requests(m: MessageView, retry_secs: i32, expire_secs: i32)
    ensures
        m.set_priority(2).set_retry(retry_secs).set_expire(expire_secs).build().retry == Some(
            stored_retry(retry_secs),
        ),
        m.set_priority(2).set_retry(retry_secs).set_expire(expire_secs).build().expire == Some(
            stored_expire(expire_secs),
        ),
        retry_secs >= 30 ==> stored_retry(retry_secs) == retry_secs,
        60 <= expire_secs <= 10800 ==> stored_expire(expire_secs) == expire_secs,
{
}

/// Finishing a record changes nothing but, for an emergency, the retry interval and
/// the expiry.
pub proof fn lemma_build_touches_emergency_only(m: MessageView)
    ensures
        m.priority != Some(2i8) ==> m.build() == m,
        m.build() == (MessageView { retry: m.build().retry, expire: m.build().expire, ..m }),
{
}

impl View for MessageBuilder {
    type V = MessageView;

    /// The record as it stands.
    closed spec fn view(&self) -> MessageView {
        self.build@
    }
}

impl MessageBuilder {
    #[verifier::type_invariant]
    spec fn inv(self) -> bool {
        self.build@.consistent()
    }

    /// Starts a record with the three values that every notification needs, stored as
    /// they are given, and nothing else set.
    pub fn new(user_key: &str, application_token: &str, message: &str) -> (out: Self)
        ensures
            out@ == MessageView::fresh(user_key@, application_token@, message@),
    {
        let mut build = Message::default();
        build.user_key = user_key.to_owned();
        build.app_token = application_token.to_owned();
        build.message = message.to_owned();
        MessageBuilder { build }
    }

    /// Replaces the text, unless the new one is blank.
    pub fn modify_message(self, message: &str) -> (out: MessageBuilder)
        ensures
            out@ == self@.modify_message(message@),
    {
        proof {
            use_type_invariant(&self);
        }
        if str_is_blank(message) {
            return self;
        }
        let mut build = self.build;
        build.message = message.to_owned();
        MessageBuilder { build }
    }

    /// Sets the title; a blank one unsets it.
    pub fn set_title(self, title: &str) -> (out: MessageBuilder)
        ensures
            out@ == self@.set_title(title@),
    {
        proof {
            use_type_invariant(&self);
        }
        let mut build = self.build;
        build.title = keep_text(title);
        MessageBuilder { build }
    }

    /// The older name of `set_title`.
    pub fn add_title(self, title: &str) -> (out: MessageBuilder)
        ensures
            out@ == self@.set_title(title@),
    {
        self.set_title(title)
    }

    /// Unsets the title.
    pub fn remove_title(self) -> (out: MessageBuilder)
        ensures
            out@ == self@.remove_title(),
    {
        proof {
            use_type_invariant(&self);
        }
        let mut build = self.build;
        build.title = None;
        MessageBuilder { build }
    }

    /// Sets the supplementary link and, where one is given, its caption; a blank link
    /// unsets both.
    pub fn set_url(self, url: &str, url_title: Option<&str>) -> (out: MessageBuilder)
        ensures
            out@ == self@.set_url(url@, optional_text(url_title)),
    {
        proof {
            use_type_invariant(&self);
        }
        let mut build = self.build;
        if str_is_blank(url) {
            build.url = None;
            build.url_title = None;
        } else {
            build.url = Some(url.to_owned());
            match url_title {
                Some(caption) => {
                    build.url_title = Some(caption.to_owned());
                },
                None => {},
            }
        }
        MessageBuilder { build }
    }

    /// The older name of `set_url`.
    pub fn add_url(self, url: &str, url_title: Option<&str>) -> (out: MessageBuilder)
        ensures
            out@ == self@.set_url(url@, optional_text(url_title)),
    {
        self.set_url(url, url_title)
    }

    /// Unsets the supplementary link and its caption.
    pub fn remove_url(self) -> (out: MessageBuilder)
        ensures
            out@ == self@.remove_url(),
    {
        proof {
            use_type_invariant(&self);
        }
        let mut build = self.build;
        build.url = None;
        build.url_title = None;
        MessageBuilder { build }
    }

    /// Sets the priority. A value that the remote side does not know becomes the normal
    /// priority; unless the outcome is an emergency, retry interval and expiry are unset.
    pub fn set_priority(self, priority: i8) -> (out: MessageBuilder)
        ensures
            out@ == self@.set_priority(priority),
            priority < -2 || priority > 2 ==> out@.priority == Some(0i8),
            -2 <= priority <= 2 ==> out@.priority == Some(priority),
    {
        proof {
            use_type_invariant(&self);
        }
        let stored: i8 = clamp_priority(priority);
        let mut build = self.build;
        build.priority = Some(stored);
        if stored != PRIORITY_EMERGENCY {
            build.retry = None;
            build.expire = None;
        }
        MessageBuilder { build }
    }

    /// Goes back to the normal priority, and unsets retry interval and expiry.
    pub fn remove_priority(self) -> (out: MessageBuilder)
        ensures
            out@ == self@.remove_priority(),
    {
        proof {
            use_type_invariant(&self);
        }
        let mut build = self.build;
        build.priority = Some(PRIORITY_NORMAL);
        build.retry = None;
        build.expire = None;
        MessageBuilder { build }
    }

    /// Sets the seconds between two alerts of an emergency, at least 30. Does nothing
    /// unless the priority is that of an emergency.
    pub fn set_retry(self, retry_secs: i32) -> (out: MessageBuilder)
        ensures
            out@ == self@.set_retry(retry_secs),
    {
        proof {
            use_type_invariant(&self);
        }
        let mut build = self.build;
        match build.priority {
            Some(p) if p == PRIORITY_EMERGENCY => {
                if retry_secs < RETRY_MIN_SECS {
                    build.retry = Some(RETRY_MIN_SECS);
                } else {
                    build.retry = Some(retry_secs);
                }
            },
            _ => {},
        }
        MessageBuilder { build }
    }

    /// Sets the seconds after which an emergency stops alerting, from 60 to 10800. Does
    /// nothing unless the priority is that of an emergency.
    pub fn set_expire(self, expire_secs: i32) -> (out: MessageBuilder)
        ensures
            out@ == self@.set_expire(expire_secs),
    {
        proof {
            use_type_invariant(&self);
        }
        let mut build = self.build;
        match build.priority {
            Some(p) if p == PRIORITY_EMERGENCY => {
                if expire_secs < EXPIRE_MIN_SECS {
                    build.expire = Some(EXPIRE_MIN_SECS);
                } else if expire_secs > EXPIRE_MAX_SECS {
                    build.expire = Some(EXPIRE_MAX_SECS);
                } else {
                    build.expire = Some(expire_secs);
                }
            },
            _ => {},
        }
        MessageBuilder { build }
    }

    /// Sets the sound to play.
    pub fn set_sound(self, sound: PushoverSound) -> (out: MessageBuilder)
        ensures
            out@ == self@.set_sound(sound),
    {
        proof {
            use_type_invariant(&self);
        }
        let mut build = self.build;
        build.sound = Some(sound.to_string());
        MessageBuilder { build }
    }

    /// Goes back to the user's own sound.
    pub fn remove_sound(self) -> (out: MessageBuilder)
        ensures
            out@ == self@.remove_sound(),
    {
        proof {
            use_type_invariant(&self);
        }
        let mut build = self.build;
        build.sound = None;
        MessageBuilder { build }
    }

    /// Sets the time to show, in Unix seconds.
    pub fn set_timestamp(self, unix_timestamp: u64) -> (out: MessageBuilder)
        ensures
            out@ == self@.set_timestamp(unix_timestamp),
    {
        proof {
            use_type_invariant(&self);
        }
        let mut build = self.build;
        build.timestamp = Some(unix_timestamp);
        MessageBuilder { build }
    }

    /// Unsets the time to show.
    pub fn remove_timestamp(self) -> (out: MessageBuilder)
        ensures
            out@ == self@.remove_timestamp(),
    {
        proof {
            use_type_invariant(&self);
        }
        let mut build = self.build;
        build.timestamp = None;
        MessageBuilder { build }
    }

    /// Delivers to the one named device, whatever the list held; a blank name unsets
    /// the list.
    pub fn set_device(self, device_name: &str) -> (out: MessageBuilder)
        ensures
            out@ == self@.set_device(device_name@),
    {
        proof {
            use_type_invariant(&self);
        }
        let mut build = self.build;
        if str_is_blank(device_name) {
            build.devices = None;
        } else {
            let mut list: Vec<String> = Vec::new();
            list.push(device_name.to_owned());
            assert(list.deep_view() =~= seq![device_name@]);
            build.devices = Some(list);
        }
        MessageBuilder { build }
    }

    /// Unsets the device list: the notification goes to every device.
    pub fn remove_device(self) -> (out: MessageBuilder)
        ensures
            out@ == self@.clear_devices_list(),
    {
        self.clear_devices_list()
    }

    /// Adds a device to the list, unless the name is blank or the list holds it already.
    pub fn add_device(self, device_name: &str) -> (out: MessageBuilder)
        ensures
            out@ == self@.add_device(device_name@),
    {
        proof {
            use_type_invariant(&self);
        }
        let mut build = self.build;
        build.devices = offer_name(build.devices, device_name);
        MessageBuilder { build }
    }

    /// Replaces the device list by the given names, as they are and in their order.
    pub fn set_devices(self, device_names: Vec<&str>) -> (out: MessageBuilder)
        ensures
            out@ == self@.set_devices(texts(device_names@)),
    {
        proof {
            use_type_invariant(&self);
        }
        let mut build = self.build;
        build.devices = Some(owned_names(&device_names));
        MessageBuilder { build }
    }

    /// Adds each of the given names as `add_device` does, first to last.
    pub fn merge_devices(self, device_names: Vec<&str>) -> (out: MessageBuilder)
        ensures
            out@ == self@.merge_devices(texts(device_names@)),
    {
        proof {
            use_type_invariant(&self);
        }
        let mut build = self.build;
        build.devices = offer_names(build.devices, &device_names);
        MessageBuilder { build }
    }

    /// Unsets the device list: the notification goes to every device.
    pub fn clear_devices_list(self) -> (out: MessageBuilder)
        ensures
            out@ == self@.clear_devices_list(),
    {
        proof {
            use_type_invariant(&self);
        }
        let mut build = self.build;
        build.devices = None;
        MessageBuilder { build }
    }

    /// Sets the seconds after which the notification deletes itself; zero unsets them.
    pub fn set_ttl(self, ttl_secs: u32) -> (out: MessageBuilder)
        ensures
            out@ == self@.set_ttl(ttl_secs),
            ttl_secs == 0 ==> out@.ttl is None,
            ttl_secs > 0 ==> out@.ttl == Some(ttl_secs),
    {
        proof {
            use_type_invariant(&self);
        }
        let mut build = self.build;
        if ttl_secs == 0 {
            build.ttl = None;
        } else {
            build.ttl = Some(ttl_secs);
        }
        MessageBuilder { build }
    }

    /// Ends the chain and hands out the record. An emergency that has no retry interval
    /// gets 30 seconds, one that has no expiry gets 10800; values that were set stay.
    pub fn build(self) -> (record: Message)
        ensures
            record@ == self@.build(),
            record@.complete(),
            self@.priority == Some(2i8) && self@.retry is None ==> record@.retry == Some(30i32),
            self@.priority == Some(2i8) && self@.expire is None ==> record@.expire == Some(
                10800i32,
            ),
            self@.retry is Some ==> record@.retry == self@.retry,
            self@.expire is Some ==> record@.expire == self@.expire,
    {
        proof {
            use_type_invariant(&self);
        }
        let mut build = self.build;
        match build.priority {
            Some(p) if p == PRIORITY_EMERGENCY => {
                if build.retry.is_none() {
                    build.retry = Some(RETRY_MIN_SECS);
                }
                if build.expire.is_none() {
                    build.expire = Some(EXPIRE_MAX_SECS);
                }
            },
            _ => {},
        }
        build
    }
}

} // verus!
