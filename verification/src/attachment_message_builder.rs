use crate::attachment_message::{AttachmentMessage, AttachmentMessageView};
use crate::constants::{
    PRIORITY_EMERGENCY, PRIORITY_MIN, PRIORITY_NORMAL, PUSHOVER_API_ATTACHMENT_MAX_SIZE_BYTES,
};
use crate::devices::{offer_name, offer_names, owned_names, texts, with_name, with_names};
use crate::rules::{
    clamp_priority, is_sound_token, keep_text, optional_text, stored_priority, stored_text,
    stored_ttl,
};
use crate::sound::PushoverSound;
use crate::text::{
    decimal, decimal_text, is_blank, signed_decimal, signed_decimal_text, str_is_blank,
};
use vstd::prelude::*;

verus! {

/// Why an `AttachmentMessageBuilder` hands out no record.
#[derive(Clone, Copy, Debug, PartialEq, Eq)]
pub enum BuildError {
    /// The application token is empty.
    EmptyAppToken,
    /// The user key is empty.
    EmptyUserKey,
    /// The message is empty.
    EmptyMessage,
    /// No attachment was set.
    EmptyAttachment,
    /// There is no file at the attachment's path.
    AttachmentNotFound,
    /// The file at the attachment's path is longer than the remote side accepts.
    AttachmentTooLarge,
}

impl BuildError {
    /// The failure in words.
    pub open spec fn text(self) -> Seq<char> {
        match self {
            BuildError::EmptyAppToken => "Application token is empty"@,
            BuildError::EmptyUserKey => "User key is empty"@,
            BuildError::EmptyMessage => "Message is empty"@,
            BuildError::EmptyAttachment => "Attachment is empty"@,
            BuildError::AttachmentNotFound => "Attachment file doesn't exist."@,
            BuildError::AttachmentTooLarge => "Attachment file is too large. (> 2621440 bytes)"@,
        }
    }

    /// The failure in words.
    pub fn to_string(&self) -> (words: String)
        ensures
            words@ == self.text(),
    {
        match *self {
            BuildError::EmptyAppToken => "Application token is empty".to_owned(),
            BuildError::EmptyUserKey => "User key is empty".to_owned(),
            BuildError::EmptyMessage => "Message is empty".to_owned(),
            BuildError::EmptyAttachment => "Attachment is empty".to_owned(),
            BuildError::AttachmentNotFound => "Attachment file doesn't exist.".to_owned(),
            BuildError::AttachmentTooLarge => "Attachment file is too large. (> 2621440 bytes)".to_owned(),
        }
    }
}

/// Assembles an `AttachmentMessage` step by step. Each step takes the builder and gives
/// it back; `build` ends the chain and is the only step that can refuse.
#[derive(Debug)]
pub struct AttachmentMessageBuilder {
    build: AttachmentMessage,
}

/// Whether `text` is one of the priorities that the remote side knows, in base ten.
pub open spec fn is_priority_text(text: Seq<char>) -> bool {
    exists|p: i8| PRIORITY_MIN <= p <= PRIORITY_EMERGENCY && #[trigger] signed_decimal(p as int) == text
}

/// Whether `text` is a number of seconds in base ten.
pub open spec fn is_timestamp_text(text: Seq<char>) -> bool {
    exists|t: u64| #[trigger] decimal(t as nat) == text
}

impl AttachmentMessageView {
    /// What holds of every record on its way through an `AttachmentMessageBuilder`:
    /// each optional field, where set, holds a value that the remote side accepts, and
    /// the attachment's path is either not set yet or not blank.
    pub open spec fn consistent(self) -> bool {
        &&& self.attachment.len() > 0 ==> !is_blank(self.attachment)
        &&& self.title matches Some(t) ==> !is_blank(t)
        &&& self.url matches Some(u) ==> !is_blank(u)
        &&& self.url_title is Some ==> self.url is Some
        &&& self.priority matches Some(p) ==> is_priority_text(p)
        &&& self.sound matches Some(s) ==> is_sound_token(s)
        &&& self.timestamp matches Some(t) ==> is_timestamp_text(t)
        &&& self.ttl matches Some(t) ==> t > 0
    }

    /// The record a builder starts from.
    pub open spec fn fresh(user_key: Seq<char>, app_token: Seq<char>, message: Seq<char>) -> AttachmentMessageView {
        AttachmentMessageView { user_key, app_token, message, ..AttachmentMessageView::blank() }
    }

    /// A blank text leaves the message as it is.
    pub open spec fn modify_message(self, message: Seq<char>) -> AttachmentMessageView {
        if is_blank(message) {
            self
        } else {
            AttachmentMessageView { message, ..self }
        }
    }

    pub open spec fn set_title(self, title: Seq<char>) -> AttachmentMessageView {
        AttachmentMessageView { title: stored_text(title), ..self }
    }

    pub open spec fn remove_title(self) -> AttachmentMessageView {
        AttachmentMessageView { title: None, ..self }
    }

    /// A blank link unsets link and caption; another link is stored, and its caption
    /// replaces the present one where one is given.
    pub open spec fn set_url(self, url: Seq<char>, url_title: Option<Seq<char>>) -> AttachmentMessageView {
        if is_blank(url) {
            self.remove_url()
        } else {
            AttachmentMessageView {
                url: Some(url),
                url_title: if url_title is Some {
                    url_title
                } else {
                    self.url_title
                },
                ..self
            }
        }
    }

    pub open spec fn remove_url(self) -> AttachmentMessageView {
        AttachmentMessageView { url: None, url_title: None, ..self }
    }

    pub open spec fn set_priority(self, priority: i8) -> AttachmentMessageView {
        AttachmentMessageView {
            priority: Some(signed_decimal(stored_priority(priority) as int)),
            ..self
        }
    }

    pub open spec fn remove_priority(self) -> AttachmentMessageView {
        AttachmentMessageView { priority: Some(signed_decimal(PRIORITY_NORMAL as int)), ..self }
    }

    pub open spec fn set_sound(self, sound: PushoverSound) -> AttachmentMessageView {
        AttachmentMessageView { sound: Some(sound.token()), ..self }
    }

    pub open spec fn remove_sound(self) -> AttachmentMessageView {
        AttachmentMessageView { sound: None, ..self }
    }

    pub open spec fn set_timestamp(self, unix_timestamp: u64) -> AttachmentMessageView {
        AttachmentMessageView { timestamp: Some(decimal(unix_timestamp as nat)), ..self }
    }

    pub open spec fn remove_timestamp(self) -> AttachmentMessageView {
        AttachmentMessageView { timestamp: None, ..self }
    }

    pub open spec fn add_device(self, device_name: Seq<char>) -> AttachmentMessageView {
        AttachmentMessageView { devices: with_name(self.devices, device_name), ..self }
    }

    pub open spec fn set_devices(self, device_names: Seq<Seq<char>>) -> AttachmentMessageView {
        AttachmentMessageView { devices: Some(device_names), ..self }
    }

    pub open spec fn merge_devices(self, device_names: Seq<Seq<char>>) -> AttachmentMessageView {
        AttachmentMessageView { devices: with_names(self.devices, device_names), ..self }
    }

    pub open spec fn clear_devices_list(self) -> AttachmentMessageView {
        AttachmentMessageView { devices: None, ..self }
    }

    pub open spec fn set_ttl(self, ttl_secs: u32) -> AttachmentMessageView {
        AttachmentMessageView { ttl: stored_ttl(ttl_secs), ..self }
    }

    /// A blank path leaves the attachment as it is.
    pub open spec fn set_attachment(self, attachment_path: Seq<char>) -> AttachmentMessageView {
        if is_blank(attachment_path) {
            self
        } else {
            AttachmentMessageView { attachment: attachment_path, ..self }
        }
    }

    /// The first reason, if any, for which no record is handed out. `found` is the
    /// length in bytes of the file at the attachment's path, or `None` where there is
    /// no such file.
    pub open spec fn refusal(self, found: Option<u64>) -> Option<BuildError> {
        if self.app_token.len() == 0 {
            Some(BuildError::EmptyAppToken)
        } else if self.user_key.len() == 0 {
            Some(BuildError::EmptyUserKey)
        } else if self.message.len() == 0 {
            Some(BuildError::EmptyMessage)
        } else if self.attachment.len() == 0 {
            Some(BuildError::EmptyAttachment)
        } else if found is None {
            Some(BuildError::AttachmentNotFound)
        } else if found->0 > PUSHOVER_API_ATTACHMENT_MAX_SIZE_BYTES {
            Some(BuildError::AttachmentTooLarge)
        } else {
            None
        }
    }
}

/// A priority outside -2..=2 is stored as the text `0`.
pub proof fn lemma_unknown_priority_becomes_normal(m: AttachmentMessageView, priority: i8)
    requires
        priority < -2 || priority > 2,
    ensures
        m.set_priority(priority).priority == Some(seq!['0']),
{
}

/// A time to live of zero leaves the record without any.
pub proof fn lemma_zero_ttl_unsets(m: AttachmentMessageView)
    ensures
        m.set_ttl(0).ttl is None,
{
}

/// Merging a name that the device list holds already changes nothing in the record:
/// the list keeps its names, their order and its length.
pub proof fn lemma_merge_known_device(m: AttachmentMessageView, name: Seq<char>)
    requires
        m.devices is Some,
        m.devices->0.contains(name),
    ensures
        m.merge_devices(seq![name]) == m,
        m.add_device(name) == m,
{
    let names = seq![name];
    assert(names.drop_last() =~= Seq::<Seq<char>>::empty());
    assert(with_names(m.devices, names.drop_last()) == m.devices);
}

/// A record is refused where no file was found and where the file is longer than
/// 2,621,440 bytes; with token, user key, message and attachment not empty it is
/// refused in no other case.
pub proof fn lemma_refusal(m: AttachmentMessageView, found: Option<u64>)
    ensures
        found is None ==> m.refusal(found) is Some,
        found is Some && found->0 > 2621440 ==> m.refusal(found) is Some,
        m.refusal(found) is None <==> m.app_token.len() > 0 && m.user_key.len() > 0
            && m.message.len() > 0 && m.attachment.len() > 0 && found is Some && found->0
            <= 2621440,
{
}

impl View for AttachmentMessageBuilder {
    type V = AttachmentMessageView;

    /// The record as it stands.
    closed spec fn view(&self) -> AttachmentMessageView {
        self.build@
    }
}

impl AttachmentMessageBuilder {
    #[verifier::type_invariant]
    spec fn inv(self) -> bool {
        self.build@.consistent()
    }

    /// Starts a record with the three values that every notification needs, stored as
    /// they are given, and nothing else set.
    pub fn new(user_key: &str, application_token: &str, message: &str) -> (out: Self)
        ensures
            out@ == AttachmentMessageView::fresh(user_key@, application_token@, message@),
    {
        let mut build = AttachmentMessage::default();
        build.user_key = user_key.to_owned();
        build.app_token = application_token.to_owned();
        build.message = message.to_owned();
        AttachmentMessageBuilder { build }
    }

    /// Replaces the text, unless the new one is blank.
    pub fn modify_message(self, message: &str) -> (out: AttachmentMessageBuilder)
        ensures
            out@ == self@.modify_message(message@),
    {
        proof {
            use_type_invariant(&self);
        }
        if str_is_blank(message) {
            return self;
        }
        let mut build = self.build;
        build.message = message.to_owned();
        AttachmentMessageBuilder { build }
    }

    /// Sets the title; a blank one unsets it.
    pub fn set_title(self, title: &str) -> (out: AttachmentMessageBuilder)
        ensures
            out@ == self@.set_title(title@),
    {
        proof {
            use_type_invariant(&self);
        }
        let mut build = self.build;
        build.title = keep_text(title);
        AttachmentMessageBuilder { build }
    }

    /// The older name of `set_title`.
    pub fn add_title(self, title: &str) -> (out: AttachmentMessageBuilder)
        ensures
            out@ == self@.set_title(title@),
    {
        self.set_title(title)
    }

    /// Unsets the title.
    pub fn remove_title(self) -> (out: AttachmentMessageBuilder)
        ensures
            out@ == self@.remove_title(),
    {
        proof {
            use_type_invariant(&self);
        }
        let mut build = self.build;
        build.title = None;
        AttachmentMessageBuilder { build }
    }

    /// Sets the supplementary link and, where one is given, its caption; a blank link
    /// unsets both.
    pub fn set_url(self, url: &str, url_title: Option<&str>) -> (out: AttachmentMessageBuilder)
        ensures
            out@ == self@.set_url(url@, optional_text(url_title)),
    {
        proof {
            use_type_invariant(&self);
        }
        let mut build = self.build;
        if str_is_blank(url) {
            build.url = None;
            build.url_title = None;
        } else {
            build.url = Some(url.to_owned());
            match url_title {
                Some(caption) => {
                    build.url_title = Some(caption.to_owned());
                },
                None => {},
            }
        }
        AttachmentMessageBuilder { build }
    }

    /// The older name of `set_url`.
    pub fn add_url(self, url: &str, url_title: Option<&str>) -> (out: AttachmentMessageBuilder)
        ensures
            out@ == self@.set_url(url@, optional_text(url_title)),
    {
        self.set_url(url, url_title)
    }

    /// Unsets the supplementary link and its caption.
    pub fn remove_url(self) -> (out: AttachmentMessageBuilder)
        ensures
            out@ == self@.remove_url(),
    {
        proof {
            use_type_invariant(&self);
        }
        let mut build = self.build;
        build.url = None;
        build.url_title = None;
        AttachmentMessageBuilder { build }
    }

    /// Sets the priority, written in base ten. A value that the remote side does not
    /// know becomes the normal priority.
    pub fn set_priority(self, priority: i8) -> (out: AttachmentMessageBuilder)
        ensures
            out@ == self@.set_priority(priority),
            priority < -2 || priority > 2 ==> out@.priority == Some(seq!['0']),
    {
        proof {
            use_type_invariant(&self);
        }
        let stored: i8 = clamp_priority(priority);
        let mut build = self.build;
        build.priority = Some(signed_decimal_text(stored as i64));
        AttachmentMessageBuilder { build }
    }

    /// Goes back to the normal priority.
    pub fn remove_priority(self) -> (out: AttachmentMessageBuilder)
        ensures
            out@ == self@.remove_priority(),
    {
        proof {
            use_type_invariant(&self);
        }
        let mut build = self.build;
        build.priority = Some(signed_decimal_text(PRIORITY_NORMAL as i64));
        AttachmentMessageBuilder { build }
    }

    /// Sets the sound to play.
    pub fn set_sound(self, sound: PushoverSound) -> (out: AttachmentMessageBuilder)
        ensures
            out@ == self@.set_sound(sound),
    {
        proof {
            use_type_invariant(&self);
        }
        let mut build = self.build;
        build.sound = Some(sound.to_string());
        AttachmentMessageBuilder { build }
    }

    /// Goes back to the user's own sound.
    pub fn remove_sound(self) -> (out: AttachmentMessageBuilder)
        ensures
            out@ == self@.remove_sound(),
    {
        proof {
            use_type_invariant(&self);
        }
        let mut build = self.build;
        build.sound = None;
        AttachmentMessageBuilder { build }
    }

    /// Sets the time to show, in Unix seconds, written in base ten.
    pub fn set_timestamp(self, unix_timestamp: u64) -> (out: AttachmentMessageBuilder)
        ensures
            out@ == self@.set_timestamp(unix_timestamp),
    {
        proof {
            use_type_invariant(&self);
        }
        let mut build = self.build;
        build.timestamp = Some(decimal_text(unix_timestamp));
        AttachmentMessageBuilder { build }
    }

    /// Unsets the time to show.
    pub fn remove_timestamp(self) -> (out: AttachmentMessageBuilder)
        ensures
            out@ == self@.remove_timestamp(),
    {
        proof {
            use_type_invariant(&self);
        }
        let mut build = self.build;
        build.timestamp = None;
        AttachmentMessageBuilder { build }
    }

    /// Adds a device to the list, unless the name is blank or the list holds it already.
    pub fn add_device(self, device_name: &str) -> (out: AttachmentMessageBuilder)
        ensures
            out@ == self@.add_device(device_name@),
    {
        proof {
            use_type_invariant(&self);
        }
        let mut build = self.build;
        build.devices = offer_name(build.devices, device_name);
        AttachmentMessageBuilder { build }
    }

    /// Replaces the device list by the given names, as they are and in their order.
    pub fn set_devices(self, device_names: Vec<&str>) -> (out: AttachmentMessageBuilder)
        ensures
            out@ == self@.set_devices(texts(device_names@)),
    {
        proof {
            use_type_invariant(&self);
        }
        let mut build = self.build;
        build.devices = Some(owned_names(&device_names));
        AttachmentMessageBuilder { build }
    }

    /// Adds each of the given names as `add_device` does, first to last.
    pub fn merge_devices(self, device_names: Vec<&str>) -> (out: AttachmentMessageBuilder)
        ensures
            out@ == self@.merge_devices(texts(device_names@)),
    {
        proof {
            use_type_invariant(&self);
        }
        let mut build = self.build;
        build.devices = offer_names(build.devices, &device_names);
        AttachmentMessageBuilder { build }
    }

    /// Unsets the device list: the notification goes to every device.
    pub fn clear_devices_list(self) -> (out: AttachmentMessageBuilder)
        ensures
            out@ == self@.clear_devices_list(),
    {
        proof {
            use_type_invariant(&self);
        }
        let mut build = self.build;
        build.devices = None;
        AttachmentMessageBuilder { build }
    }

    /// Sets the seconds after which the notification deletes itself; zero unsets them.
    pub fn set_ttl(self, ttl_secs: u32) -> (out: AttachmentMessageBuilder)
        ensures
            out@ == self@.set_ttl(ttl_secs),
            ttl_secs == 0 ==> out@.ttl is None,
            ttl_secs > 0 ==> out@.ttl == Some(ttl_secs),
    {
        proof {
            use_type_invariant(&self);
        }
        let mut build = self.build;
        if ttl_secs == 0 {
            build.ttl = None;
        } else {
            build.ttl = Some(ttl_secs);
        }
        AttachmentMessageBuilder { build }
    }

    /// Sets the path of the file to send along, as it is given; a blank path changes
    /// nothing.
    pub fn set_attachment(self, attachment_path: String) -> (out: AttachmentMessageBuilder)
        ensures
            out@ == self@.set_attachment(attachment_path@),
    {
        proof {
            use_type_invariant(&self);
        }
        if str_is_blank(attachment_path.as_str()) {
            return self;
        }
        let mut build = self.build;
        build.attachment = attachment_path;
        AttachmentMessageBuilder { build }
    }

    /// The path of the file to send along, empty where none was set. Whoever looks the
    /// file up for `build` looks here.
    pub fn attachment_path(&self) -> (path: &str)
        ensures
            path@ == self@.attachment,
    {
        self.build.attachment.as_str()
    }

    /// Ends the chain. `found` says what is at the attachment's path: the length of the
    /// file there in bytes, or `None` where there is no file. The record is handed out,
    /// unchanged, exactly when token, user key, message and attachment are not empty, a
    /// file was found and it is no longer than 2,621,440 bytes; otherwise the first of
    /// these that fails is reported.
    pub fn build(self, found: Option<u64>) -> (outcome: Result<AttachmentMessage, BuildError>)
        ensures
            match self@.refusal(found) {
                Some(why) => outcome == Err::<AttachmentMessage, BuildError>(why),
                None => outcome is Ok && outcome->Ok_0@ == self@ && outcome->Ok_0@.consistent(),
            },
            found is None ==> outcome is Err,
            found is Some && found->0 > 2621440 ==> outcome is Err,
            self@.app_token.len() > 0 && self@.user_key.len() > 0 && self@.message.len() > 0
                && self@.attachment.len() > 0 && found is Some && found->0 <= 2621440
                ==> outcome is Ok,
    {
        proof {
            use_type_invariant(&self);
        }
        if self.build.app_token.as_str().is_empty() {
            return Err(BuildError::EmptyAppToken);
        }
        if self.build.user_key.as_str().is_empty() {
            return Err(BuildError::EmptyUserKey);
        }
        if self.build.message.as_str().is_empty() {
            return Err(BuildError::EmptyMessage);
        }
        if self.build.attachment.as_str().is_empty() {
            return Err(BuildError::EmptyAttachment);
        }
        match found {
            None => Err(BuildError::AttachmentNotFound),
            Some(length) => {
                if length > PUSHOVER_API_ATTACHMENT_MAX_SIZE_BYTES {
                    Err(BuildError::AttachmentTooLarge)
                } else {
                    Ok(self.build)
                }
            },
        }
    }
}

} // verus!
