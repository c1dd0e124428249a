use crate::multipart::{
    async_form_fields, async_form_new, async_form_part, async_form_text, async_part_bytes,
    async_part_file_name, blocking_form_fields, blocking_form_new, blocking_form_part,
    blocking_form_text, blocking_part_bytes, blocking_part_file_name, text_field, Field,
};
use crate::text::{comma_joined, decimal, decimal_text, join_with_commas};
use vstd::prelude::*;

verus! {

/// A notification that carries a file, as handed to the sending side.
///
/// Prefer `AttachmentMessageBuilder` to filling the fields by hand.
#[derive(Debug, Clone)]
pub struct AttachmentMessage {
    /// Token of the sending application.
    pub app_token: String,
    /// Key of the receiving user.
    pub user_key: String,
    /// The notification's text.
    pub message: String,
    /// Path of the file to send along, at most 2,621,440 bytes long.
    pub attachment: String,
    /// Title shown above the text; the application's name is shown when unset.
    pub title: Option<String>,
    /// A supplementary link.
    pub url: Option<String>,
    /// Caption of the supplementary link.
    pub url_title: Option<String>,
    /// From -2 (no alert) to 2 (emergency), written in base ten.
    pub priority: Option<String>,
    /// Token of the sound to play.
    pub sound: Option<String>,
    /// Unix time, in seconds, to show in place of the time of receipt, written in base ten.
    pub timestamp: Option<String>,
    /// Names of the devices to deliver to; every device when unset. On the wire the
    /// names travel as one text, with commas between them.
    pub devices: Option<Vec<String>>,
    /// Seconds after which the notification deletes itself.
    pub ttl: Option<u32>,
}

/// What an `AttachmentMessage` holds, as mathematical values.
pub ghost struct AttachmentMessageView {
    pub app_token: Seq<char>,
    pub user_key: Seq<char>,
    pub message: Seq<char>,
    pub attachment: Seq<char>,
    pub title: Option<Seq<char>>,
    pub url: Option<Seq<char>>,
    pub url_title: Option<Seq<char>>,
    pub priority: Option<Seq<char>>,
    pub sound: Option<Seq<char>>,
    pub timestamp: Option<Seq<char>>,
    pub devices: Option<Seq<Seq<char>>>,
    pub ttl: Option<u32>,
}

impl View for AttachmentMessage {
    type V = AttachmentMessageView;

    open spec fn view(&self) -> AttachmentMessageView {
        AttachmentMessageView {
            app_token: self.app_token@,
            user_key: self.user_key@,
            message: self.message@,
            attachment: self.attachment@,
            title: self.title.deep_view(),
            url: self.url.deep_view(),
            url_title: self.url_title.deep_view(),
            priority: self.priority.deep_view(),
            sound: self.sound.deep_view(),
            timestamp: self.timestamp.deep_view(),
            devices: self.devices.deep_view(),
            ttl: self.ttl,
        }
    }
}

/// The text of an optional field on the wire: empty where the field is unset.
pub open spec fn text_or_empty(field: Option<Seq<char>>) -> Seq<char> {
    match field {
        Some(text) => text,
        None => Seq::empty(),
    }
}

/// The texts behind a list of named texts.
pub open spec fn named_texts(pairs: Seq<(&'static str, String)>) -> Seq<(Seq<char>, Seq<char>)> {
    Seq::new(pairs.len(), |i: int| (pairs[i].0@, pairs[i].1@))
}

impl AttachmentMessageView {
    /// The record that `AttachmentMessage::default` makes: every text empty, nothing set.
    pub open spec fn blank() -> AttachmentMessageView {
        AttachmentMessageView {
            app_token: Seq::empty(),
            user_key: Seq::empty(),
            message: Seq::empty(),
            attachment: Seq::empty(),
            title: None,
            url: None,
            url_title: None,
            priority: None,
            sound: None,
            timestamp: None,
            devices: None,
            ttl: None,
        }
    }

    /// The device names as they travel: one text, empty where the list is unset.
    pub open spec fn device_text(self) -> Seq<char> {
        match self.devices {
            Some(names) => comma_joined(names),
            None => Seq::empty(),
        }
    }

    /// The ten text fields that every form carries, by name and in order.
    pub open spec fn fixed_text_fields(self) -> Seq<(Seq<char>, Seq<char>)> {
        seq![
            ("token"@, self.app_token),
            ("user"@, self.user_key),
            ("message"@, self.message),
            ("title"@, text_or_empty(self.title)),
            ("url"@, text_or_empty(self.url)),
            ("url_title"@, text_or_empty(self.url_title)),
            ("priority"@, text_or_empty(self.priority)),
            ("sound"@, text_or_empty(self.sound)),
            ("timestamp"@, text_or_empty(self.timestamp)),
            ("device"@, self.device_text()),
        ]
    }

    /// The text fields of the form: the fixed ten, and after them the time to live,
    /// in base ten, where it is set.
    pub open spec fn text_fields(self) -> Seq<(Seq<char>, Seq<char>)> {
        match self.ttl {
            Some(secs) => self.fixed_text_fields().push(("ttl"@, decimal(secs as nat))),
            None => self.fixed_text_fields(),
        }
    }

    /// The form as a whole: each text field as it is encoded, then the file's content
    /// under the name `attachment`, with the attachment's path as its file name.
    pub open spec fn form_fields(self, content: Seq<u8>) -> Seq<Field> {
        Seq::new(
            self.text_fields().len(),
            |i: int| text_field(self.text_fields()[i].0, self.text_fields()[i].1),
        ).push(("attachment"@, content, Some(self.attachment)))
    }
}

/// A copy of an optional text, empty where it is unset.
fn copy_or_empty(field: &Option<String>) -> (text: String)
    ensures
        text@ == text_or_empty(field.deep_view()),
{
    match field {
        Some(text) => text.clone(),
        None => String::new(),
    }
}

impl AttachmentMessage {
    /// The text fields of the form that carries this record, by name and in order.
    pub fn text_fields(&self) -> (fields: Vec<(&'static str, String)>)
        ensures
            named_texts(fields@) == self@.text_fields(),
    {
        let device: String = match &self.devices {
            Some(names) => join_with_commas(names),
            None => String::new(),
        };
        let mut fields: Vec<(&'static str, String)> = Vec::new();
        fields.push(("token", self.app_token.clone()));
        fields.push(("user", self.user_key.clone()));
        fields.push(("message", self.message.clone()));
        fields.push(("title", copy_or_empty(&self.title)));
        fields.push(("url", copy_or_empty(&self.url)));
        fields.push(("url_title", copy_or_empty(&self.url_title)));
        fields.push(("priority", copy_or_empty(&self.priority)));
        fields.push(("sound", copy_or_empty(&self.sound)));
        fields.push(("timestamp", copy_or_empty(&self.timestamp)));
        fields.push(("device", device));
        assert(named_texts(fields@) =~= self@.fixed_text_fields());
        match self.ttl {
            Some(secs) => {
                fields.push(("ttl", decimal_text(secs as u64)));
                assert(named_texts(fields@) =~= self@.text_fields());
            },
            None => {},
        }
        fields
    }

    /// The blocking form that carries this record and the file's content.
    pub fn into_form(self, content: Vec<u8>) -> (form: reqwest::blocking::multipart::Form)
        ensures
            blocking_form_fields(form) == self@.form_fields(content@),
    {
        let fields = self.text_fields();
        let mut form = blocking_form_new();
        let mut i: usize = 0;
        while i < fields.len()
            invariant
                0 <= i <= fields.len(),
                named_texts(fields@) == self@.text_fields(),
                blocking_form_fields(form) == Seq::new(
                    i as nat,
                    |k: int| text_field(self@.text_fields()[k].0, self@.text_fields()[k].1),
                ),
            decreases fields.len() - i,
        {
            assert(named_texts(fields@)[i as int] == (fields[i as int].0@, fields[i as int].1@));
            form = blocking_form_text(form, fields[i].0, fields[i].1.clone());
            assert(blocking_form_fields(form) =~= Seq::new(
                (i + 1) as nat,
                |k: int| text_field(self@.text_fields()[k].0, self@.text_fields()[k].1),
            ));
            i = i + 1;
        }
        let part = blocking_part_file_name(blocking_part_bytes(content), self.attachment);
        blocking_form_part(form, "attachment", part)
    }

    /// The asynchronous form that carries this record and the file's content.
    pub fn into_form_async(self, content: Vec<u8>) -> (form: reqwest::multipart::Form)
        ensures
            async_form_fields(form) == self@.form_fields(content@),
    {
        let fields = self.text_fields();
        let mut form = async_form_new();
        let mut i: usize = 0;
        while i < fields.len()
            invariant
                0 <= i <= fields.len(),
                named_texts(fields@) == self@.text_fields(),
                async_form_fields(form) == Seq::new(
                    i as nat,
                    |k: int| text_field(self@.text_fields()[k].0, self@.text_fields()[k].1),
                ),
            decreases fields.len() - i,
        {
            assert(named_texts(fields@)[i as int] == (fields[i as int].0@, fields[i as int].1@));
            form = async_form_text(form, fields[i].0, fields[i].1.clone());
            assert(async_form_fields(form) =~= Seq::new(
                (i + 1) as nat,
                |k: int| text_field(self@.text_fields()[k].0, self@.text_fields()[k].1),
            ));
            i = i + 1;
        }
        let part = async_part_file_name(async_part_bytes(content), self.attachment);
        async_form_part(form, "attachment", part)
    }
}

impl Default for AttachmentMessage {
    /// Every text empty and nothing set.
    fn default() -> (m: AttachmentMessage)
        ensures
            m@ == AttachmentMessageView::blank(),
    {
        AttachmentMessage {
            app_token: String::new(),
            user_key: String::new(),
            message: String::new(),
            attachment: String::new(),
            title: None,
            url: None,
            url_title: None,
            priority: None,
            sound: None,
            timestamp: None,
            devices: None,
            ttl: None,
        }
    }
}

} // verus!
