//! Notifications for the Pushover service: records, the builders that assemble and
//! correct them, and the multipart form that carries a record with its attachment.

pub mod attachment_message;
pub mod attachment_message_builder;
pub mod constants;
pub mod devices;
pub mod message;
pub mod message_builder;
pub mod multipart;
pub mod response;
pub mod rules;
pub mod sound;
pub mod text;

pub use attachment_message::AttachmentMessage;
pub use attachment_message_builder::{AttachmentMessageBuilder, BuildError};
pub use message::Message;
pub use message_builder::MessageBuilder;
pub use response::PushoverResponse;
pub use sound::PushoverSound;
