use pushover_rs::{AttachmentMessage, AttachmentMessageBuilder, BuildError, PushoverSound};

/// What is at `path`: the length of the file there, or nothing.
fn look_up(path: &str) -> Option<u64> {
    let path = std::path::Path::new(path);
    if !path.exists() {
        return None;
    }
    Some(path.metadata().unwrap().len())
}

fn ready() -> AttachmentMessageBuilder {
    AttachmentMessageBuilder::new("user", "token", "text").set_attachment("photo.jpg".to_owned())
}

#[test]
fn test_build_attachment_doesnt_exist() {
    let attachment_path: String = "./testdata/attachment_test_doesnt_exist.jpg".to_owned();
    let found = look_up(&attachment_path);
    let message = AttachmentMessageBuilder::new("abc", "def", "Test from pushover-rs.")
        .set_attachment(attachment_path)
        .build(found);

    assert_eq!(message.is_err(), true);
}

#[test]
fn test_build_attachment_too_large() {
    let attachment_path: String = "./testdata/attachment_test_too_large.jpg".to_owned();
    let found = look_up(&attachment_path).or(Some(2_621_441));
    let message = AttachmentMessageBuilder::new("abc", "def", "Test from pushover-rs.")
        .set_attachment(attachment_path)
        .build(found);

    assert_eq!(message.is_err(), true);
}

#[test]
fn missing_file_is_reported() {
    assert_eq!(ready().build(None).err(), Some(BuildError::AttachmentNotFound));
}

#[test]
fn size_limit_is_2621440_bytes() {
    assert_eq!(
        ready().build(Some(2_621_441)).err(),
        Some(BuildError::AttachmentTooLarge)
    );
    assert_eq!(
        ready().build(Some(u64::MAX)).err(),
        Some(BuildError::AttachmentTooLarge)
    );
    assert!(ready().build(Some(2_621_440)).is_ok());
    assert!(ready().build(Some(2_621_439)).is_ok());
    assert!(ready().build(Some(0)).is_ok());
}

#[test]
fn empty_required_fields_are_reported_in_order() {
    let attach = |b: AttachmentMessageBuilder| b.set_attachment("photo.jpg".to_owned());
    assert_eq!(
        attach(AttachmentMessageBuilder::new("", "", "")).build(None).err(),
        Some(BuildError::EmptyAppToken)
    );
    assert_eq!(
        attach(AttachmentMessageBuilder::new("", "", "text")).build(Some(1)).err(),
        Some(BuildError::EmptyAppToken)
    );
    assert_eq!(
        attach(AttachmentMessageBuilder::new("", "token", "")).build(Some(1)).err(),
        Some(BuildError::EmptyUserKey)
    );
    assert_eq!(
        attach(AttachmentMessageBuilder::new("user", "token", "")).build(Some(1)).err(),
        Some(BuildError::EmptyMessage)
    );
    assert_eq!(
        AttachmentMessageBuilder::new("user", "token", "text").build(Some(1)).err(),
        Some(BuildError::EmptyAttachment)
    );
    assert_eq!(
        AttachmentMessageBuilder::new("user", "token", "text").build(None).err(),
        Some(BuildError::EmptyAttachment)
    );
    assert_eq!(
        AttachmentMessageBuilder::new("user", "token", "text")
            .set_attachment("  ".to_owned())
            .build(Some(1))
            .err(),
        Some(BuildError::EmptyAttachment)
    );
}

#[test]
fn errors_in_words() {
    assert_eq!(BuildError::EmptyAppToken.to_string(), "Application token is empty".to_owned());
    assert_eq!(BuildError::EmptyUserKey.to_string(), "User key is empty".to_owned());
    assert_eq!(BuildError::EmptyMessage.to_string(), "Message is empty".to_owned());
    assert_eq!(BuildError::EmptyAttachment.to_string(), "Attachment is empty".to_owned());
    assert_eq!(
        BuildError::AttachmentNotFound.to_string(),
        "Attachment file doesn't exist.".to_owned()
    );
    assert_eq!(
        BuildError::AttachmentTooLarge.to_string(),
        "Attachment file is too large. (> 2621440 bytes)".to_owned()
    );
}

#[test]
fn built_record_holds_what_was_set() {
    let m: AttachmentMessage = AttachmentMessageBuilder::new("user", "token", "text")
        .set_title("Title")
        .set_url("https://a.example/", Some("A"))
        .modify_message("other text")
        .set_priority(-2)
        .set_sound(PushoverSound::TUGBOAT)
        .set_timestamp(1635861224)
        .add_device("phone")
        .add_device("desk")
        .add_device("phone")
        .set_ttl(10)
        .set_attachment("./photo.jpg".to_owned())
        .build(Some(1024))
        .unwrap();
    assert_eq!(m.user_key, "user".to_owned());
    assert_eq!(m.app_token, "token".to_owned());
    assert_eq!(m.message, "other text".to_owned());
    assert_eq!(m.attachment, "./photo.jpg".to_owned());
    assert_eq!(m.title, Some("Title".to_owned()));
    assert_eq!(m.url, Some("https://a.example/".to_owned()));
    assert_eq!(m.url_title, Some("A".to_owned()));
    assert_eq!(m.priority, Some("-2".to_owned()));
    assert_eq!(m.sound, Some("tugboat".to_owned()));
    assert_eq!(m.timestamp, Some("1635861224".to_owned()));
    assert_eq!(m.devices, Some(vec!["phone".to_owned(), "desk".to_owned()]));
    assert_eq!(m.ttl, Some(10));
}

#[test]
fn fresh_attachment_builder_sets_nothing_else() {
    let b = AttachmentMessageBuilder::new("user", "token", "text");
    assert_eq!(b.attachment_path(), "");
    let m = b.set_attachment("a".to_owned()).build(Some(0)).unwrap();
    assert_eq!(m.title, None);
    assert_eq!(m.url, None);
    assert_eq!(m.url_title, None);
    assert_eq!(m.priority, None);
    assert_eq!(m.sound, None);
    assert_eq!(m.timestamp, None);
    assert_eq!(m.devices, None);
    assert_eq!(m.ttl, None);
}

#[test]
fn default_attachment_message_is_empty() {
    let m = AttachmentMessage::default();
    assert_eq!(m.app_token, "".to_owned());
    assert_eq!(m.user_key, "".to_owned());
    assert_eq!(m.message, "".to_owned());
    assert_eq!(m.attachment, "".to_owned());
    assert_eq!(m.priority, None);
    assert_eq!(m.ttl, None);
}

#[test]
fn attachment_priority_is_written_in_base_ten() {
    let expected = [(-2i8, "-2"), (-1, "-1"), (0, "0"), (1, "1"), (2, "2")];
    for (p, text) in expected {
        let m = ready().set_priority(p).build(Some(1)).unwrap();
        assert_eq!(m.priority, Some(text.to_owned()));
    }
    for p in [-128i8, -3, 3, 100, 127] {
        let m = ready().set_priority(p).build(Some(1)).unwrap();
        assert_eq!(m.priority, Some("0".to_owned()));
    }
    let m = ready().set_priority(2).remove_priority().build(Some(1)).unwrap();
    assert_eq!(m.priority, Some("0".to_owned()));
}

#[test]
fn attachment_zero_ttl_unsets() {
    let m = ready().set_ttl(30).set_ttl(0).build(Some(1)).unwrap();
    assert_eq!(m.ttl, None);
    let m = ready().set_ttl(30).build(Some(1)).unwrap();
    assert_eq!(m.ttl, Some(30));
}

#[test]
fn attachment_timestamp_is_written_in_base_ten() {
    let m = ready().set_timestamp(0).build(Some(1)).unwrap();
    assert_eq!(m.timestamp, Some("0".to_owned()));
    let m = ready().set_timestamp(u64::MAX).build(Some(1)).unwrap();
    assert_eq!(m.timestamp, Some("18446744073709551615".to_owned()));
    let m = ready().set_timestamp(5).remove_timestamp().build(Some(1)).unwrap();
    assert_eq!(m.timestamp, None);
}

#[test]
fn attachment_devices() {
    let m = ready()
        .set_devices(vec!["a", "b"])
        .merge_devices(vec!["b", "c", "a"])
        .build(Some(1))
        .unwrap();
    assert_eq!(
        m.devices,
        Some(vec!["a".to_owned(), "b".to_owned(), "c".to_owned()])
    );
    let m = ready()
        .set_devices(vec!["a", "b"])
        .merge_devices(vec!["a"])
        .build(Some(1))
        .unwrap();
    assert_eq!(m.devices, Some(vec!["a".to_owned(), "b".to_owned()]));
    let m = ready().set_devices(vec!["a", "b"]).clear_devices_list().build(Some(1)).unwrap();
    assert_eq!(m.devices, None);
    let m = ready().add_device(" ").build(Some(1)).unwrap();
    assert_eq!(m.devices, None);
}

#[test]
fn attachment_blank_inputs() {
    let m = ready().set_title("T").add_title(" ").build(Some(1)).unwrap();
    assert_eq!(m.title, None);
    let m = ready().set_title("T").remove_title().build(Some(1)).unwrap();
    assert_eq!(m.title, None);
    let m = ready().modify_message("\n").build(Some(1)).unwrap();
    assert_eq!(m.message, "text".to_owned());
    let m = ready().add_url("u", Some("c")).set_url("", None).build(Some(1)).unwrap();
    assert_eq!(m.url, None);
    assert_eq!(m.url_title, None);
    let m = ready().add_url("u", Some("c")).set_url("v", None).build(Some(1)).unwrap();
    assert_eq!(m.url, Some("v".to_owned()));
    assert_eq!(m.url_title, Some("c".to_owned()));
    let m = ready().add_url("u", Some("c")).remove_url().build(Some(1)).unwrap();
    assert_eq!(m.url, None);
    assert_eq!(m.url_title, None);
    let m = ready().set_attachment("\t".to_owned()).build(Some(1)).unwrap();
    assert_eq!(m.attachment, "photo.jpg".to_owned());
    let m = ready().set_sound(PushoverSound::ECHO).remove_sound().build(Some(1)).unwrap();
    assert_eq!(m.sound, None);
}
