use pushover_rs::PushoverSound;

#[test]
fn every_sound_has_its_token() {
    let expected = [
        (PushoverSound::PUSHOVER, "pushover"),
        (PushoverSound::BIKE, "bike"),
        (PushoverSound::BUGLE, "bugle"),
        (PushoverSound::CASHREGISTER, "cashregister"),
        (PushoverSound::CLASSICAL, "classical"),
        (PushoverSound::COSMIC, "cosmic"),
        (PushoverSound::FALLING, "falling"),
        (PushoverSound::GAMELAN, "gamelan"),
        (PushoverSound::INCOMING, "incoming"),
        (PushoverSound::INTERMISSION, "intermission"),
        (PushoverSound::MAGIC, "magic"),
        (PushoverSound::MECHANICAL, "mechanical"),
        (PushoverSound::PIANOBAR, "pianobar"),
        (PushoverSound::SIREN, "siren"),
        (PushoverSound::SPACEALARM, "spacealarm"),
        (PushoverSound::TUGBOAT, "tugboat"),
        (PushoverSound::ALIEN, "alien"),
        (PushoverSound::CLIMB, "climb"),
        (PushoverSound::PERSISTENT, "persistent"),
        (PushoverSound::ECHO, "echo"),
        (PushoverSound::UPDOWN, "updown"),
        (PushoverSound::VIBRATE, "vibrate"),
        (PushoverSound::NONE, "none"),
    ];
    for (sound, token) in expected {
        assert_eq!(sound.to_string(), token.to_owned());
        assert_eq!(sound.as_str(), token);
    }
}

#[test]
fn tokens_are_lower_case_and_distinct() {
    let all = [
        PushoverSound::PUSHOVER,
        PushoverSound::BIKE,
        PushoverSound::BUGLE,
        PushoverSound::CASHREGISTER,
        PushoverSound::CLASSICAL,
        PushoverSound::COSMIC,
        PushoverSound::FALLING,
        PushoverSound::GAMELAN,
        PushoverSound::INCOMING,
        PushoverSound::INTERMISSION,
        PushoverSound::MAGIC,
        PushoverSound::MECHANICAL,
        PushoverSound::PIANOBAR,
        PushoverSound::SIREN,
        PushoverSound::SPACEALARM,
        PushoverSound::TUGBOAT,
        PushoverSound::ALIEN,
        PushoverSound::CLIMB,
        PushoverSound::PERSISTENT,
        PushoverSound::ECHO,
        PushoverSound::UPDOWN,
        PushoverSound::VIBRATE,
        PushoverSound::NONE,
    ];
    for (i, a) in all.iter().enumerate() {
        assert!(a.as_str().chars().all(|c| c.is_ascii_lowercase()));
        for b in all.iter().skip(i + 1) {
            assert_ne!(a.as_str(), b.as_str());
        }
    }
}
