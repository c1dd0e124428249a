use vstd::prelude::*;

verus! {

/// The notification sounds that device clients know.
#[derive(Clone, Copy, Debug, PartialEq, Eq)]
pub enum PushoverSound {
    PUSHOVER,
    BIKE,
    BUGLE,
    CASHREGISTER,
    CLASSICAL,
    COSMIC,
    FALLING,
    GAMELAN,
    INCOMING,
    INTERMISSION,
    MAGIC,
    MECHANICAL,
    PIANOBAR,
    SIREN,
    SPACEALARM,
    TUGBOAT,
    ALIEN,
    CLIMB,
    PERSISTENT,
    ECHO,
    UPDOWN,
    VIBRATE,
    NONE,
}

impl PushoverSound {
    /// The lower-case token under which the remote side knows this sound.
    pub open spec fn token(self) -> Seq<char> {
        match self {
            PushoverSound::PUSHOVER => "pushover"@,
            PushoverSound::BIKE => "bike"@,
            PushoverSound::BUGLE => "bugle"@,
            PushoverSound::CASHREGISTER => "cashregister"@,
            PushoverSound::CLASSICAL => "classical"@,
            PushoverSound::COSMIC => "cosmic"@,
            PushoverSound::FALLING => "falling"@,
            PushoverSound::GAMELAN => "gamelan"@,
            PushoverSound::INCOMING => "incoming"@,
            PushoverSound::INTERMISSION => "intermission"@,
            PushoverSound::MAGIC => "magic"@,
            PushoverSound::MECHANICAL => "mechanical"@,
            PushoverSound::PIANOBAR => "pianobar"@,
            PushoverSound::SIREN => "siren"@,
            PushoverSound::SPACEALARM => "spacealarm"@,
            PushoverSound::TUGBOAT => "tugboat"@,
            PushoverSound::ALIEN => "alien"@,
            PushoverSound::CLIMB => "climb"@,
            PushoverSound::PERSISTENT => "persistent"@,
            PushoverSound::ECHO => "echo"@,
            PushoverSound::UPDOWN => "updown"@,
            PushoverSound::VIBRATE => "vibrate"@,
            PushoverSound::NONE => "none"@,
        }
    }

    /// The sound's token as a borrowed text.
    pub fn as_str(&self) -> (name: &'static str)
        ensures
            name@ == self.token(),
    {
        match *self {
            PushoverSound::PUSHOVER => "pushover",
            PushoverSound::BIKE => "bike",
            PushoverSound::BUGLE => "bugle",
            PushoverSound::CASHREGISTER => "cashregister",
            PushoverSound::CLASSICAL => "classical",
            PushoverSound::COSMIC => "cosmic",
            PushoverSound::FALLING => "falling",
            PushoverSound::GAMELAN => "gamelan",
            PushoverSound::INCOMING => "incoming",
            PushoverSound::INTERMISSION => "intermission",
            PushoverSound::MAGIC => "magic",
            PushoverSound::MECHANICAL => "mechanical",
            PushoverSound::PIANOBAR => "pianobar",
            PushoverSound::SIREN => "siren",
            PushoverSound::SPACEALARM => "spacealarm",
            PushoverSound::TUGBOAT => "tugboat",
            PushoverSound::ALIEN => "alien",
            PushoverSound::CLIMB => "climb",
            PushoverSound::PERSISTENT => "persistent",
            PushoverSound::ECHO => "echo",
            PushoverSound::UPDOWN => "updown",
            PushoverSound::VIBRATE => "vibrate",
            PushoverSound::NONE => "none",
        }
    }

    /// The sound's token as an owned text.
    pub fn to_string(&self) -> (name: String)
        ensures
            name@ == self.token(),
    {
        self.as_str().to_owned()
    }
}

} // verus!
