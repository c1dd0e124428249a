use crate::constants::{
    EXPIRE_MAX_SECS, EXPIRE_MIN_SECS, PRIORITY_EMERGENCY, PRIORITY_MIN, PRIORITY_NORMAL,
    RETRY_MIN_SECS,
};
use crate::sound::PushoverSound;
use crate::text::is_blank;
use vstd::prelude::*;

verus! {

/// The priority that is stored for a requested one: the request itself where the remote
/// side knows it, the normal priority otherwise.
pub open spec fn stored_priority(requested: i8) -> i8 {
    if PRIORITY_MIN <= requested <= PRIORITY_EMERGENCY {
        requested
    } else {
        PRIORITY_NORMAL
    }
}

/// The retry interval that is stored for a requested one: never under the minimum.
pub open spec fn stored_retry(requested: i32) -> i32 {
    if requested < RETRY_MIN_SECS {
        RETRY_MIN_SECS
    } else {
        requested
    }
}

/// The expiry that is stored for a requested one: pulled into the accepted range.
pub open spec fn stored_expire(requested: i32) -> i32 {
    if requested < EXPIRE_MIN_SECS {
        EXPIRE_MIN_SECS
    } else if requested > EXPIRE_MAX_SECS {
        EXPIRE_MAX_SECS
    } else {
        requested
    }
}

/// The time to live that is stored for a requested one: zero stands for none.
pub open spec fn stored_ttl(requested: u32) -> Option<u32> {
    if requested == 0 {
        None
    } else {
        Some(requested)
    }
}

/// An optional text field after a value was offered to it: a blank value unsets it.
pub open spec fn stored_text(offered: Seq<char>) -> Option<Seq<char>> {
    if is_blank(offered) {
        None
    } else {
        Some(offered)
    }
}

/// The text behind an optional borrowed text.
pub open spec fn optional_text(text: Option<&str>) -> Option<Seq<char>> {
    match text {
        Some(t) => Some(t@),
        None => None,
    }
}

/// Whether `text` is the token of one of the known sounds.
pub open spec fn is_sound_token(text: Seq<char>) -> bool {
    exists|sound: PushoverSound| #[trigger] sound.token() == text
}

/// Computes `stored_priority`.
pub(crate) fn clamp_priority(requested: i8) -> (stored: i8)
    ensures
        stored == stored_priority(requested),
{
    if requested < PRIORITY_MIN || requested > PRIORITY_EMERGENCY {
        PRIORITY_NORMAL
    } else {
        requested
    }
}

/// Computes `stored_text`.
pub(crate) fn keep_text(offered: &str) -> (stored: Option<String>)
    ensures
        stored.deep_view() == stored_text(offered@),
{
    if crate::text::str_is_blank(offered) {
        None
    } else {
        Some(offered.to_owned())
    }
}

} // verus!
