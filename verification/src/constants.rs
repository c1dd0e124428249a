use vstd::prelude::*;

verus! {

/// Address that every notification is posted to.
pub const PUSHOVER_API_ENDPOINT: &'static str = "https://api.pushover.net/1/messages.json";

/// Where the remote interface is documented.
pub const PUSHOVER_API_DOCUMENTATION_URL: &'static str = "https://pushover.net/api";

/// Largest attachment, in bytes, that the remote side accepts.
pub const PUSHOVER_API_ATTACHMENT_MAX_SIZE_BYTES: u64 = 2621440;

/// Lowest priority that the remote side knows.
pub const PRIORITY_MIN: i8 = -2;

/// Highest priority that the remote side knows: an emergency, which alerts again and
/// again until the user confirms or the notification expires.
pub const PRIORITY_EMERGENCY: i8 = 2;

/// Priority of a notification that asks for nothing special.
pub const PRIORITY_NORMAL: i8 = 0;

/// Fewest seconds between two alerts of an emergency.
pub const RETRY_MIN_SECS: i32 = 30;

/// Fewest seconds after which an emergency stops alerting.
pub const EXPIRE_MIN_SECS: i32 = 60;

/// Most seconds after which an emergency stops alerting.
pub const EXPIRE_MAX_SECS: i32 = 10800;

} // verus!
