use vstd::prelude::*;

verus! {

/// What the remote side answers to a notification.
///
/// An answer with `status` 0 is an answer all the same: the request went through and
/// was turned down, and `user`, `token` and `errors` say why.
#[derive(Debug, Clone)]
pub struct PushoverResponse {
    /// 1 where the notification was accepted, 0 where it was not.
    pub status: u8,
    /// Identifier that the remote side gave to the request.
    pub request: String,
    /// Set where the user key was at fault.
    pub user: Option<String>,
    /// Set where the application token was at fault.
    pub token: Option<String>,
    /// The reasons for turning the notification down, in the order given.
    pub errors: Option<Vec<String>>,
}

} // verus!
