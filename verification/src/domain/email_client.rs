use vstd::prelude::*;

use crate::domain::email::Email;

verus! {

/// The notification port: an abstract outbound channel that delivers the
/// one-time code. Delivery may fail; nothing is promised of an arbitrary
/// implementation.
pub trait EmailClient {
    fn send_email(&self, recipient: &Email, subject: &str, content: &str) -> (r: Result<
        (),
        String,
    >);
}

} // verus!
