use vstd::prelude::*;

use crate::domain::email::Email;
use crate::domain::email_client::EmailClient;

verus! {

/// An email client that delivers nowhere and always succeeds; for tests and
/// single-process use.
pub struct MockEmailClient;

impl EmailClient for MockEmailClient {
    fn send_email(&self, recipient: &Email, subject: &str, content: &str) -> (r: Result<
        (),
        String,
    >)
        ensures
            r is Ok,
    {
        Ok(())
    }
}

} // verus!
