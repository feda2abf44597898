use vstd::prelude::*;

verus! {

/// The submitted login form.
#[derive(Debug)]
pub struct LoginForm {
    pub username: String,
    pub password: String,
}

/// Query of the login page; `error` is there after a refused login.
#[derive(Debug)]
pub struct LoginParams {
    pub error: Option<String>,
}

/// The notice the login page shows after a refused login.
pub const INVALID_CREDENTIALS: &'static str = "Invalid credentials (try with admin/admin)";

impl LoginParams {
    /// The notice to show: the generic one whenever the error flag is set,
    /// whatever its value, so that no detail reaches the client.
    pub fn error_message(&self) -> (r: Option<&'static str>)
        ensures
            r is Some == self.error is Some,
            r matches Some(m) ==> m@ == INVALID_CREDENTIALS@,
    {
        if self.error.is_some() {
            Some(INVALID_CREDENTIALS)
        } else {
            None
        }
    }
}

} // verus!
