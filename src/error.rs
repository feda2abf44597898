use vstd::prelude::*;

verus! {

/// A failure of a request, carried as the text shown to the client.
#[derive(Debug)]
pub struct AppError {
    pub inner: String,
}

impl AppError {
    pub fn new(inner: String) -> (r: AppError)
        ensures
            r.inner@ == inner@,
    {
        AppError { inner }
    }

    /// The page body reporting the failure.
    pub fn message(&self) -> (r: String)
        ensures
            r@ == "Oh, something bad happened: "@ + self.inner@,
    {
        let mut s = "Oh, something bad happened: ".to_owned();
        s.append(self.inner.as_str());
        s
    }
}

} // verus!
