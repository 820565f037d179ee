use vstd::prelude::*;

verus! {

/// General error type carrying a human-readable message.
#[derive(Debug, Clone)]
pub struct Error {
    pub message: String,
}

impl Error {
    /// Builds an error from a message string.
    pub fn new(message: &str) -> (r: Error)
        ensures
            r.message@ == message@,
    {
        Error { message: message.to_owned() }
    }

    /// Returns the message carried by this error.
    pub fn text(&self) -> (r: String)
        ensures
            r@ == self.message@,
    {
        self.message.clone()
    }
}

/// Convenience constructor for an `Err` carrying a message.
pub fn err<T>(message: &str) -> (r: Result<T, Error>)
    ensures
        r matches Err(e) && e.message@ == message@,
{
    Err(Error { message: message.to_owned() })
}

} // verus!
