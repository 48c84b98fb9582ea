use vstd::prelude::*;

verus! {

/// The error of a turn: a descriptive message.
#[derive(Debug)]
pub struct CognitionError(pub String);

/// The error of an inference backend: a descriptive message.
#[derive(Debug)]
pub struct ModelError {
    pub message: String,
}

impl CognitionError {
    /// The message as it is shown to a user.
    pub fn to_string(&self) -> (r: String)
        ensures
            r@ == "Cognition error: "@ + self.0@,
    {
        let mut r = "Cognition error: ".to_string();
        r.append(self.0.as_str());
        r
    }
}

impl ModelError {
    pub fn new(message: &str) -> (r: Self)
        ensures
            r.message@ == message@,
    {
        ModelError { message: message.to_owned() }
    }

    /// The message as it is shown to a user.
    pub fn to_string(&self) -> (r: String)
        ensures
            r@ == self.message@,
    {
        self.message.clone()
    }
}

} // verus!
