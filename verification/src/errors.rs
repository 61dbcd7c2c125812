use vstd::prelude::*;

verus! {

/// `ScrapliError` is the base error of the crate: one kind, told apart by
/// its message.
#[derive(Debug)]
pub struct ScrapliError {
    /// A string holding details about the error.
    pub details: String,
}

impl ScrapliError {
    /// An error with the given message.
    pub fn new(details: &str) -> (e: Self)
        ensures
            e.details@ == details@,
    {
        ScrapliError { details: details.to_owned() }
    }

    /// The message, as displaying the error shows it.
    pub fn to_string(&self) -> (s: String)
        ensures
            s@ == self.details@,
    {
        self.details.clone()
    }

    /// The message, borrowed.
    pub fn description(&self) -> (s: &str)
        ensures
            s@ == self.details@,
    {
        self.details.as_str()
    }
}

} // verus!
