use vstd::prelude::*;
use vstd::string::*;

verus! {

/// The failure of a git operation, with the one-line message shown to the user.
#[derive(Debug)]
pub struct GitError {
    pub message: String,
}

impl GitError {
    /// An error carrying `message`.
    pub fn new(message: &str) -> (e: GitError)
        ensures
            e.message@ == message@,
    {
        GitError { message: String::from_str(message) }
    }

    /// The message, as the screen shows it.
    pub fn to_string(&self) -> (s: String)
        ensures
            s@ == self.message@,
    {
        self.message.clone()
    }

    /// An error carrying an already built message.
    pub fn from_message(message: String) -> (e: GitError)
        ensures
            e.message@ == message@,
    {
        GitError { message }
    }
}

} // verus!
