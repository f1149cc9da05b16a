use vstd::prelude::*;

verus! {

/// An error raised by the virtual machine, its verifier or its loaders,
/// carrying a human-readable description of what went wrong.
#[derive(Debug)]
pub struct Error {
    message: String,
}

impl View for Error {
    type V = Seq<char>;

    /// The abstract value of an error is the text of its message.
    closed spec fn view(&self) -> Seq<char> {
        self.message@
    }
}

impl Error {
    /// Builds an error that reports `message`, kept exactly as given.
    pub fn new(message: String) -> (e: Self)
        ensures
            e@ == message@,
    {
        Error { message: message }
    }
}

} // verus!
