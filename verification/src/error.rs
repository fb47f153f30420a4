use vstd::prelude::*;

verus! {

/// An error surfaced by the framework.
///
/// `Module` errors come from the framework's own rules; `System` errors
/// originate in the operating system or the runtime.
#[derive(Debug, PartialEq, Eq)]
pub enum Error {
    Module(String),
    System(String),
}

/// The printed form of an error of the kind named `kind` with the text
/// `text`.
pub open spec fn printed(kind: Seq<char>, text: Seq<char>) -> Seq<char> {
    "Error: { "@ + kind + ": "@ + text + " }"@
}

/// `format!` with two `{}` places filled by strings: the literal parts and
/// the two strings, in the order written.
#[verifier::external_body]
fn render(kind: &str, text: &str) -> (s: String)
    ensures
        s@ == printed(kind@, text@),
{
    format!("Error: {{ {}: {} }}", kind, text)
}

impl Error {
    /// The text carried by the error, whatever its kind.
    pub open spec fn text(&self) -> Seq<char> {
        match self {
            Error::Module(s) => s@,
            Error::System(s) => s@,
        }
    }

    /// A module error that carries `text`.
    pub fn module(text: &str) -> (err: Error)
        ensures
            err is Module,
            err.text() == text@,
    {
        Error::Module(text.to_owned())
    }

    /// A system error that carries `text`.
    pub fn system(text: &str) -> (err: Error)
        ensures
            err is System,
            err.text() == text@,
    {
        Error::System(text.to_owned())
    }

    /// The error as it is surfaced to the application: a system error is
    /// wrapped as a module error with the same text, so that every error
    /// reaches the callbacks in one form.
    pub fn surfaced(self) -> (err: Error)
        ensures
            err is Module,
            err.text() == self.text(),
    {
        match self {
            Error::Module(s) => Error::Module(s),
            Error::System(s) => Error::Module(s),
        }
    }

    /// Whether the error was raised by the framework's own rules.
    pub fn is_module(&self) -> (b: bool)
        ensures
            b == (self is Module),
    {
        match self {
            Error::Module(_) => true,
            Error::System(_) => false,
        }
    }

    /// The error as it is shown to a reader: its kind, then its text.
    pub fn describe(&self) -> (s: String)
        ensures
            self is Module ==> s@ == printed("Module"@, self.text()),
            self is System ==> s@ == printed("System"@, self.text()),
    {
        match self {
            Error::Module(text) => render("Module", text.as_str()),
            Error::System(text) => render("System", text.as_str()),
        }
    }

    /// The text carried by the error.
    pub fn message(&self) -> (s: String)
        ensures
            s@ == self.text(),
    {
        match self {
            Error::Module(s) => s.clone(),
            Error::System(s) => s.clone(),
        }
    }
}

} // verus!
