//! Command lines for the shell of a guest.
use vstd::prelude::*;

use crate::shell::shell_escape;

verus! {

/// A command line for a remote shell, put together from trusted text and from
/// values that are escaped.
#[derive(Debug)]
pub struct RemoteCommand {
    line: String,
}

impl View for RemoteCommand {
    type V = Seq<char>;

    closed spec fn view(&self) -> Seq<char> {
        self.line@
    }
}

impl RemoteCommand {
    /// An empty command line.
    pub fn new() -> (r: Self)
        ensures
            r@ == Seq::<char>::empty(),
    {
        RemoteCommand { line: String::new() }
    }

    /// Appends text as it is.
    pub fn literal(self, text: &str) -> (r: Self)
        ensures
            r@ == self@ + text@,
    {
        let mut line = self.line;
        line.append(text);
        RemoteCommand { line }
    }

    /// Appends a value, escaped as one word.
    pub fn arg(self, value: &str) -> (r: Self)
        ensures
            r@ == self@ + crate::shell::escaped(value@),
    {
        let mut line = self.line;
        line.append(shell_escape(value).as_str());
        RemoteCommand { line }
    }

    /// The command line.
    pub fn into_string(self) -> (s: String)
        ensures
            s@ == self@,
    {
        self.line
    }
}

} // verus!
