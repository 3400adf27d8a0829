//! What a procedure asks the outside to do, and what the outside replies.
use vstd::prelude::*;

use crate::command::{Cmd, CmdText};
use crate::failure::Failure;

verus! {

/// The values that are kept outside the configuration.
#[derive(Debug, Clone, Copy, PartialEq, Eq, Structural)]
pub enum SecretName {
    Subscription,
    ExpectedEgress,
}

/// What the outside is asked to do.
#[derive(Debug)]
pub enum Action {
    /// Look for a program on the host: it is there, or not.
    FindProgram(String),
    /// Take the lock beside this file, and keep it to the end of the procedure.
    Lock(String),
    /// Run a command: it succeeds, or not.
    Probe(Cmd),
    /// Run a command that must succeed.
    Run(Cmd),
    /// Run a command that must succeed, and give its output.
    Capture(Cmd),
    /// Create a directory and its parents.
    MakeDirectory(String),
    /// Replace a file, readable by its owner alone, at once.
    WriteFile(String, String),
    /// Give the text of a file.
    ReadText(String),
    /// Give the bytes of a file.
    ReadBytes(String),
    /// Create a directory that vanishes with the procedure, and give its path.
    MakeTemporaryDirectory,
    /// Create an empty file.
    CreateFile(String),
    /// Run a command with its output in this file: it succeeds, or not.
    Unpack(Cmd, String),
    /// Bring the gateway VM up.
    PrepareVm,
    /// Put the tunnel program into the gateway VM.
    PrepareBinary,
    /// Give a value that is kept outside the configuration.
    Resolve(SecretName),
    /// Open the random source of the host.
    OpenRandom,
    /// Give thirty-two bytes of the random source.
    ReadRandom,
    /// Nothing: the procedure has ended.
    Stop,
}

/// What an [`Action`] asks for.
pub ghost enum ActionText {
    FindProgram(Seq<char>),
    Lock(Seq<char>),
    Probe(CmdText),
    Run(CmdText),
    Capture(CmdText),
    MakeDirectory(Seq<char>),
    WriteFile(Seq<char>, Seq<char>),
    ReadText(Seq<char>),
    ReadBytes(Seq<char>),
    MakeTemporaryDirectory,
    CreateFile(Seq<char>),
    Unpack(CmdText, Seq<char>),
    PrepareVm,
    PrepareBinary,
    Resolve(SecretName),
    OpenRandom,
    ReadRandom,
    Stop,
}

impl View for Action {
    type V = ActionText;

    open spec fn view(&self) -> ActionText {
        match self {
            Action::FindProgram(name) => ActionText::FindProgram(name@),
            Action::Lock(path) => ActionText::Lock(path@),
            Action::Probe(cmd) => ActionText::Probe(cmd@),
            Action::Run(cmd) => ActionText::Run(cmd@),
            Action::Capture(cmd) => ActionText::Capture(cmd@),
            Action::MakeDirectory(path) => ActionText::MakeDirectory(path@),
            Action::WriteFile(path, text) => ActionText::WriteFile(path@, text@),
            Action::ReadText(path) => ActionText::ReadText(path@),
            Action::ReadBytes(path) => ActionText::ReadBytes(path@),
            Action::MakeTemporaryDirectory => ActionText::MakeTemporaryDirectory,
            Action::CreateFile(path) => ActionText::CreateFile(path@),
            Action::Unpack(cmd, path) => ActionText::Unpack(cmd@, path@),
            Action::PrepareVm => ActionText::PrepareVm,
            Action::PrepareBinary => ActionText::PrepareBinary,
            Action::Resolve(name) => ActionText::Resolve(*name),
            Action::OpenRandom => ActionText::OpenRandom,
            Action::ReadRandom => ActionText::ReadRandom,
            Action::Stop => ActionText::Stop,
        }
    }
}

/// What the outside replies.
#[derive(Debug)]
pub enum Reply {
    /// What was asked for holds, or not.
    Holds(bool),
    /// It was done.
    Done,
    /// It was done, with this text.
    Text(String),
    /// It was done, with these bytes.
    Bytes(Vec<u8>),
    /// It could not be done, for this reason.
    Failed(String),
    /// It could not be done, and says itself why.
    Stopped(Failure),
}

/// Whether a reply answers an action.
pub open spec fn answers(reply: Reply, action: ActionText) -> bool {
    match action {
        ActionText::FindProgram(_) | ActionText::Probe(_) => reply is Holds,
        ActionText::Lock(_)
        | ActionText::Run(_)
        | ActionText::MakeDirectory(_)
        | ActionText::WriteFile(_, _)
        | ActionText::CreateFile(_)
        | ActionText::OpenRandom => reply is Done || reply is Failed,
        ActionText::Capture(_)
        | ActionText::ReadText(_)
        | ActionText::MakeTemporaryDirectory
        | ActionText::Resolve(_) => reply is Text || reply is Failed,
        ActionText::ReadBytes(_) => reply is Bytes || reply is Failed,
        ActionText::Unpack(_, _) => reply is Holds || reply is Failed,
        ActionText::PrepareVm | ActionText::PrepareBinary => reply is Done || reply is Stopped,
        ActionText::ReadRandom => reply is Failed || (reply matches Reply::Bytes(bytes)
            && bytes@.len() == 32),
        ActionText::Stop => false,
    }
}

/// Whether a reply answers an action.
pub fn is_answer(reply: &Reply, action: &Action) -> (r: bool)
    ensures
        r == answers(*reply, action@),
{
    match action {
        Action::FindProgram(_) | Action::Probe(_) => matches!(reply, Reply::Holds(_)),
        Action::Lock(_)
        | Action::Run(_)
        | Action::MakeDirectory(_)
        | Action::WriteFile(_, _)
        | Action::CreateFile(_)
        | Action::OpenRandom => matches!(reply, Reply::Done | Reply::Failed(_)),
        Action::Capture(_)
        | Action::ReadText(_)
        | Action::MakeTemporaryDirectory
        | Action::Resolve(_) => matches!(reply, Reply::Text(_) | Reply::Failed(_)),
        Action::ReadBytes(_) => matches!(reply, Reply::Bytes(_) | Reply::Failed(_)),
        Action::Unpack(_, _) => matches!(reply, Reply::Holds(_) | Reply::Failed(_)),
        Action::PrepareVm | Action::PrepareBinary => matches!(
            reply,
            Reply::Done | Reply::Stopped(_)
        ),
        Action::ReadRandom => match reply {
            Reply::Bytes(bytes) => bytes.len() == 32,
            Reply::Failed(_) => true,
            _ => false,
        },
        Action::Stop => false,
    }
}

} // verus!
