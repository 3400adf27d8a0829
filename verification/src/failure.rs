//! Why an operation failed: what was being done, and what stopped it.
use vstd::prelude::*;

use crate::harden::{harden_message, HardenError, HardenFault};

verus! {

/// What stopped an operation.
#[derive(Debug)]
pub enum Cause {
    /// Nothing but what the failure's own text says.
    Nothing,
    /// What the outside reported.
    Told(String),
    /// A YAML document that cannot be read or written.
    Yaml(serde_yaml_ng::Error),
    /// A JSON document that cannot be read or written.
    Json(serde_json::Error),
    /// A hexadecimal text that cannot be decoded.
    Hex(hex::FromHexError),
}

/// A [`Cause`] without what only its own text shows.
pub ghost enum CauseText {
    Nothing,
    Told(Seq<char>),
    Yaml,
    Json,
    Hex,
}

impl View for Cause {
    type V = CauseText;

    open spec fn view(&self) -> CauseText {
        match self {
            Cause::Nothing => CauseText::Nothing,
            Cause::Told(text) => CauseText::Told(text@),
            Cause::Yaml(_) => CauseText::Yaml,
            Cause::Json(_) => CauseText::Json,
            Cause::Hex(_) => CauseText::Hex,
        }
    }
}

/// A failed operation.
#[derive(Debug)]
pub struct Failure {
    /// What failed.
    pub message: String,
    /// What stopped it.
    pub cause: Cause,
}

/// What a [`Failure`] says.
#[verifier::ext_equal]
pub ghost struct FailureText {
    pub message: Seq<char>,
    pub cause: CauseText,
}

impl View for Failure {
    type V = FailureText;

    open spec fn view(&self) -> FailureText {
        FailureText { message: self.message@, cause: self.cause@ }
    }
}

/// The view of a failure, where there is one.
pub open spec fn failure_view(failure: Option<Failure>) -> Option<FailureText> {
    match failure {
        Some(failure) => Some(failure@),
        None => None,
    }
}

/// A failure for which its text is reason enough.
pub open spec fn refused(message: Seq<char>) -> FailureText {
    FailureText { message, cause: CauseText::Nothing }
}

/// A failure that the outside gave a reason for.
pub open spec fn told(message: Seq<char>, reason: Seq<char>) -> FailureText {
    FailureText { message, cause: CauseText::Told(reason) }
}

/// The failure to read a digest.
pub open spec fn no_digest(message: Seq<char>) -> FailureText {
    FailureText { message, cause: CauseText::Hex }
}

/// The failure to read an IPv4 address.
pub open spec fn no_address(message: Seq<char>) -> FailureText {
    told(message, "invalid IPv4 address syntax"@)
}

impl Failure {
    /// A failure for which its text is reason enough.
    pub fn refused(message: &str) -> (r: Self)
        ensures
            r@ == refused(message@),
    {
        Failure { message: message.to_owned(), cause: Cause::Nothing }
    }

    /// A failure that the outside gave a reason for.
    pub fn told(message: &str, reason: String) -> (r: Self)
        ensures
            r@ == told(message@, reason@),
    {
        Failure { message: message.to_owned(), cause: Cause::Told(reason) }
    }

    /// The failure to read an IPv4 address.
    pub fn no_address(message: &str) -> (r: Self)
        ensures
            r@ == no_address(message@),
    {
        Failure::told(message, "invalid IPv4 address syntax".to_owned())
    }

    /// The failure to turn a subscription into a gateway configuration.
    pub fn unhardened(error: HardenError) -> (r: Self)
        ensures
            r@ == unhardened(error@),
    {
        let message = error.message();
        match error {
            HardenError::Unwritable(cause) => Failure { message, cause: Cause::Yaml(cause) },
            _ => Failure { message, cause: Cause::Nothing },
        }
    }
}

/// The failure to turn a subscription into a gateway configuration.
pub open spec fn unhardened(fault: HardenFault) -> FailureText {
    FailureText {
        message: harden_message(fault),
        cause: if fault is Unwritable {
            CauseText::Yaml
        } else {
            CauseText::Nothing
        },
    }
}

} // verus!
