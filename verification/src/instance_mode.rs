//! The network mode that an instance was created with, and the refusal to use
//! it under another one.
use vstd::prelude::*;

use crate::config::CoopConfig;
use crate::failure::{refused, told, Failure, FailureText};
use crate::text::same_text;

verus! {

/// The name of the marker in the directory of an instance.
pub const INSTANCE_MODE_MARKER: &'static str = "private-egress-mode";

/// What the marker of an instance behind the private gateway holds.
pub const INSTANCE_MODE_VERSION: &'static str = "version=1\n";

/// What is done to the marker of an instance.
#[derive(Debug, Clone, Copy)]
pub enum MarkerChange {
    /// It is replaced by this text, readable by its owner alone.
    Write(&'static str),
    /// It is removed, where it is there.
    Remove,
}

/// What became of a change of the marker.
#[derive(Debug)]
pub enum MarkerReply {
    /// It was made.
    Done,
    /// The file was not found, for this reason.
    NotFound(String),
    /// It could not be made, for this reason.
    Failed(String),
}

/// What the marker of an instance was found to hold.
#[derive(Debug)]
pub enum MarkerRead {
    /// This text.
    Contents(String),
    /// There is none.
    NotFound,
    /// It could not be read, for this reason.
    Failed(String),
}

/// Whether a change of the marker records a mode.
pub open spec fn records(change: MarkerChange, private: bool) -> bool {
    if private {
        change matches MarkerChange::Write(text) && text@ == INSTANCE_MODE_VERSION@
    } else {
        change is Remove
    }
}

/// What is to be done to the marker of an instance that is being created. A
/// stopped VM cannot be converted later: an ordinary image may emit traffic
/// before the guard is installed.
pub fn record_instance_mode(cfg: &CoopConfig) -> (r: MarkerChange)
    ensures
        records(r, cfg.private_egress is Some),
{
    if cfg.private_egress.is_some() {
        MarkerChange::Write(INSTANCE_MODE_VERSION)
    } else {
        MarkerChange::Remove
    }
}

/// Why the mode of an instance is not recorded; `None` where it is.
pub open spec fn record_objection(private: bool, reply: MarkerReply) -> Option<FailureText> {
    match (private, reply) {
        (_, MarkerReply::Done) | (false, MarkerReply::NotFound(_)) => None,
        (true, MarkerReply::NotFound(reason)) | (true, MarkerReply::Failed(reason)) => Some(
            told("Failed to record private-egress instance mode"@, reason@),
        ),
        (false, MarkerReply::Failed(reason)) => Some(
            told("Failed to clear stale private-egress mode marker"@, reason@),
        ),
    }
}

/// Judges whether the mode of an instance is recorded. A marker that is to be
/// removed may be missing.
pub fn instance_mode_recorded(cfg: &CoopConfig, reply: MarkerReply) -> (r: Result<(), Failure>)
    ensures
        match r {
            Ok(_) => record_objection(cfg.private_egress is Some, reply) is None,
            Err(failure) => record_objection(cfg.private_egress is Some, reply) == Some(failure@),
        },
{
    let private = cfg.private_egress.is_some();
    match reply {
        MarkerReply::Done => Ok(()),
        MarkerReply::NotFound(reason) => if private {
            Err(Failure::told("Failed to record private-egress instance mode", reason))
        } else {
            Ok(())
        },
        MarkerReply::Failed(reason) => if private {
            Err(Failure::told("Failed to record private-egress instance mode", reason))
        } else {
            Err(Failure::told("Failed to clear stale private-egress mode marker", reason))
        },
    }
}

/// How a network mode is called.
pub open spec fn mode_name(private: bool) -> Seq<char> {
    if private {
        "private egress"@
    } else {
        "ordinary networking"@
    }
}

/// How a network mode is called.
fn mode_text(private: bool) -> (r: &'static str)
    ensures
        r@ == mode_name(private),
{
    if private {
        "private egress"
    } else {
        "ordinary networking"
    }
}

/// What the marker of an instance holds, as far as its mode depends on it.
pub ghost enum MarkerText {
    Contents(Seq<char>),
    NotFound,
    Failed(Seq<char>),
}

impl View for MarkerRead {
    type V = MarkerText;

    open spec fn view(&self) -> MarkerText {
        match self {
            MarkerRead::Contents(text) => MarkerText::Contents(text@),
            MarkerRead::NotFound => MarkerText::NotFound,
            MarkerRead::Failed(reason) => MarkerText::Failed(reason@),
        }
    }
}

/// Why an instance must not be used under a network mode, given what its marker
/// was found to hold; `None` where it may be.
pub open spec fn mode_objection(
    private: bool,
    name: Seq<char>,
    marker: Seq<char>,
    found: MarkerText,
) -> Option<FailureText> {
    match found {
        MarkerText::Contents(text) if text != INSTANCE_MODE_VERSION@ => Some(
            refused(
                "Instance '"@ + name
                    + "' has an invalid or unsupported private-egress mode marker at "@ + marker
                    + ". Destroy and recreate this instance before using it"@,
            ),
        ),
        MarkerText::Failed(reason) => Some(
            told("Failed to read instance mode marker "@ + marker, reason),
        ),
        _ => {
            let recorded = found is Contents;
            if private != recorded {
                Some(
                    refused(
                        "Instance '"@ + name + "' was created with "@ + mode_name(recorded)
                            + ", but the current config uses "@ + mode_name(private)
                            + ". Destroy and recreate this instance before using it under the new network mode"@,
                    ),
                )
            } else {
                None
            }
        },
    }
}

/// Refuses to use an instance under another network mode than the one it was
/// created with. `marker` is the path of its marker, as it is shown.
pub fn ensure_instance_mode(cfg: &CoopConfig, name: &str, marker: &str, found: MarkerRead) -> (r:
    Result<(), Failure>)
    ensures
        match r {
            Ok(_) => mode_objection(cfg.private_egress is Some, name@, marker@, found@) is None,
            Err(failure) => mode_objection(cfg.private_egress is Some, name@, marker@, found@)
                == Some(failure@),
        },
{
    let configured = cfg.private_egress.is_some();
    let recorded = match found {
        MarkerRead::Contents(text) => {
            if !same_text(text.as_str(), INSTANCE_MODE_VERSION) {
                return Err(
                    Failure::refused(
                        "Instance '".to_owned().concat(name).concat(
                            "' has an invalid or unsupported private-egress mode marker at ",
                        ).concat(marker).concat(
                            ". Destroy and recreate this instance before using it",
                        ).as_str(),
                    ),
                );
            }
            true
        },
        MarkerRead::NotFound => false,
        MarkerRead::Failed(reason) => {
            return Err(
                Failure::told(
                    "Failed to read instance mode marker ".to_owned().concat(marker).as_str(),
                    reason,
                ),
            );
        },
    };
    if configured != recorded {
        return Err(
            Failure::refused(
                "Instance '".to_owned().concat(name).concat("' was created with ").concat(
                    mode_text(recorded),
                ).concat(", but the current config uses ").concat(mode_text(configured)).concat(
                    ". Destroy and recreate this instance before using it under the new network mode",
                ).as_str(),
            ),
        );
    }
    Ok(())
}

/// The marker after a change was made.
pub open spec fn marker_after(change: MarkerChange) -> MarkerText {
    match change {
        MarkerChange::Write(text) => MarkerText::Contents(text@),
        MarkerChange::Remove => MarkerText::NotFound,
    }
}

/// An instance whose mode was recorded is usable under exactly that mode.
pub proof fn instance_keeps_its_mode(
    created: bool,
    used: bool,
    change: MarkerChange,
    name: Seq<char>,
    marker: Seq<char>,
)
    requires
        records(change, created),
    ensures
        mode_objection(used, name, marker, marker_after(change)) is None <==> created == used,
{
}

/// A marker that holds anything else than the one known version, or that cannot
/// be read, makes an instance unusable under every mode.
pub proof fn unknown_markers_are_refused(
    private: bool,
    name: Seq<char>,
    marker: Seq<char>,
    found: MarkerText,
)
    requires
        found is Failed || (found matches MarkerText::Contents(text) && text
            != INSTANCE_MODE_VERSION@),
    ensures
        mode_objection(private, name, marker, found) is Some,
{
}

} // verus!
