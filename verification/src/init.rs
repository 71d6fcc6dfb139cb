//! Making the tool callable by name.
//!
//! The tool installs itself by linking its executable to a fixed place on
//! the search path. Where that place is depends on the processor
//! architecture; whether anything has to be done depends on whether the
//! place is taken; and how a failed link is reported depends on why it
//! failed.

use crate::command::{SystemError, SystemErrorKind, SystemErrorView};
use vstd::prelude::*;

verus! {

/// Why the tool could not install itself.
#[derive(Debug, PartialEq, Eq)]
pub enum InitError {
    /// There is no place for the tool on this architecture.
    UnsupportedArchitecture,
    /// The link may not be created by this user.
    PermissionDenied,
    /// The link could not be created; the text is the system's.
    LinkFailed(String),
}

/// Mathematical model of an [`InitError`].
pub enum InitErrorView {
    UnsupportedArchitecture,
    PermissionDenied,
    LinkFailed(Seq<char>),
}

impl View for InitError {
    type V = InitErrorView;

    open spec fn view(&self) -> InitErrorView {
        match self {
            InitError::UnsupportedArchitecture => InitErrorView::UnsupportedArchitecture,
            InitError::PermissionDenied => InitErrorView::PermissionDenied,
            InitError::LinkFailed(text) => InitErrorView::LinkFailed(text@),
        }
    }
}

/// What has to be done about the link.
#[derive(Copy, Clone, Debug, PartialEq, Eq, Structural)]
pub enum LinkStep {
    /// The place is taken: the tool is installed already.
    AlreadyInstalled,
    /// The link has to be created.
    CreateLink,
}

/// Whether the tool has a place on the architecture of this name.
pub open spec fn supported_architecture(arch: Seq<char>) -> bool {
    arch == "x86_64"@ || arch == "aarch64"@
}

/// The message that tells the user about an error.
pub open spec fn init_error_message(error: InitErrorView) -> Seq<char> {
    match error {
        InitErrorView::UnsupportedArchitecture => "Unsupported architecture"@,
        InitErrorView::PermissionDenied => "Permission denied. Rerun with sudo."@,
        InitErrorView::LinkFailed(text) => text,
    }
}

/// The error that a failed link amounts to.
pub open spec fn link_error(error: SystemErrorView) -> InitErrorView {
    match error.kind {
        SystemErrorKind::PermissionDenied => InitErrorView::PermissionDenied,
        _ => InitErrorView::LinkFailed(error.message),
    }
}

fn same_text(left: &str, right: &str) -> (same: bool)
    ensures
        same == (left@ == right@),
{
    left.to_owned() == right.to_owned()
}

/// The place to which the tool is linked on the given architecture.
pub fn link_target(arch: &str) -> (target: Result<String, InitError>)
    ensures
        match target {
            Ok(path) => supported_architecture(arch@) && path@ == "/usr/local/bin/devsetup"@,
            Err(error) => !supported_architecture(arch@) && error
                == InitError::UnsupportedArchitecture,
        },
{
    if same_text(arch, "x86_64") || same_text(arch, "aarch64") {
        Ok("/usr/local/bin/devsetup".to_owned())
    } else {
        Err(InitError::UnsupportedArchitecture)
    }
}

/// What has to be done, given whether the place is taken.
pub fn link_step(target_exists: bool) -> (step: LinkStep)
    ensures
        step == if target_exists {
            LinkStep::AlreadyInstalled
        } else {
            LinkStep::CreateLink
        },
{
    if target_exists {
        LinkStep::AlreadyInstalled
    } else {
        LinkStep::CreateLink
    }
}

/// How the attempt to create the link ended for the user. A refusal for
/// want of permission is told apart from every other failure.
pub fn link_outcome(result: Result<(), SystemError>) -> (outcome: Result<(), InitError>)
    ensures
        match outcome {
            Ok(_) => result is Ok,
            Err(error) => result matches Err(cause) && error@ == link_error(cause@),
        },
{
    match result {
        Ok(_) => Ok(()),
        Err(cause) => match cause.kind {
            SystemErrorKind::PermissionDenied => Err(InitError::PermissionDenied),
            _ => Err(InitError::LinkFailed(cause.message)),
        },
    }
}

impl InitError {
    /// The message that tells the user about the error.
    pub fn message(&self) -> (message: String)
        ensures
            message@ == init_error_message(self@),
    {
        match self {
            InitError::UnsupportedArchitecture => "Unsupported architecture".to_owned(),
            InitError::PermissionDenied => "Permission denied. Rerun with sudo.".to_owned(),
            InitError::LinkFailed(text) => text.clone(),
        }
    }
}

} // verus!
