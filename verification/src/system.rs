//! Looking at the system the tool runs on.
//!
//! The look is informational: the kind and the release of the operating
//! system are shown to the user if both can be had, and the run goes on
//! either way.

use vstd::prelude::*;

verus! {

/// The error type of the `sys_info` crate, carried through unread.
#[verifier::external_type_specification]
#[verifier::external_body]
pub struct ExSysInfoError(sys_info::Error);

/// Asks `sys_info::os_type` for the kind of the operating system.
///
/// Trusted, not proved. Nothing is claimed of the answer: it depends on
/// the machine.
#[verifier::external_body]
fn os_type() -> Result<String, sys_info::Error> {
    sys_info::os_type()
}

/// Asks `sys_info::os_release` for the release of the operating system.
///
/// Trusted, not proved. Nothing is claimed of the answer: it depends on
/// the machine.
#[verifier::external_body]
fn os_release() -> Result<String, sys_info::Error> {
    sys_info::os_release()
}

/// Kind and release of the operating system.
#[derive(Debug, PartialEq, Eq)]
pub struct SystemInfo {
    pub os_type: String,
    pub os_release: String,
}

/// Mathematical model of a [`SystemInfo`].
pub struct SystemInfoView {
    pub os_type: Seq<char>,
    pub os_release: Seq<char>,
}

impl View for SystemInfo {
    type V = SystemInfoView;

    open spec fn view(&self) -> SystemInfoView {
        SystemInfoView { os_type: self.os_type@, os_release: self.os_release@ }
    }
}

impl DeepView for SystemInfo {
    type V = SystemInfoView;

    open spec fn deep_view(&self) -> SystemInfoView {
        self@
    }
}

/// The line that tells the user about the system.
pub open spec fn system_line(info: SystemInfoView) -> Seq<char> {
    "OS Type: "@ + info.os_type + ", OS Release: "@ + info.os_release
}

impl SystemInfo {
    /// Puts the two answers together: the system is known only if both
    /// its kind and its release are.
    pub fn from_answers(os_type: Option<String>, os_release: Option<String>) -> (info: Option<
        SystemInfo,
    >)
        ensures
            match info {
                Some(known) => os_type == Some(known.os_type) && os_release == Some(
                    known.os_release,
                ),
                None => os_type is None || os_release is None,
            },
    {
        match os_type {
            Some(kind) => match os_release {
                Some(release) => Some(SystemInfo { os_type: kind, os_release: release }),
                None => None,
            },
            None => None,
        }
    }

    /// The line that tells the user about the system.
    pub fn line(&self) -> (line: String)
        ensures
            line@ == system_line(self@),
    {
        let mut line = "OS Type: ".to_owned();
        line.append(self.os_type.as_str());
        line.append(", OS Release: ");
        line.append(self.os_release.as_str());
        line
    }
}

/// Looks at the system. An answer that cannot be had leaves the system
/// unknown; it is never an error.
pub fn detect_system() -> (info: Option<SystemInfo>) {
    let kind = match os_type() {
        Ok(text) => Some(text),
        Err(_) => None,
    };
    let release = match os_release() {
        Ok(text) => Some(text),
        Err(_) => None,
    };
    SystemInfo::from_answers(kind, release)
}

} // verus!
