//! Probing for a tool and installing it: the decisions between the commands.
//!
//! Handling one tool takes at most two commands. First the package manager
//! is asked whether it knows the tool. If it does, the tool is already
//! present and nothing else runs. Otherwise, also when the question could
//! not be asked at all, the install command runs, and its exit status
//! decides between success and failure. The caller runs the commands;
//! [`PackageInstaller`] says which one is due and what their results mean.

use crate::command::{
    command_result_view, install_command, query_command, Command, CommandResultView, CommandView,
    ExitReport, SystemError, SystemErrorKind,
};
use crate::outcome::{InstallOutcome, OutcomeView};
use vstd::prelude::*;

verus! {

/// Why the package manager could not be asked about a tool.
#[derive(Copy, Clone, Debug, PartialEq, Eq, Structural)]
pub enum ProbeError {
    /// The package manager's executable is missing.
    ManagerMissing,
    /// The system refused to run the package manager.
    PermissionDenied,
    /// Any other failure of the environment.
    Other,
}

/// The probe error that a launch error of the given kind amounts to.
pub open spec fn probe_error(kind: SystemErrorKind) -> ProbeError {
    match kind {
        SystemErrorKind::NotFound => ProbeError::ManagerMissing,
        SystemErrorKind::PermissionDenied => ProbeError::PermissionDenied,
        SystemErrorKind::Other => ProbeError::Other,
    }
}

/// What a finished query says about a tool: present exactly when the query
/// exited successfully. Only a query that could not run is an error; "not
/// found" is the ordinary answer `Ok(false)`.
pub open spec fn probe_answer(result: CommandResultView) -> Result<bool, ProbeError> {
    match result {
        Ok(report) => Ok(report.success),
        Err(error) => Err(probe_error(error.kind)),
    }
}

/// Asks the package manager whether a tool is installed.
pub struct PackageProbe;

impl PackageProbe {
    /// The query to run for `tool`.
    pub fn command(tool: &str) -> (command: Command)
        ensures
            command@ == query_command(tool@),
    {
        Command::query(tool)
    }

    /// Reads the result of the query.
    pub fn is_present(result: &Result<ExitReport, SystemError>) -> (answer: Result<
        bool,
        ProbeError,
    >)
        ensures
            answer == probe_answer(command_result_view(*result)),
    {
        match result {
            Ok(report) => Ok(report.success),
            Err(error) => Err(
                match error.kind {
                    SystemErrorKind::NotFound => ProbeError::ManagerMissing,
                    SystemErrorKind::PermissionDenied => ProbeError::PermissionDenied,
                    SystemErrorKind::Other => ProbeError::Other,
                },
            ),
        }
    }
}

/// The text that `String::from_utf8_lossy` makes of a byte string.
pub uninterp spec fn lossy_utf8(bytes: Seq<u8>) -> Seq<char>;

/// Decodes captured output for display with `String::from_utf8_lossy`,
/// which puts the replacement character in the place of whatever is not
/// UTF-8.
///
/// Trusted, not proved: the result is the text named [`lossy_utf8`].
#[verifier::external_body]
fn decode_lossy(bytes: &[u8]) -> (text: String)
    ensures
        text@ == lossy_utf8(bytes@),
{
    String::from_utf8_lossy(bytes).into_owned()
}

/// The outcome of an install command that ran to its end: the exit
/// status decides, and a failure carries the diagnostic.
pub open spec fn exit_outcome(success: bool, diagnostic: Seq<char>) -> OutcomeView {
    if success {
        OutcomeView::InstalledOk
    } else {
        OutcomeView::InstallFailed(diagnostic)
    }
}

/// Whether the install command has to run after the given probe answer:
/// always, unless the tool is known to be present.
pub open spec fn needs_install(answer: Result<bool, ProbeError>) -> bool {
    answer != Ok::<bool, ProbeError>(true)
}

/// The outcome that the result of the install command amounts to.
pub open spec fn install_result_outcome(result: CommandResultView) -> OutcomeView {
    match result {
        Ok(report) => exit_outcome(report.success, lossy_utf8(report.stderr)),
        Err(error) => OutcomeView::InstallFailed(error.message),
    }
}

/// The outcome of handling one tool, from the probe answer and, where the
/// install command ran, its result.
pub open spec fn install_outcome(
    answer: Result<bool, ProbeError>,
    result: CommandResultView,
) -> OutcomeView {
    if needs_install(answer) {
        install_result_outcome(result)
    } else {
        OutcomeView::AlreadyPresent
    }
}

/// Where a [`PackageInstaller`] stands.
#[derive(Debug, PartialEq, Eq)]
pub enum InstallState {
    /// The query has to run; its answer is awaited.
    AwaitingProbe,
    /// The install command has to run; its result is awaited.
    AwaitingInstall,
    /// The tool has been dealt with.
    Finished(InstallOutcome),
}

/// What the caller of a [`PackageInstaller`] has to do next.
#[derive(Debug, PartialEq, Eq)]
pub enum InstallStep {
    /// Run the query and report with [`PackageInstaller::on_probe`].
    Probe(Command),
    /// Run the install command and report with
    /// [`PackageInstaller::on_install`].
    Install(Command),
    /// Nothing: this is the tool's outcome.
    Done(InstallOutcome),
}

/// Mathematical model of an [`InstallState`].
pub enum InstallStateView {
    AwaitingProbe,
    AwaitingInstall,
    Finished(OutcomeView),
}

/// Mathematical model of an [`InstallStep`].
pub enum InstallStepView {
    Probe(CommandView),
    Install(CommandView),
    Done(OutcomeView),
}

impl View for InstallState {
    type V = InstallStateView;

    open spec fn view(&self) -> InstallStateView {
        match self {
            InstallState::AwaitingProbe => InstallStateView::AwaitingProbe,
            InstallState::AwaitingInstall => InstallStateView::AwaitingInstall,
            InstallState::Finished(outcome) => InstallStateView::Finished(outcome@),
        }
    }
}

impl View for InstallStep {
    type V = InstallStepView;

    open spec fn view(&self) -> InstallStepView {
        match self {
            InstallStep::Probe(command) => InstallStepView::Probe(command@),
            InstallStep::Install(command) => InstallStepView::Install(command@),
            InstallStep::Done(outcome) => InstallStepView::Done(outcome@),
        }
    }
}

/// Handles one tool: says which command is due and turns the results into
/// the tool's [`InstallOutcome`].
#[derive(Debug, PartialEq, Eq)]
pub struct PackageInstaller {
    tool: String,
    state: InstallState,
}

/// Mathematical model of a [`PackageInstaller`].
pub struct InstallerView {
    pub tool: Seq<char>,
    pub state: InstallStateView,
}

/// An installer that has not run anything yet.
pub open spec fn fresh_installer(tool: Seq<char>) -> InstallerView {
    InstallerView { tool, state: InstallStateView::AwaitingProbe }
}

/// What is due in a given state.
pub open spec fn pending_step(installer: InstallerView) -> InstallStepView {
    match installer.state {
        InstallStateView::AwaitingProbe => InstallStepView::Probe(query_command(installer.tool)),
        InstallStateView::AwaitingInstall => InstallStepView::Install(
            install_command(installer.tool),
        ),
        InstallStateView::Finished(outcome) => InstallStepView::Done(outcome),
    }
}

/// The state after a probe answer came in. It counts only while the answer
/// is awaited.
pub open spec fn after_probe(
    installer: InstallerView,
    answer: Result<bool, ProbeError>,
) -> InstallerView {
    match installer.state {
        InstallStateView::AwaitingProbe => InstallerView {
            state: if needs_install(answer) {
                InstallStateView::AwaitingInstall
            } else {
                InstallStateView::Finished(OutcomeView::AlreadyPresent)
            },
            ..installer
        },
        _ => installer,
    }
}

/// The state after the result of the install command came in. It counts
/// only while that result is awaited.
pub open spec fn after_install(
    installer: InstallerView,
    result: CommandResultView,
) -> InstallerView {
    match installer.state {
        InstallStateView::AwaitingInstall => InstallerView {
            state: InstallStateView::Finished(install_result_outcome(result)),
            ..installer
        },
        _ => installer,
    }
}

impl View for PackageInstaller {
    type V = InstallerView;

    closed spec fn view(&self) -> InstallerView {
        InstallerView { tool: self.tool@, state: self.state@ }
    }
}

impl PackageInstaller {
    /// An installer for `tool`; the query is due.
    pub fn new(tool: String) -> (installer: PackageInstaller)
        ensures
            installer@ == fresh_installer(tool@),
    {
        PackageInstaller { tool, state: InstallState::AwaitingProbe }
    }

    /// The tool this installer handles.
    pub fn tool(&self) -> (tool: &String)
        ensures
            tool@ == self@.tool,
    {
        &self.tool
    }

    /// The outcome of an install command that ran to its end, from its
    /// exit status and the decoded text of its standard error: success by
    /// the status alone, and a failure with the text as its diagnostic.
    pub fn outcome_of_exit(success: bool, diagnostic: String) -> (outcome: InstallOutcome)
        ensures
            outcome@ == exit_outcome(success, diagnostic@),
    {
        if success {
            InstallOutcome::InstalledOk
        } else {
            InstallOutcome::InstallFailed(diagnostic)
        }
    }

    /// What the caller has to do next.
    pub fn next_step(&self) -> (step: InstallStep)
        ensures
            step@ == pending_step(self@),
    {
        match &self.state {
            InstallState::AwaitingProbe => InstallStep::Probe(Command::query(self.tool.as_str())),
            InstallState::AwaitingInstall => InstallStep::Install(
                Command::install(self.tool.as_str()),
            ),
            InstallState::Finished(outcome) => InstallStep::Done(outcome.clone()),
        }
    }

    /// Takes the answer of the probe and says what is due then. A tool that
    /// is present is finished at once; any other answer calls for the
    /// install command. An answer that was not awaited changes nothing.
    pub fn on_probe(&mut self, answer: Result<bool, ProbeError>) -> (step: InstallStep)
        ensures
            final(self)@ == after_probe(old(self)@, answer),
            step@ == pending_step(final(self)@),
    {
        if let InstallState::AwaitingProbe = self.state {
            self.state = match answer {
                Ok(true) => InstallState::Finished(InstallOutcome::AlreadyPresent),
                _ => InstallState::AwaitingInstall,
            };
        }
        self.next_step()
    }

    /// Takes the result of the install command and says what is due then:
    /// nothing but the outcome. A result that was not awaited changes
    /// nothing.
    pub fn on_install(&mut self, result: Result<ExitReport, SystemError>) -> (step: InstallStep)
        ensures
            final(self)@ == after_install(old(self)@, command_result_view(result)),
            step@ == pending_step(final(self)@),
    {
        if let InstallState::AwaitingInstall = self.state {
            let outcome = match result {
                Ok(report) => PackageInstaller::outcome_of_exit(
                    report.success,
                    decode_lossy(report.stderr.as_slice()),
                ),
                Err(error) => InstallOutcome::InstallFailed(error.message),
            };
            self.state = InstallState::Finished(outcome);
        }
        self.next_step()
    }

    /// The outcome, once the tool has been dealt with.
    pub fn outcome(&self) -> (outcome: Option<InstallOutcome>)
        ensures
            match outcome {
                Some(o) => self@.state == InstallStateView::Finished(o@),
                None => !(self@.state is Finished),
            },
    {
        match &self.state {
            InstallState::Finished(outcome) => Some(outcome.clone()),
            _ => None,
        }
    }
}

/// Something a caller may report to an installer.
pub enum InstallEventView {
    /// The answer of the probe.
    Probed(Result<bool, ProbeError>),
    /// The result of the install command.
    Installed(CommandResultView),
}

/// The state after one report.
pub open spec fn after_event(installer: InstallerView, event: InstallEventView) -> InstallerView {
    match event {
        InstallEventView::Probed(answer) => after_probe(installer, answer),
        InstallEventView::Installed(result) => after_install(installer, result),
    }
}

/// The state after a run of reports, taken one after the other.
pub open spec fn after_events(
    installer: InstallerView,
    events: Seq<InstallEventView>,
) -> InstallerView
    decreases events.len(),
{
    if events.len() == 0 {
        installer
    } else {
        after_events(after_event(installer, events[0]), events.drop_first())
    }
}

/// How often a run of reports makes the install command due.
pub open spec fn install_requests(installer: InstallerView, events: Seq<InstallEventView>) -> nat
    decreases events.len(),
{
    if events.len() == 0 {
        0
    } else {
        let next = after_event(installer, events[0]);
        install_requests(next, events.drop_first()) + if next.state is AwaitingInstall
            && !(installer.state is AwaitingInstall) {
            1nat
        } else {
            0nat
        }
    }
}

/// Handling a tool comes to the outcome [`install_outcome`]: the probe
/// answer alone decides whether the install command is due, and if it is,
/// its result decides the rest.
pub proof fn lemma_install_comes_to_outcome(
    tool: Seq<char>,
    answer: Result<bool, ProbeError>,
    result: CommandResultView,
)
    ensures
        pending_step(fresh_installer(tool)) == InstallStepView::Probe(query_command(tool)),
        needs_install(answer) ==> pending_step(after_probe(fresh_installer(tool), answer))
            == InstallStepView::Install(install_command(tool)),
        !needs_install(answer) ==> pending_step(after_probe(fresh_installer(tool), answer))
            == InstallStepView::Done(OutcomeView::AlreadyPresent),
        needs_install(answer) ==> pending_step(
            after_install(after_probe(fresh_installer(tool), answer), result),
        ) == InstallStepView::Done(install_outcome(answer, result)),
{
}

/// An installer that is finished stays as it is, whatever is reported.
pub proof fn lemma_finished_installer_stays(
    installer: InstallerView,
    events: Seq<InstallEventView>,
)
    requires
        installer.state is Finished,
    ensures
        after_events(installer, events) == installer,
        install_requests(installer, events) == 0,
    decreases events.len(),
{
    if events.len() > 0 {
        lemma_finished_installer_stays(installer, events.drop_first());
    }
}

/// A tool that is present is never installed: once the probe has found
/// it, the tool is finished as already present, and whatever is reported
/// afterwards, however often, the install command does not become due.
pub proof fn lemma_present_tool_is_never_installed(
    tool: Seq<char>,
    later: Seq<InstallEventView>,
)
    ensures
        ({
            let found = after_probe(fresh_installer(tool), Ok(true));
            &&& pending_step(found) == InstallStepView::Done(OutcomeView::AlreadyPresent)
            &&& pending_step(after_events(found, later)) == InstallStepView::Done(
                OutcomeView::AlreadyPresent,
            )
            &&& install_requests(found, later) == 0
        }),
{
    lemma_finished_installer_stays(after_probe(fresh_installer(tool), Ok(true)), later);
}

/// A tool is attempted at most once: whatever is reported to a fresh
/// installer, the install command becomes due at most one time.
pub proof fn lemma_at_most_one_attempt(tool: Seq<char>, events: Seq<InstallEventView>)
    ensures
        install_requests(fresh_installer(tool), events) <= 1,
{
    lemma_requests_bounded(fresh_installer(tool), events);
}

proof fn lemma_requests_bounded(installer: InstallerView, events: Seq<InstallEventView>)
    ensures
        installer.state is AwaitingProbe ==> install_requests(installer, events) <= 1,
        !(installer.state is AwaitingProbe) ==> install_requests(installer, events) == 0,
    decreases events.len(),
{
    if events.len() > 0 {
        lemma_requests_bounded(after_event(installer, events[0]), events.drop_first());
    }
}

} // verus!
