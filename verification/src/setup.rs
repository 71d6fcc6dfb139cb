//! The course of a whole setup run.
//!
//! A run first makes sure that the package manager is there, installing it
//! if need be, and then works through the chosen profile: the basic
//! profile submits one fixed list, the full profile goes through its stages
//! and offers to narrow each, the customized profile collects tool names
//! from the user, stores them and submits them.
//!
//! The service does none of the outside work itself. It tells its caller
//! what is due as an [`Action`]; the caller does it and reports back with
//! the matching [`Event`]; [`SetupService::step`] then decides how the run
//! goes on. The decisions are the function [`transition`].

use crate::cli::SetupType;
use crate::command::{
    bootstrap_command, command_result_view, version_probe_command, Command, CommandResultView,
    CommandView, ExitReport, SystemError,
};
use crate::config::{full_stage, Config, ConfigView, STAGE_COUNT};
use crate::installer::ProbeError;
use crate::outcome::{BatchReport, OutcomeView};
use crate::stage::{
    choice_view, stage_plan, SelectionSet, Stage, StagePlan, StagePlanView, StageRunner, StageView,
};
use crate::system::{detect_system, SystemInfo, SystemInfoView};
use crate::tools::{copy_tools, ToolNames};
use vstd::prelude::*;

verus! {

/// Where a run stands: what the service waits for.
#[derive(Copy, Clone, Debug, PartialEq, Eq, Structural)]
pub enum Phase {
    /// No run has begun.
    Idle,
    /// The answer of the package manager's version probe.
    ProbingManager(SetupType),
    /// The end of the package manager's own installation.
    Bootstrapping(SetupType),
    /// Whether the user wants to narrow the stage at this position.
    CustomizingStage(usize),
    /// The user's selection for the stage at this position.
    SelectingTools(usize),
    /// The next tool name of a customized list.
    CollectingTools,
    /// The end of the attempt to store the catalogue.
    SavingConfig,
    /// The report of a batch of `size` tools; the stage at position
    /// `then` comes after it.
    Installing { then: usize, size: usize },
    /// The run is over.
    Done,
    /// The run was given up.
    Aborted,
}

/// An error that ends the whole run.
#[derive(Debug, PartialEq, Eq)]
pub enum FatalError {
    /// The package manager could not be installed; the text says why.
    BootstrapFailed(String),
}

/// Mathematical model of a [`FatalError`].
pub enum FatalErrorView {
    BootstrapFailed(Seq<char>),
}

impl View for FatalError {
    type V = FatalErrorView;

    open spec fn view(&self) -> FatalErrorView {
        match self {
            FatalError::BootstrapFailed(text) => FatalErrorView::BootstrapFailed(text@),
        }
    }
}

/// What the caller has to do next.
#[derive(Debug, PartialEq, Eq)]
pub enum Action {
    /// Run the version probe and report with [`Event::ManagerProbed`].
    ProbeManager(Command),
    /// Run the package manager's installation and report with
    /// [`Event::BootstrapFinished`].
    BootstrapManager(Command),
    /// Ask whether the named stage is to be narrowed and report with
    /// [`Event::CustomizeAnswered`].
    AskCustomize(String),
    /// Let the user select among the tools of the stage, all of them set
    /// beforehand, and report with [`Event::SelectionMade`].
    AskSelection(Stage),
    /// Ask for one more tool name and report with [`Event::ToolEntered`].
    AskToolName,
    /// Store the catalogue of the service and report with
    /// [`Event::ConfigSaved`].
    SaveConfig,
    /// Run these tools as one batch and report with
    /// [`Event::BatchFinished`].
    RunBatch(Vec<String>),
    /// Nothing is left to do.
    Finish,
    /// Stop: the run cannot go on.
    Abort(FatalError),
}

/// Mathematical model of an [`Action`].
pub enum ActionView {
    ProbeManager(CommandView),
    BootstrapManager(CommandView),
    AskCustomize(Seq<char>),
    AskSelection(StageView),
    AskToolName,
    SaveConfig,
    RunBatch(ToolNames),
    Finish,
    Abort(FatalErrorView),
}

impl View for Action {
    type V = ActionView;

    open spec fn view(&self) -> ActionView {
        match self {
            Action::ProbeManager(command) => ActionView::ProbeManager(command@),
            Action::BootstrapManager(command) => ActionView::BootstrapManager(command@),
            Action::AskCustomize(stage) => ActionView::AskCustomize(stage@),
            Action::AskSelection(stage) => ActionView::AskSelection(stage@),
            Action::AskToolName => ActionView::AskToolName,
            Action::SaveConfig => ActionView::SaveConfig,
            Action::RunBatch(tools) => ActionView::RunBatch(tools.deep_view()),
            Action::Finish => ActionView::Finish,
            Action::Abort(error) => ActionView::Abort(error@),
        }
    }
}

/// What the caller reports back.
#[derive(Debug, PartialEq, Eq)]
pub enum Event {
    /// The answer of the version probe: whether the package manager
    /// answered with success, or why it could not be asked.
    ManagerProbed(Result<bool, ProbeError>),
    /// How the package manager's own installation ended.
    BootstrapFinished(Result<ExitReport, SystemError>),
    /// Whether the user wants to narrow the stage.
    CustomizeAnswered(bool),
    /// The user's selection; none if the user cancelled.
    SelectionMade(Option<SelectionSet>),
    /// A line the user entered; the empty line ends the list.
    ToolEntered(String),
    /// Whether the catalogue could be stored.
    ConfigSaved(bool),
    /// The report of the batch that was run.
    BatchFinished(BatchReport),
}

/// Mathematical model of an [`Event`].
pub enum EventView {
    ManagerProbed(Result<bool, ProbeError>),
    BootstrapFinished(CommandResultView),
    CustomizeAnswered(bool),
    SelectionMade(Option<Seq<int>>),
    ToolEntered(Seq<char>),
    ConfigSaved(bool),
    BatchFinished(Seq<OutcomeView>),
}

impl View for Event {
    type V = EventView;

    open spec fn view(&self) -> EventView {
        match self {
            Event::ManagerProbed(answer) => EventView::ManagerProbed(*answer),
            Event::BootstrapFinished(result) => EventView::BootstrapFinished(
                command_result_view(*result),
            ),
            Event::CustomizeAnswered(customize) => EventView::CustomizeAnswered(*customize),
            Event::SelectionMade(choice) => EventView::SelectionMade(choice_view(*choice)),
            Event::ToolEntered(name) => EventView::ToolEntered(name@),
            Event::ConfigSaved(stored) => EventView::ConfigSaved(*stored),
            Event::BatchFinished(report) => EventView::BatchFinished(report@),
        }
    }
}

/// Why an event was not taken.
#[derive(Copy, Clone, Debug, PartialEq, Eq, Structural)]
pub enum Rejected {
    /// The service is not waiting for this kind of event.
    UnexpectedEvent,
    /// The selection names a position that the stage does not have.
    InvalidSelection,
    /// The report does not have one outcome per submitted tool.
    WrongReportSize,
}

/// Sequences a setup run for a catalogue.
#[derive(Debug)]
pub struct SetupService {
    config: Config,
    phase: Phase,
    entered: Vec<String>,
    reports: Vec<BatchReport>,
    system: Option<SystemInfo>,
}

/// Mathematical model of a [`SetupService`].
pub struct SetupView {
    /// The catalogue.
    pub config: ConfigView,
    /// What the service waits for.
    pub phase: Phase,
    /// The tool names entered so far for a customized list.
    pub entered: ToolNames,
    /// The reports of the stages dealt with, in their order. A cancelled
    /// stage has the empty report.
    pub reports: Seq<Seq<OutcomeView>>,
    /// What is known of the system.
    pub system: Option<SystemInfoView>,
}

impl View for SetupService {
    type V = SetupView;

    closed spec fn view(&self) -> SetupView {
        SetupView {
            config: self.config@,
            phase: self.phase,
            entered: self.entered.deep_view(),
            reports: self.reports.deep_view(),
            system: self.system.deep_view(),
        }
    }
}

/// A service that has the catalogue and has not begun a run.
pub open spec fn idle_service(config: ConfigView) -> SetupView {
    SetupView {
        config,
        phase: Phase::Idle,
        entered: Seq::empty(),
        reports: Seq::empty(),
        system: None,
    }
}

/// The beginning of a run: nothing is entered or reported yet, and the
/// package manager is probed first.
pub open spec fn begun(
    state: SetupView,
    profile: SetupType,
    system: Option<SystemInfoView>,
) -> SetupView {
    SetupView {
        config: state.config,
        phase: Phase::ProbingManager(profile),
        entered: Seq::empty(),
        reports: Seq::empty(),
        system,
    }
}

/// Submitting `tools` as a batch, with the stage at `then` to follow.
pub open spec fn dispatch(state: SetupView, tools: ToolNames, then: usize) -> (
    SetupView,
    ActionView,
) {
    (
        SetupView { phase: Phase::Installing { then, size: tools.len() as usize }, ..state },
        ActionView::RunBatch(tools),
    )
}

/// Turning to the stage at `position` of the full profile: the user is
/// asked whether to narrow it. Past the last stage the run is over.
pub open spec fn ask_stage(state: SetupView, position: usize) -> (SetupView, ActionView) {
    if position < STAGE_COUNT {
        (
            SetupView { phase: Phase::CustomizingStage(position), ..state },
            ActionView::AskCustomize(full_stage(state.config, position as int).name),
        )
    } else {
        (SetupView { phase: Phase::Done, ..state }, ActionView::Finish)
    }
}

/// Entering a profile. The basic profile submits its whole list at once;
/// the full profile turns to its first stage; the customized profile
/// starts collecting names.
pub open spec fn enter_profile(state: SetupView, profile: SetupType) -> (SetupView, ActionView) {
    match profile {
        SetupType::Basic => dispatch(state, state.config.basic, STAGE_COUNT),
        SetupType::Full => ask_stage(state, 0),
        SetupType::Customized => (
            SetupView { phase: Phase::CollectingTools, entered: Seq::empty(), ..state },
            ActionView::AskToolName,
        ),
    }
}

/// Why the package manager's own installation failed, if it did: it could
/// not be run, or it ran and did not exit with success.
pub open spec fn bootstrap_failure(result: CommandResultView) -> Option<Seq<char>> {
    match result {
        Ok(report) => if report.success {
            None
        } else {
            Some("Failed to install Homebrew."@)
        },
        Err(error) => Some(error.message),
    }
}

/// What the user is told about the package manager after its probe.
pub open spec fn manager_notice(answer: Result<bool, ProbeError>) -> Seq<char> {
    match answer {
        Ok(true) => "Homebrew is already installed."@,
        Ok(false) => "Homebrew is not installed, attempting to install..."@,
        Err(_) => "Error checking Homebrew, attempting to install..."@,
    }
}

/// The state with one more report.
pub open spec fn with_report(state: SetupView, report: Seq<OutcomeView>) -> SetupView {
    SetupView { reports: state.reports.push(report), ..state }
}

/// How a run goes on when `event` is reported in `state`: the state that
/// follows and what is due then, or why the event is not taken.
pub open spec fn transition(state: SetupView, event: EventView) -> Result<
    (SetupView, ActionView),
    Rejected,
> {
    match (state.phase, event) {
        (Phase::ProbingManager(profile), EventView::ManagerProbed(answer)) => Ok(
            if answer == Ok::<bool, ProbeError>(true) {
                enter_profile(state, profile)
            } else {
                (
                    SetupView { phase: Phase::Bootstrapping(profile), ..state },
                    ActionView::BootstrapManager(bootstrap_command()),
                )
            },
        ),
        (Phase::Bootstrapping(profile), EventView::BootstrapFinished(result)) => Ok(
            match bootstrap_failure(result) {
                None => enter_profile(state, profile),
                Some(reason) => (
                    SetupView { phase: Phase::Aborted, ..state },
                    ActionView::Abort(FatalErrorView::BootstrapFailed(reason)),
                ),
            },
        ),
        (Phase::CustomizingStage(position), EventView::CustomizeAnswered(customize)) => {
            if position >= STAGE_COUNT {
                Err(Rejected::UnexpectedEvent)
            } else if customize {
                Ok(
                    (
                        SetupView { phase: Phase::SelectingTools(position), ..state },
                        ActionView::AskSelection(full_stage(state.config, position as int)),
                    ),
                )
            } else {
                Ok(
                    dispatch(
                        state,
                        full_stage(state.config, position as int).tools,
                        (position + 1) as usize,
                    ),
                )
            }
        },
        (Phase::SelectingTools(position), EventView::SelectionMade(choice)) => {
            if position >= STAGE_COUNT {
                Err(Rejected::UnexpectedEvent)
            } else {
                match stage_plan(full_stage(state.config, position as int), true, choice) {
                    Ok(StagePlanView::Dispatch(tools)) => Ok(
                        dispatch(state, tools, (position + 1) as usize),
                    ),
                    Ok(StagePlanView::Cancelled) => Ok(
                        ask_stage(with_report(state, Seq::empty()), (position + 1) as usize),
                    ),
                    Err(_) => Err(Rejected::InvalidSelection),
                }
            }
        },
        (Phase::CollectingTools, EventView::ToolEntered(name)) => Ok(
            if name.len() == 0 {
                (
                    SetupView {
                        phase: Phase::SavingConfig,
                        config: ConfigView { customized: state.entered, ..state.config },
                        ..state
                    },
                    ActionView::SaveConfig,
                )
            } else {
                (SetupView { entered: state.entered.push(name), ..state }, ActionView::AskToolName)
            },
        ),
        (Phase::SavingConfig, EventView::ConfigSaved(_)) => Ok(
            dispatch(state, state.config.customized, STAGE_COUNT),
        ),
        (Phase::Installing { then, size }, EventView::BatchFinished(report)) => {
            if report.len() == size {
                Ok(ask_stage(with_report(state, report), then))
            } else {
                Err(Rejected::WrongReportSize)
            }
        },
        _ => Err(Rejected::UnexpectedEvent),
    }
}

/// What the user is told about the package manager after its probe:
/// that it is there, that it is missing and will be installed, or that it
/// could not be asked and will be installed.
pub fn manager_notice_text(answer: Result<bool, ProbeError>) -> (notice: String)
    ensures
        notice@ == manager_notice(answer),
{
    match answer {
        Ok(true) => "Homebrew is already installed.".to_owned(),
        Ok(false) => "Homebrew is not installed, attempting to install...".to_owned(),
        Err(_) => "Error checking Homebrew, attempting to install...".to_owned(),
    }
}

impl SetupService {
    /// A service for `config` that has not begun a run.
    pub fn new(config: Config) -> (service: SetupService)
        ensures
            service@ == idle_service(config@),
    {
        let entered: Vec<String> = Vec::new();
        let reports: Vec<BatchReport> = Vec::new();
        assert(entered.deep_view() =~= Seq::<Seq<char>>::empty());
        assert(reports.deep_view() =~= Seq::<Seq<OutcomeView>>::empty());
        SetupService { config, phase: Phase::Idle, entered, reports, system: None }
    }

    /// The catalogue.
    pub fn config(&self) -> (config: &Config)
        ensures
            config@ == self@.config,
    {
        &self.config
    }

    /// What the service waits for.
    pub fn phase(&self) -> (phase: Phase)
        ensures
            phase == self@.phase,
    {
        self.phase
    }

    /// The reports of the stages dealt with so far.
    pub fn reports(&self) -> (reports: &Vec<BatchReport>)
        ensures
            reports.deep_view() == self@.reports,
    {
        &self.reports
    }

    /// What is known of the system.
    pub fn system(&self) -> (system: &Option<SystemInfo>)
        ensures
            system.deep_view() == self@.system,
    {
        &self.system
    }

    /// Gives up the service for its catalogue.
    pub fn into_config(self) -> (config: Config)
        ensures
            config@ == self@.config,
    {
        self.config
    }

    /// Begins a run of `profile` on a system of which `system` is known.
    /// Whatever was entered or reported before is forgotten. The package
    /// manager is probed first.
    pub fn begin(&mut self, profile: SetupType, system: Option<SystemInfo>) -> (action: Action)
        ensures
            final(self)@ == begun(old(self)@, profile, system.deep_view()),
            action@ == ActionView::ProbeManager(version_probe_command()),
    {
        self.phase = Phase::ProbingManager(profile);
        self.entered = Vec::new();
        self.reports = Vec::new();
        self.system = system;
        assert(self.entered.deep_view() =~= Seq::<Seq<char>>::empty());
        assert(self.reports.deep_view() =~= Seq::<Seq<OutcomeView>>::empty());
        Action::ProbeManager(Command::version_probe())
    }

    /// Begins a run of `profile`: looks at the system, which never holds
    /// the run up, and probes the package manager.
    pub fn run(&mut self, setup_type: SetupType) -> (action: Action)
        ensures
            final(self)@ == begun(old(self)@, setup_type, final(self)@.system),
            action@ == ActionView::ProbeManager(version_probe_command()),
    {
        let system = detect_system();
        self.begin(setup_type, system)
    }

    fn dispatch(&mut self, tools: Vec<String>, then: usize) -> (action: Action)
        ensures
            (final(self)@, action@) == dispatch(old(self)@, tools.deep_view(), then),
    {
        self.phase = Phase::Installing { then, size: tools.len() };
        Action::RunBatch(tools)
    }

    fn ask_stage(&mut self, position: usize) -> (action: Action)
        ensures
            (final(self)@, action@) == ask_stage(old(self)@, position),
    {
        match self.config.stage(position) {
            Some(stage) => {
                self.phase = Phase::CustomizingStage(position);
                Action::AskCustomize(stage.name)
            },
            None => {
                self.phase = Phase::Done;
                Action::Finish
            },
        }
    }

    fn enter_profile(&mut self, profile: SetupType) -> (action: Action)
        ensures
            (final(self)@, action@) == enter_profile(old(self)@, profile),
    {
        match profile {
            SetupType::Basic => {
                let tools = copy_tools(self.config.basic.as_slice());
                self.dispatch(tools, STAGE_COUNT)
            },
            SetupType::Full => self.ask_stage(0),
            SetupType::Customized => {
                self.phase = Phase::CollectingTools;
                self.entered = Vec::new();
                assert(self.entered.deep_view() =~= Seq::<Seq<char>>::empty());
                Action::AskToolName
            },
        }
    }

    /// Enters the basic profile at once: its whole list is submitted as
    /// one batch.
    pub fn run_basic_setup(&mut self) -> (action: Action)
        ensures
            (final(self)@, action@) == enter_profile(old(self)@, SetupType::Basic),
    {
        self.enter_profile(SetupType::Basic)
    }

    /// Enters the full profile at once: the user is asked about its first
    /// stage.
    pub fn run_full_setup(&mut self) -> (action: Action)
        ensures
            (final(self)@, action@) == enter_profile(old(self)@, SetupType::Full),
    {
        self.enter_profile(SetupType::Full)
    }

    /// Enters the customized profile at once: the user is asked for the
    /// first tool name.
    pub fn run_customized_setup(&mut self) -> (action: Action)
        ensures
            (final(self)@, action@) == enter_profile(old(self)@, SetupType::Customized),
    {
        self.enter_profile(SetupType::Customized)
    }

    /// Takes what the caller reports and says what is due next. An event
    /// that the service does not wait for, a selection outside the stage
    /// and a report of the wrong size are refused and change nothing.
    pub fn step(&mut self, event: Event) -> (result: Result<Action, Rejected>)
        ensures
            match result {
                Ok(action) => transition(old(self)@, event@) == Ok::<
                    (SetupView, ActionView),
                    Rejected,
                >((final(self)@, action@)),
                Err(reason) => transition(old(self)@, event@) == Err::<
                    (SetupView, ActionView),
                    Rejected,
                >(reason) && final(self)@ == old(self)@,
            },
    {
        match (self.phase, event) {
            (Phase::ProbingManager(profile), Event::ManagerProbed(answer)) => {
                match answer {
                    Ok(true) => Ok(self.enter_profile(profile)),
                    _ => {
                        self.phase = Phase::Bootstrapping(profile);
                        Ok(Action::BootstrapManager(Command::bootstrap()))
                    },
                }
            },
            (Phase::Bootstrapping(profile), Event::BootstrapFinished(result)) => {
                let failure = match result {
                    Ok(report) => if report.success {
                        None
                    } else {
                        Some("Failed to install Homebrew.".to_owned())
                    },
                    Err(error) => Some(error.message),
                };
                match failure {
                    None => Ok(self.enter_profile(profile)),
                    Some(reason) => {
                        self.phase = Phase::Aborted;
                        Ok(Action::Abort(FatalError::BootstrapFailed(reason)))
                    },
                }
            },
            (Phase::CustomizingStage(position), Event::CustomizeAnswered(customize)) => {
                match self.config.stage(position) {
                    None => Err(Rejected::UnexpectedEvent),
                    Some(stage) => {
                        if customize {
                            self.phase = Phase::SelectingTools(position);
                            Ok(Action::AskSelection(stage))
                        } else {
                            Ok(self.dispatch(stage.tools, position + 1))
                        }
                    },
                }
            },
            (Phase::SelectingTools(position), Event::SelectionMade(choice)) => {
                match self.config.stage(position) {
                    None => Err(Rejected::UnexpectedEvent),
                    Some(stage) => match StageRunner::plan(&stage, true, choice) {
                        Ok(StagePlan::Dispatch(tools)) => Ok(self.dispatch(tools, position + 1)),
                        Ok(StagePlan::Cancelled) => {
                            let ghost before = self.reports.deep_view();
                            self.reports.push(BatchReport::empty());
                            assert(self.reports.deep_view() =~= before.push(
                                Seq::<OutcomeView>::empty(),
                            ));
                            Ok(self.ask_stage(position + 1))
                        },
                        Err(_) => Err(Rejected::InvalidSelection),
                    },
                }
            },
            (Phase::CollectingTools, Event::ToolEntered(name)) => {
                if name.as_str().is_empty() {
                    self.config.update_customized(self.entered.as_slice());
                    self.phase = Phase::SavingConfig;
                    Ok(Action::SaveConfig)
                } else {
                    let ghost before = self.entered.deep_view();
                    self.entered.push(name);
                    assert(self.entered.deep_view() =~= before.push(name@));
                    Ok(Action::AskToolName)
                }
            },
            (Phase::SavingConfig, Event::ConfigSaved(_)) => {
                let tools = copy_tools(self.config.customized.as_slice());
                Ok(self.dispatch(tools, STAGE_COUNT))
            },
            (Phase::Installing { then, size }, Event::BatchFinished(report)) => {
                if report.len() == size {
                    let ghost before = self.reports.deep_view();
                    self.reports.push(report);
                    assert(self.reports.deep_view() =~= before.push(report@));
                    Ok(self.ask_stage(then))
                } else {
                    Err(Rejected::WrongReportSize)
                }
            },
            _ => Err(Rejected::UnexpectedEvent),
        }
    }
}

/// A run that has not begun, is over or was given up takes no event. In
/// particular nothing is submitted once a run was given up.
pub proof fn lemma_ended_run_takes_nothing(state: SetupView, event: EventView)
    requires
        state.phase == Phase::Idle || state.phase == Phase::Done || state.phase == Phase::Aborted,
    ensures
        transition(state, event) == Err::<(SetupView, ActionView), Rejected>(
            Rejected::UnexpectedEvent,
        ),
{
}

/// A package manager that answers its probe is not installed again: the
/// run enters its profile at once.
pub proof fn lemma_present_manager_is_kept(state: SetupView, profile: SetupType)
    requires
        state.phase == Phase::ProbingManager(profile),
    ensures
        transition(state, EventView::ManagerProbed(Ok(true))) == Ok::<
            (SetupView, ActionView),
            Rejected,
        >(enter_profile(state, profile)),
        !(enter_profile(state, profile).1 is BootstrapManager),
{
}

/// A package manager that does not answer its probe with success, or
/// cannot be asked, is installed before anything else happens.
pub proof fn lemma_missing_manager_is_installed(
    state: SetupView,
    profile: SetupType,
    answer: Result<bool, ProbeError>,
)
    requires
        state.phase == Phase::ProbingManager(profile),
        answer != Ok::<bool, ProbeError>(true),
    ensures
        transition(state, EventView::ManagerProbed(answer)) matches Ok((next, action)) && next.phase
            == Phase::Bootstrapping(profile) && action == ActionView::BootstrapManager(
            bootstrap_command(),
        ),
{
}

/// Failing to install the package manager is fatal: the run is given up
/// with the reason, and whatever is reported afterwards is refused, so no
/// stage ever runs.
pub proof fn lemma_bootstrap_failure_is_fatal(
    state: SetupView,
    profile: SetupType,
    result: CommandResultView,
    later: EventView,
)
    requires
        state.phase == Phase::Bootstrapping(profile),
        bootstrap_failure(result) is Some,
    ensures
        transition(state, EventView::BootstrapFinished(result)) matches Ok((next, action)) && {
            &&& next.phase == Phase::Aborted
            &&& action == ActionView::Abort(
                FatalErrorView::BootstrapFailed(bootstrap_failure(result)->0),
            )
            &&& transition(next, later) is Err
        },
{
}

/// What the tools of a batch met with does not steer the run. Two reports
/// of the same size are taken or refused alike, and after either the run
/// stands in the same phase with the same thing due, which is never to
/// give up: a failed install neither ends the run nor skips a later stage.
pub proof fn lemma_outcomes_do_not_steer(
    state: SetupView,
    first: Seq<OutcomeView>,
    second: Seq<OutcomeView>,
)
    requires
        state.phase is Installing,
        first.len() == second.len(),
    ensures
        transition(state, EventView::BatchFinished(first)) is Ok <==> transition(
            state,
            EventView::BatchFinished(second),
        ) is Ok,
        transition(state, EventView::BatchFinished(first)) matches Ok((next, action)) ==> {
            &&& transition(state, EventView::BatchFinished(second))->Ok_0.0.phase == next.phase
            &&& transition(state, EventView::BatchFinished(second))->Ok_0.1 == action
            &&& !(action is Abort)
            &&& next.reports == state.reports.push(first)
        },
{
}

/// A cancelled selection runs nothing: no batch is submitted for the
/// stage, its report is the empty one, and the run turns to the next
/// stage.
pub proof fn lemma_cancelled_stage_runs_nothing(state: SetupView, position: usize)
    requires
        state.phase == Phase::SelectingTools(position),
        position < STAGE_COUNT,
    ensures
        transition(state, EventView::SelectionMade(None)) == Ok::<
            (SetupView, ActionView),
            Rejected,
        >(ask_stage(with_report(state, Seq::empty()), (position + 1) as usize)),
        transition(state, EventView::SelectionMade(None)) matches Ok((next, action)) && {
            &&& !(action is RunBatch)
            &&& !(next.phase is Installing)
            &&& next.reports == state.reports.push(Seq::empty())
        },
{
}

/// A catalogue that could not be stored does not keep the collected
/// tools from being installed.
pub proof fn lemma_failed_save_still_installs(state: SetupView)
    requires
        state.phase == Phase::SavingConfig,
    ensures
        transition(state, EventView::ConfigSaved(false)) == transition(
            state,
            EventView::ConfigSaved(true),
        ),
        transition(state, EventView::ConfigSaved(false)) == Ok::<
            (SetupView, ActionView),
            Rejected,
        >(dispatch(state, state.config.customized, STAGE_COUNT)),
{
}

/// The empty line ends a customized list: the names entered before it,
/// in their order, become the customized list of the catalogue, which is
/// stored before anything is installed.
pub proof fn lemma_empty_line_ends_the_list(state: SetupView)
    requires
        state.phase == Phase::CollectingTools,
    ensures
        transition(state, EventView::ToolEntered(Seq::empty())) matches Ok((next, action)) && {
            &&& action == ActionView::SaveConfig
            &&& next.phase == Phase::SavingConfig
            &&& next.config.customized == state.entered
            &&& transition(next, EventView::ConfigSaved(true)) matches Ok((last, run)) && run
                == ActionView::RunBatch(state.entered)
        },
{
}

/// The basic profile from its beginning to its end: with the package
/// manager in place the whole basic list is submitted as one batch without
/// any question, and the report of that batch ends the run as its only
/// report.
pub proof fn lemma_basic_profile_runs_one_batch(
    state: SetupView,
    system: Option<SystemInfoView>,
    report: Seq<OutcomeView>,
)
    requires
        state.config.basic.len() <= usize::MAX,
        report.len() == state.config.basic.len(),
    ensures
        ({
            let start = begun(state, SetupType::Basic, system);
            &&& transition(start, EventView::ManagerProbed(Ok(true))) matches Ok((running, first))
                && {
                &&& first == ActionView::RunBatch(state.config.basic)
                &&& transition(running, EventView::BatchFinished(report)) matches Ok((end, last))
                    && {
                    &&& last == ActionView::Finish
                    &&& end.phase == Phase::Done
                    &&& end.reports == seq![report]
                    &&& end.config == state.config
                }
            }
        }),
{
    let start = begun(state, SetupType::Basic, system);
    let (running, first) = transition(start, EventView::ManagerProbed(Ok(true)))->Ok_0;
    let (end, last) = transition(running, EventView::BatchFinished(report))->Ok_0;
    assert(end.reports =~= seq![report]);
}

/// The full profile takes its stages in their order. A stage that the
/// user does not want to narrow is submitted whole; once its report is in,
/// the user is asked about the stage behind it, and behind the last stage
/// the run is over.
pub proof fn lemma_stage_follows_stage(state: SetupView, position: usize, report: Seq<OutcomeView>)
    requires
        state.phase == Phase::CustomizingStage(position),
        position < STAGE_COUNT,
        full_stage(state.config, position as int).tools.len() <= usize::MAX,
        report.len() == full_stage(state.config, position as int).tools.len(),
    ensures
        transition(state, EventView::CustomizeAnswered(false)) matches Ok((running, first)) && {
            &&& first == ActionView::RunBatch(full_stage(state.config, position as int).tools)
            &&& transition(running, EventView::BatchFinished(report)) matches Ok((next, second))
                && {
                &&& next.reports == state.reports.push(report)
                &&& position + 1 < STAGE_COUNT ==> next.phase == Phase::CustomizingStage(
                    (position + 1) as usize,
                ) && second == ActionView::AskCustomize(
                    full_stage(state.config, position + 1).name,
                )
                &&& position + 1 == STAGE_COUNT ==> next.phase == Phase::Done && second
                    == ActionView::Finish
            }
        },
{
}

/// No step touches the basic list or the stages of the catalogue, and no
/// step drops a report.
pub proof fn lemma_step_keeps_what_is_there(state: SetupView, event: EventView)
    ensures
        transition(state, event) matches Ok((next, action)) ==> {
            &&& next.config.basic == state.config.basic
            &&& next.config.full == state.config.full
            &&& next.system == state.system
            &&& state.reports.len() <= next.reports.len()
            &&& forall|i: int| 0 <= i < state.reports.len() ==> next.reports[i] == state.reports[i]
        },
{
}

} // verus!
