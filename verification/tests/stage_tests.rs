use dev_quick_setup::batch::{BatchError, Completion};
use dev_quick_setup::init::{link_outcome, link_step, link_target, InitError, LinkStep};
use dev_quick_setup::command::{SystemError, SystemErrorKind};
use dev_quick_setup::outcome::InstallOutcome;
use dev_quick_setup::stage::{
    customize_prompt_text, selection_prompt_text, InvalidSelection, SelectionSet, Stage,
    StagePlan, StageRunner,
};
use dev_quick_setup::system::{detect_system, SystemInfo};

fn names(list: &[&str]) -> Vec<String> {
    list.iter().map(|s| s.to_string()).collect()
}

fn languages() -> Stage {
    Stage { name: "Languages".to_string(), tools: names(&["rust", "python", "go"]) }
}

fn chosen(indices: &[usize]) -> Option<SelectionSet> {
    Some(SelectionSet::from_indices(indices.to_vec()))
}

#[test]
fn full_selection_lists_every_position() {
    assert_eq!(SelectionSet::full(4).indices, vec![0, 1, 2, 3]);
    assert!(SelectionSet::full(0).indices.is_empty());
    assert_eq!(SelectionSet::full(4).len(), 4);
}

#[test]
fn selection_keeps_the_positions_it_was_given() {
    let selection = SelectionSet::from_indices(vec![2, 0, 2]);
    assert_eq!(selection.indices, vec![2, 0, 2]);
    assert_eq!(selection.len(), 3);
}

#[test]
fn selection_fits_a_list_that_has_all_its_positions() {
    let selection = SelectionSet::from_indices(vec![2, 0]);
    assert!(selection.fits(3));
    assert!(!selection.fits(2));
    assert!(!selection.fits(0));
    assert!(SelectionSet::from_indices(vec![]).fits(0));
    assert!(SelectionSet::full(5).fits(5));
    assert!(!SelectionSet::full(5).fits(4));
}

#[test]
fn stage_picks_tools_in_the_order_of_the_selection() {
    let stage = languages();
    assert_eq!(
        stage.select(&SelectionSet::from_indices(vec![2, 0])),
        Some(names(&["go", "rust"]))
    );
    assert_eq!(stage.select(&SelectionSet::full(3)), Some(names(&["rust", "python", "go"])));
    assert_eq!(stage.select(&SelectionSet::from_indices(vec![])), Some(vec![]));
    assert_eq!(stage.select(&SelectionSet::from_indices(vec![1, 1])), Some(names(&["python", "python"])));
    assert_eq!(stage.select(&SelectionSet::from_indices(vec![0, 3])), None);
}

#[test]
fn stage_without_customizing_submits_everything() {
    let plan = StageRunner::plan(&languages(), false, None);
    assert_eq!(plan, Ok(StagePlan::Dispatch(names(&["rust", "python", "go"]))));
}

#[test]
fn stage_without_customizing_does_not_look_at_a_choice() {
    let plan = StageRunner::plan(&languages(), false, chosen(&[1]));
    assert_eq!(plan, Ok(StagePlan::Dispatch(names(&["rust", "python", "go"]))));
    let odd = StageRunner::plan(&languages(), false, chosen(&[9]));
    assert_eq!(odd, Ok(StagePlan::Dispatch(names(&["rust", "python", "go"]))));
}

#[test]
fn customized_stage_submits_the_chosen_tools() {
    let plan = StageRunner::plan(&languages(), true, chosen(&[0]));
    assert_eq!(plan, Ok(StagePlan::Dispatch(names(&["rust"]))));
    let all = StageRunner::plan(&languages(), true, chosen(&[0, 1, 2]));
    assert_eq!(all, Ok(StagePlan::Dispatch(names(&["rust", "python", "go"]))));
    let none = StageRunner::plan(&languages(), true, chosen(&[]));
    assert_eq!(none, Ok(StagePlan::Dispatch(vec![])));
}

#[test]
fn cancelled_selection_cancels_the_stage() {
    let plan = StageRunner::plan(&languages(), true, None);
    assert_eq!(plan, Ok(StagePlan::Cancelled));
}

#[test]
fn selection_outside_the_stage_is_refused() {
    let plan = StageRunner::plan(&languages(), true, chosen(&[0, 3]));
    assert_eq!(plan, Err(InvalidSelection));
}

#[test]
fn cancelled_stage_reports_nothing_and_runs_nothing() {
    let report = StageRunner::run_stage(StagePlan::Cancelled, &[]).unwrap();
    assert!(report.is_empty());
    assert_eq!(report.failed(), 0);
    let stray = [Completion { index: 0, outcome: InstallOutcome::InstalledOk }];
    assert_eq!(StageRunner::run_stage(StagePlan::Cancelled, &stray), Err(BatchError::OutOfRange));
}

#[test]
fn planned_stage_reports_one_outcome_per_chosen_tool() {
    let plan = StageRunner::plan(&languages(), true, chosen(&[2, 0])).unwrap();
    let completions = [
        Completion { index: 1, outcome: InstallOutcome::AlreadyPresent },
        Completion { index: 0, outcome: InstallOutcome::InstalledOk },
    ];
    let report = StageRunner::run_stage(plan, &completions).unwrap();
    assert_eq!(
        report.outcomes(),
        &vec![InstallOutcome::InstalledOk, InstallOutcome::AlreadyPresent]
    );
}

#[test]
fn prompts_name_the_stage() {
    assert_eq!(
        customize_prompt_text("Languages"),
        "Do you want to customize the tools in this stage for Languages?"
    );
    assert_eq!(selection_prompt_text("Text Editors"), "Select the tools to install for Text Editors");
}

#[test]
fn system_is_known_only_with_kind_and_release() {
    let known = SystemInfo::from_answers(Some("Darwin".to_string()), Some("23.1.0".to_string()));
    assert_eq!(
        known,
        Some(SystemInfo { os_type: "Darwin".to_string(), os_release: "23.1.0".to_string() })
    );
    assert_eq!(SystemInfo::from_answers(None, Some("23.1.0".to_string())), None);
    assert_eq!(SystemInfo::from_answers(Some("Darwin".to_string()), None), None);
    assert_eq!(SystemInfo::from_answers(None, None), None);
}

#[test]
fn system_line_shows_kind_and_release() {
    let info = SystemInfo { os_type: "Linux".to_string(), os_release: "6.1.0".to_string() };
    assert_eq!(info.line(), "OS Type: Linux, OS Release: 6.1.0");
}

#[test]
fn looking_at_the_system_never_fails() {
    match detect_system() {
        Some(info) => {
            assert_eq!(
                info.line(),
                format!("OS Type: {}, OS Release: {}", info.os_type, info.os_release)
            );
        }
        None => {}
    }
}

#[test]
fn tool_is_linked_on_supported_architectures() {
    assert_eq!(link_target("x86_64"), Ok("/usr/local/bin/devsetup".to_string()));
    assert_eq!(link_target("aarch64"), Ok("/usr/local/bin/devsetup".to_string()));
}

#[test]
fn other_architectures_are_not_supported() {
    assert_eq!(link_target("riscv64"), Err(InitError::UnsupportedArchitecture));
    assert_eq!(link_target(""), Err(InitError::UnsupportedArchitecture));
    assert_eq!(link_target("X86_64"), Err(InitError::UnsupportedArchitecture));
    assert_eq!(link_target("x86_64 "), Err(InitError::UnsupportedArchitecture));
}

#[test]
fn taken_place_means_installed() {
    assert_eq!(link_step(true), LinkStep::AlreadyInstalled);
    assert_eq!(link_step(false), LinkStep::CreateLink);
}

#[test]
fn failed_link_is_told_by_its_cause() {
    assert_eq!(link_outcome(Ok(())), Ok(()));
    let denied = SystemError { kind: SystemErrorKind::PermissionDenied, message: "denied".to_string() };
    assert_eq!(link_outcome(Err(denied)), Err(InitError::PermissionDenied));
    let missing = SystemError { kind: SystemErrorKind::NotFound, message: "No such file".to_string() };
    assert_eq!(link_outcome(Err(missing)), Err(InitError::LinkFailed("No such file".to_string())));
    let other = SystemError { kind: SystemErrorKind::Other, message: "File exists".to_string() };
    assert_eq!(link_outcome(Err(other)), Err(InitError::LinkFailed("File exists".to_string())));
}

#[test]
fn init_errors_have_their_messages() {
    assert_eq!(InitError::UnsupportedArchitecture.message(), "Unsupported architecture");
    assert_eq!(InitError::PermissionDenied.message(), "Permission denied. Rerun with sudo.");
    assert_eq!(InitError::LinkFailed("File exists".to_string()).message(), "File exists");
}
