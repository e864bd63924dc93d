use dockyard::container::{
    checkout_of, image_for, Checkout, get_verbosity_arg, handle_container_output, helper_command, helper_container, helper_labels,
    log_levels, output_level, output_lines, run_dockyard_command, set_command_verbosity, Action,
    CommandSettings, ContainerStatus, Event, Inspection, LogLevel, Phase, Runner,
    DOCKYARD_COMMAND_LABEL, PID_LABEL,
};
use dockyard::error::Error;
use dockyard::mount::get_backup_directory_mount;

fn settings(verbosity: u8) -> CommandSettings {
    let mut settings = CommandSettings::new();
    set_command_verbosity(&mut settings, verbosity);
    settings
}

fn strings(items: &[&str]) -> Vec<String> {
    items.iter().map(|s| s.to_string()).collect()
}

#[test]
fn verbosity_arg_has_one_v_per_level() {
    assert_eq!(get_verbosity_arg(&CommandSettings::new()), "");
    assert_eq!(get_verbosity_arg(&settings(0)), "");
    assert_eq!(get_verbosity_arg(&settings(1)), "-v");
    assert_eq!(get_verbosity_arg(&settings(3)), "-vvv");
    assert_eq!(get_verbosity_arg(&settings(255)).len(), 256);
}

#[test]
fn helper_command_begins_with_the_executable() {
    assert_eq!(
        helper_command(&settings(0), strings(&["backup", "directory", "/input", "/backup/x"])),
        strings(&["dockyard", "backup", "directory", "/input", "/backup/x"])
    );
    assert_eq!(
        helper_command(&settings(2), strings(&["cat", "-f", "/backup/x"])),
        strings(&["dockyard", "cat", "-f", "/backup/x", "-vv"])
    );
    assert_eq!(helper_command(&settings(0), Vec::new()), strings(&["dockyard"]));
}

#[test]
fn helper_labels_name_the_owner_and_disable_backups() {
    let labels = helper_labels(4242);
    assert_eq!(labels.len(), 2);
    assert_eq!(labels[0].key, "com.github.aig787.dockyard.pid");
    assert_eq!(labels[0].key, PID_LABEL);
    assert_eq!(labels[0].value, "4242");
    assert_eq!(labels[1].key, "com.github.aig787.dockyard.disabled");
    assert_eq!(labels[1].value, "true");
    assert_eq!(DOCKYARD_COMMAND_LABEL, "com.github.aig787.dockyard.command");
}

#[test]
fn helper_container_is_named_by_its_unique_part() {
    let mount = get_backup_directory_mount("/tmp/out".to_string());
    let invocation = helper_container(
        &settings(1),
        vec![mount.clone()],
        strings(&["cat", "-f", "/backup/x"]),
        "dockyard:1.0".to_string(),
        17,
        "abc",
    );
    assert_eq!(invocation.name, "dockyard_abc");
    assert_eq!(invocation.image, "dockyard:1.0");
    assert_eq!(invocation.command, strings(&["dockyard", "cat", "-f", "/backup/x", "-v"]));
    assert_eq!(invocation.labels, helper_labels(17));
    assert_eq!(invocation.mounts, vec![mount]);
}

#[test]
fn run_dockyard_command_names_each_helper_anew() {
    let first = run_dockyard_command(&settings(0), Vec::new(), strings(&["cat"]), "i".to_string(), 1);
    let second = run_dockyard_command(&settings(0), Vec::new(), strings(&["cat"]), "i".to_string(), 1);
    assert!(first.name.starts_with("dockyard_"));
    assert!(second.name.starts_with("dockyard_"));
    assert_eq!(first.name.len(), "dockyard_".len() + 36);
    assert_ne!(first.name, second.name);
    assert_eq!(first.command, strings(&["dockyard", "cat"]));
    assert_eq!(first.labels, helper_labels(1));
}

fn exited(code: i64) -> Inspection {
    Inspection { status: Some(ContainerStatus::Exited), exit_code: Some(code) }
}

#[test]
fn runner_goes_through_every_step() {
    let mut runner = Runner::new();
    assert_eq!(runner.phase(), Phase::Ready);
    assert_eq!(runner.step(Event::Start), Action::EnsureImage);
    assert_eq!(runner.step(Event::Done), Action::Create);
    assert_eq!(runner.step(Event::Done), Action::Start);
    assert_eq!(runner.step(Event::Done), Action::Wait);
    assert_eq!(runner.step(Event::Done), Action::Inspect);
    assert_eq!(runner.step(Event::Inspected(exited(3))), Action::FetchLogs);
    assert_eq!(runner.exit_code(), 3);
    assert_eq!(runner.step(Event::Logs(strings(&["a", "b"]))), Action::Remove);
    assert_eq!(runner.phase(), Phase::Removing);
    assert_eq!(runner.step(Event::Done), Action::Return);
    assert_eq!(runner.phase(), Phase::Finished);
    assert_eq!(runner.exit_code(), 3);
    assert_eq!(runner.lines(), &strings(&["a", "b"]));
}

fn inspected_runner() -> Runner {
    let mut runner = Runner::new();
    runner.step(Event::Start);
    runner.step(Event::Done);
    runner.step(Event::Done);
    runner.step(Event::Done);
    assert_eq!(runner.step(Event::Done), Action::Inspect);
    runner
}

#[test]
fn runner_skips_the_logs_of_a_dead_container() {
    for status in [ContainerStatus::Dead, ContainerStatus::Removing] {
        let mut runner = inspected_runner();
        let inspection = Inspection { status: Some(status), exit_code: Some(9) };
        assert_eq!(runner.step(Event::Inspected(inspection)), Action::Remove);
        assert_eq!(runner.step(Event::Done), Action::Return);
        assert_eq!(runner.exit_code(), 9);
        assert!(runner.lines().is_empty());
    }
}

#[test]
fn runner_takes_a_missing_exit_code_as_zero() {
    let mut runner = inspected_runner();
    let inspection = Inspection { status: None, exit_code: None };
    assert_eq!(runner.step(Event::Inspected(inspection)), Action::FetchLogs);
    assert_eq!(runner.exit_code(), 0);
}

#[test]
fn runner_removes_the_container_when_the_logs_fail() {
    let mut runner = inspected_runner();
    assert_eq!(runner.step(Event::Inspected(exited(0))), Action::FetchLogs);
    assert_eq!(runner.step(Event::Failed), Action::Remove);
    assert!(runner.lines().is_empty());
    assert_eq!(runner.step(Event::Done), Action::Return);
}

#[test]
fn runner_fails_when_the_removal_fails() {
    let mut runner = inspected_runner();
    runner.step(Event::Inspected(exited(0)));
    assert_eq!(runner.step(Event::Logs(Vec::new())), Action::Remove);
    assert_eq!(runner.step(Event::Failed), Action::Fail);
    assert_eq!(runner.phase(), Phase::Failed);
    assert_eq!(runner.step(Event::Done), Action::Fail);
}

#[test]
fn runner_fails_when_the_daemon_fails() {
    let mut runner = Runner::new();
    assert_eq!(runner.step(Event::Start), Action::EnsureImage);
    assert_eq!(runner.step(Event::Failed), Action::Fail);
    let mut runner = Runner::new();
    runner.step(Event::Start);
    assert_eq!(runner.step(Event::Done), Action::Create);
    assert_eq!(runner.step(Event::Failed), Action::Fail);
    let mut runner = Runner::new();
    assert_eq!(runner.step(Event::Done), Action::Fail);
}

fn created_runner() -> Runner {
    let mut runner = Runner::new();
    runner.step(Event::Start);
    runner.step(Event::Done);
    assert_eq!(runner.step(Event::Done), Action::Start);
    runner
}

#[test]
fn runner_removes_the_container_when_it_cannot_be_started() {
    let mut runner = created_runner();
    assert_eq!(runner.phase(), Phase::Starting);
    assert_eq!(runner.step(Event::Failed), Action::Remove);
    assert_eq!(runner.phase(), Phase::Discarding);
    assert_eq!(runner.step(Event::Done), Action::Fail);
    assert_eq!(runner.phase(), Phase::Failed);
}

#[test]
fn runner_removes_the_container_when_it_cannot_be_awaited() {
    let mut runner = created_runner();
    assert_eq!(runner.step(Event::Done), Action::Wait);
    assert_eq!(runner.step(Event::Failed), Action::Remove);
    assert_eq!(runner.step(Event::Done), Action::Fail);
}

#[test]
fn runner_removes_the_container_when_it_cannot_be_inspected() {
    let mut runner = inspected_runner();
    assert_eq!(runner.step(Event::Failed), Action::Remove);
    assert_eq!(runner.phase(), Phase::Discarding);
    // The run fails whether or not the removal succeeds.
    assert_eq!(runner.step(Event::Failed), Action::Fail);
    assert_eq!(runner.phase(), Phase::Failed);
}

#[test]
fn runner_removes_the_container_on_an_answer_out_of_turn() {
    let mut runner = inspected_runner();
    assert_eq!(runner.step(Event::Logs(Vec::new())), Action::Remove);
    assert_eq!(runner.step(Event::Done), Action::Fail);
    let mut runner = created_runner();
    assert_eq!(runner.step(Event::Start), Action::Remove);
    assert_eq!(runner.step(Event::Done), Action::Fail);
    let mut runner = inspected_runner();
    assert_eq!(runner.step(Event::Inspected(exited(0))), Action::FetchLogs);
    assert_eq!(runner.step(Event::Done), Action::Remove);
    assert_eq!(runner.step(Event::Done), Action::Fail);
}

#[test]
fn runner_stays_failed_once_it_has_ended() {
    let mut runner = inspected_runner();
    runner.step(Event::Inspected(exited(0)));
    runner.step(Event::Logs(Vec::new()));
    assert_eq!(runner.step(Event::Done), Action::Return);
    assert_eq!(runner.step(Event::Done), Action::Fail);
    assert_eq!(runner.step(Event::Start), Action::Fail);
}

#[test]
fn exit_code_zero_is_success() {
    assert_eq!(handle_container_output(0), Ok(()));
    assert_eq!(handle_container_output(1), Err(Error::NonZeroExit(1)));
    assert_eq!(handle_container_output(-7), Err(Error::NonZeroExit(-7)));
    assert_eq!(output_level(0), LogLevel::Debug);
    assert_eq!(output_level(2), LogLevel::Error);
}

#[test]
fn log_lines_are_trimmed_behind_the_prefix() {
    let lines = output_lines("backup volume data", &strings(&["  first \n", "second", ""]));
    assert_eq!(
        lines,
        strings(&["[backup volume data] first", "[backup volume data] second", "[backup volume data] "])
    );
    assert!(output_lines("p", &Vec::new()).is_empty());
}

#[test]
fn log_levels_follow_the_verbosity() {
    assert_eq!(log_levels(0), (LogLevel::Warn, LogLevel::Info));
    assert_eq!(log_levels(1), (LogLevel::Warn, LogLevel::Debug));
    assert_eq!(log_levels(2), (LogLevel::Info, LogLevel::Trace));
    assert_eq!(log_levels(3), (LogLevel::Debug, LogLevel::Trace));
    assert_eq!(log_levels(40), (LogLevel::Debug, LogLevel::Trace));
}

#[test]
fn checkout_is_read_from_two_lines() {
    assert_eq!(
        checkout_of("0123abc\n/home/me/dockyard\n"),
        Some(Checkout { revision: "0123abc".to_string(), root: "/home/me/dockyard".to_string() })
    );
    assert_eq!(
        checkout_of("rev\nroot"),
        Some(Checkout { revision: "rev".to_string(), root: "root".to_string() })
    );
    assert_eq!(
        checkout_of("\n"),
        Some(Checkout { revision: String::new(), root: String::new() })
    );
    assert_eq!(checkout_of("only one line"), None);
    assert_eq!(checkout_of(""), None);
    assert_eq!(image_for("0123abc"), "dockyard:0123abc");
}
