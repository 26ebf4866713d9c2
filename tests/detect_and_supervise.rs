use node_bootstrap::config::{AccountStatus, AppConfig, HealthResult, NodeCheckResult, NodeConfig};
use node_bootstrap::detect::{detect_next, DetectAction, DetectFacts, InstallState};
use node_bootstrap::install::{install_result, install_source, npm_install_command, setup_result};
use node_bootstrap::progress::{
    done_event, download_progress_event, error_event, extracting_event, finish_event, started_event, Status, Step,
};
use node_bootstrap::supervisor::{
    agent_command, parse_pid, pid_record_text, stop_plan, taskkill_args, unix_kill_target,
};
use node_bootstrap::platform::Os;

struct Machine {
    marker: bool,
    path_cli_ok: bool,
    portable: bool,
    portable_cli_exists: bool,
    spawns: usize,
    marker_writes: usize,
}

impl Machine {
    fn fresh() -> Machine {
        Machine { marker: false, path_cli_ok: false, portable: false, portable_cli_exists: false, spawns: 0, marker_writes: 0 }
    }

    fn detect(&mut self) -> InstallState {
        let mut facts = DetectFacts::new();
        for _ in 0..10 {
            let a = detect_next(&facts);
            let answer = match a {
                DetectAction::CheckMarker => self.marker,
                DetectAction::ProbePathCli => {
                    self.spawns += 1;
                    self.path_cli_ok
                }
                DetectAction::ReadRuntimeConfig => self.portable,
                DetectAction::CheckPortableCli => self.portable_cli_exists,
                DetectAction::WriteMarker => {
                    self.marker_writes += 1;
                    self.marker = true;
                    true
                }
                DetectAction::Done(s) => return s,
            };
            facts.record(a, answer);
        }
        panic!("detection did not finish");
    }
}

#[test]
fn detect_with_marker_runs_no_process() {
    let mut m = Machine::fresh();
    m.marker = true;
    assert_eq!(m.detect(), InstallState::App);
    assert_eq!(m.spawns, 0);
    assert_eq!(m.marker_writes, 0);
}

#[test]
fn detect_on_path_writes_marker() {
    let mut m = Machine::fresh();
    m.path_cli_ok = true;
    assert_eq!(m.detect(), InstallState::App);
    assert_eq!(m.spawns, 1);
    assert_eq!(m.marker_writes, 1);
    assert_eq!(m.detect(), InstallState::App);
    assert_eq!(m.spawns, 1);
}

#[test]
fn detect_portable_without_cli_is_installer() {
    let mut m = Machine::fresh();
    m.portable = true;
    assert_eq!(m.detect(), InstallState::Installer);
    assert_eq!(m.marker_writes, 0);
}

#[test]
fn fresh_machine_then_provisioned() {
    let mut m = Machine::fresh();
    assert_eq!(m.detect(), InstallState::Installer);
    assert!(!m.marker);
    m.portable = true;
    m.portable_cli_exists = true;
    assert_eq!(m.detect(), InstallState::App);
    assert!(m.marker);
    let spawns = m.spawns;
    assert_eq!(m.detect(), InstallState::App);
    assert_eq!(m.spawns, spawns);
}

#[test]
fn install_state_names() {
    assert_eq!(InstallState::App.name(), "app");
    assert_eq!(InstallState::Installer.name(), "installer");
}

#[test]
fn stop_without_record() {
    let p = stop_plan(None);
    assert_eq!(p.signal_pid, None);
    assert!(p.remove_record);
}

#[test]
fn stop_with_non_numeric_record() {
    let p = stop_plan(Some("not-a-pid"));
    assert_eq!(p.signal_pid, None);
    assert!(p.remove_record);
    assert_eq!(stop_plan(Some("")).signal_pid, None);
    assert_eq!(stop_plan(Some("-5")).signal_pid, None);
    assert_eq!(stop_plan(Some("4294967296")).signal_pid, None);
}

#[test]
fn stop_with_pid_record() {
    let p = stop_plan(Some("4242\n"));
    assert_eq!(p.signal_pid, Some(4242));
    assert!(p.remove_record);
}

#[test]
fn pid_parsing() {
    assert_eq!(parse_pid(" 17 "), Some(17));
    assert_eq!(parse_pid("+17"), Some(17));
    assert_eq!(parse_pid("\u{3000}8\u{a0}"), Some(8));
    assert_eq!(parse_pid("4294967295"), Some(u32::MAX));
    assert_eq!(parse_pid("1 2"), None);
    assert_eq!(parse_pid("+"), None);
    assert_eq!(parse_pid("12a"), None);
}

#[test]
fn pid_record_round_trip() {
    for pid in [0u32, 7, 10, 4242, 1_000_000, u32::MAX] {
        let text = pid_record_text(pid);
        assert_eq!(text, pid.to_string());
        assert_eq!(parse_pid(&text), Some(pid));
    }
}

#[test]
fn kill_targets() {
    assert_eq!(unix_kill_target(0), 0);
    assert_eq!(unix_kill_target(1), 1);
    assert_eq!(unix_kill_target(i32::MAX as u32), i32::MAX);
    assert_eq!(unix_kill_target(2147483648), i32::MIN);
    assert_eq!(unix_kill_target(u32::MAX), -1);
    assert_eq!(taskkill_args(4242), vec!["/PID".to_string(), "4242".to_string(), "/F".to_string()]);
}

#[test]
fn start_and_setup_commands() {
    assert_eq!(agent_command(Os::Linux, "/c", false, false, "start"),
        ("remote-clauding".to_string(), vec!["start".to_string()]));
    assert_eq!(agent_command(Os::Windows, "C:\\c", true, false, "setup"),
        ("C:\\c\\node\\npx.cmd".to_string(), vec!["remote-clauding".to_string(), "setup".to_string()]));
}

#[test]
fn install_command_lines() {
    assert_eq!(npm_install_command(Os::Linux, "/c", false, "/pkg"),
        ("npm".to_string(), vec!["install".to_string(), "-g".to_string(), "/pkg".to_string()]));
    assert_eq!(npm_install_command(Os::Linux, "/c", true, "/pkg"),
        ("/c/node/bin/npm".to_string(),
         vec!["install".to_string(), "-g".to_string(), "/pkg".to_string(), "--prefix=/c/node".to_string()]));
    assert_eq!(npm_install_command(Os::Windows, "C:\\c", false, "D:\\pkg").1,
        vec!["/C", "npm", "install", "-g", "D:\\pkg"].iter().map(|s| s.to_string()).collect::<Vec<_>>());
}

#[test]
fn install_source_choice() {
    assert_eq!(install_source("/r/npm-package", true, Some("/repo")), "/r/npm-package");
    assert_eq!(install_source("/r/npm-package", false, Some("/repo")), "/repo");
    assert_eq!(install_source("/r/npm-package", false, None), "/r/npm-package");
}

#[test]
fn process_outcomes() {
    assert_eq!(install_result(true, "ok".to_string(), "warn"), Ok("ok".to_string()));
    assert_eq!(install_result(false, "out".to_string(), "boom"), Err("npm install failed: boom\nout".to_string()));
    assert_eq!(setup_result(true, "ok".to_string(), ""), Ok("ok".to_string()));
    assert_eq!(setup_result(false, "out".to_string(), "bad"), Err("bad\nout".to_string()));
}

#[test]
fn runtime_config_defaults() {
    let c = NodeConfig::from_stored(None);
    assert!(!c.portable);
    assert_eq!(c.node_path, "");
    let c = NodeConfig::from_stored(Some(NodeConfig::provisioned("X".to_string())));
    assert!(c.portable);
    assert_eq!(c.node_path, "X");
}

#[test]
fn node_check_results() {
    let r = NodeCheckResult::from_probes(Some("v20.1.0\n"), Some("v22.14.0\n"), "/c/node/bin/node");
    assert!(r.found && !r.portable);
    assert_eq!(r.version, "v20.1.0");
    assert_eq!(r.path, "node");
    let r = NodeCheckResult::from_probes(None, Some(" v22.14.0\n"), "/c/node/bin/node");
    assert!(r.found && r.portable);
    assert_eq!(r.version, "v22.14.0");
    assert_eq!(r.path, "/c/node/bin/node");
    let r = NodeCheckResult::from_probes(None, None, "/c/node/bin/node");
    assert!(!r.found && !r.portable);
    assert_eq!(r.version, "");
    assert_eq!(r.path, "");
}

#[test]
fn health_from_status() {
    assert!(HealthResult::from_status(Some(200)).running);
    assert!(HealthResult::from_status(Some(299)).running);
    assert!(!HealthResult::from_status(Some(300)).running);
    assert!(!HealthResult::from_status(Some(503)).running);
    assert!(!HealthResult::from_status(None).running);
}

#[test]
fn progress_events() {
    let e = started_event(Step::DownloadNode);
    assert_eq!(e.message, "Downloading Node.js...");
    assert_eq!((e.step.name(), e.status.name()), ("download_node", "started"));
    assert!(download_progress_event(5, 0).is_none());
    let e = download_progress_event(1, 3).unwrap();
    assert_eq!(e.percent, Some(33));
    assert_eq!(e.status, Status::Progress);
    assert_eq!(e.message, "Downloading Node.js... 33%");
    assert_eq!(extracting_event().message, "Extracting Node.js...");
    assert_eq!(done_event(Step::InstallNpm).message, "Remote Clauding installed.");
    let e = error_event(Step::Setup, "no code");
    assert_eq!(e.message, "VSCode extension install failed: no code");
    assert_eq!(e.status.name(), "error");
}

#[test]
fn session_token_gate() {
    let none = AppConfig { auth_token: None, email: None };
    assert_eq!(none.session_token(), Err("Not logged in".to_string()));
    let empty = AppConfig { auth_token: Some(String::new()), email: None };
    assert_eq!(empty.session_token(), Err("Not logged in".to_string()));
    let some = AppConfig { auth_token: Some("tok".to_string()), email: Some("a@b".to_string()) };
    assert_eq!(some.session_token(), Ok("tok".to_string()));
}

#[test]
fn account_status_defaults() {
    let a = AccountStatus::from_fields(None, None, None);
    assert_eq!((a.status.as_str(), a.email.as_str(), a.email_verified), ("unknown", "", false));
    let a = AccountStatus::from_fields(Some("active"), Some("a@b"), Some(true));
    assert_eq!((a.status.as_str(), a.email.as_str(), a.email_verified), ("active", "a@b", true));
}

#[test]
fn finish_events() {
    let e = finish_event(Step::InstallNpm, true, "warn");
    assert_eq!((e.status, e.message.as_str()), (Status::Done, "Remote Clauding installed."));
    let e = finish_event(Step::InstallNpm, false, "boom");
    assert_eq!((e.status, e.message.as_str()), (Status::Error, "npm install failed: boom"));
    let e = finish_event(Step::Setup, false, "x");
    assert_eq!(e.message, "VSCode extension install failed: x");
}

#[test]
fn stop_with_zero_record_still_signals() {
    let p = stop_plan(Some("0"));
    assert_eq!(p.signal_pid, Some(0));
    assert!(p.remove_record);
    assert_eq!(unix_kill_target(p.signal_pid.unwrap()), 0);
}
