use macos_log_manager::config::profile::{build_profile, subsystem_configs, LoggingProfile};
use macos_log_manager::config::subsystem::SubsystemConfig;
use macos_log_manager::manager::config_check::{CheckStage, ConfigCheck, Verdict};
use macos_log_manager::manager::log_manager::{Event, Outcome, Progress};
use macos_log_manager::utils::permissions::verify_root;
use macos_log_manager::utils::system::{
    apply_system_config, restart_logging_service, set_logging_parameters, verify_logging_config,
    verify_private_logs, verify_subsystem_config, write_profile, CommandSpec, Step,
};
use macos_log_manager::utils::text::{contains_bytes, without_blanks};
use macos_log_manager::{LogManager, LoggingError};

const GOOD_STATUS: &str = "System mode = INFO DEBUG STREAM_LIVE PRIVATE_DATA";
const GOOD_DUMP: &str = "{\n    \"Category-Default-Enabled\" = 1;\n    \"Enable-Logging\" = 1;\n    Level = Debug;\n    Private = 1;\n}";
const DUMP_WITHOUT_PRIVATE: &str = "{\n    \"Category-Default-Enabled\" = 1;\n    \"Enable-Logging\" = 1;\n    Level = Debug;\n}";
const GOOD_SAMPLE: &str = "[{\"eventMessage\" : \"scan of /Applications finished\"}]";

fn describe(c: &CommandSpec) -> String {
    let mut s = c.program.clone();
    for a in &c.args {
        s.push(' ');
        s.push_str(a);
    }
    s
}

fn step_text(s: &Step) -> String {
    match s {
        Step::WriteProfile(p) => format!("write {}", p),
        Step::Run(c) => describe(c),
        Step::Sleep(n) => format!("sleep {}", n),
    }
}

/// Answers each command as a healthy macOS would, with `dump` as the
/// subsystem's preference read-back.
fn answer(step: &str, dump: &str) -> Vec<u8> {
    if step == "log config --status" {
        GOOD_STATUS.as_bytes().to_vec()
    } else if step.starts_with("defaults read") {
        dump.as_bytes().to_vec()
    } else if step.starts_with("log show") {
        GOOD_SAMPLE.as_bytes().to_vec()
    } else {
        Vec::new()
    }
}

/// Drives an enable operation; `fail_at` makes the step with that text fail.
fn run_enable(
    euid: u32,
    names: Vec<String>,
    dump: &str,
    fail_at: Option<&str>,
) -> (Result<Outcome, LoggingError>, Vec<String>) {
    let manager = LogManager::new();
    let mut seen = Vec::new();
    let (mut session, first) = match manager.enable_private_logging(euid, &names) {
        Ok(started) => started,
        Err(e) => return (Err(e), seen),
    };
    let mut step = first;
    loop {
        let text = step_text(&step);
        seen.push(text.clone());
        let event = if fail_at == Some(text.as_str()) {
            if text.starts_with("write") {
                Event::Failed(LoggingError::IoError("read-only file system".to_string()))
            } else {
                Event::Failed(LoggingError::CommandError("not found".to_string()))
            }
        } else {
            Event::Succeeded(answer(&text, dump))
        };
        match session.advance(event) {
            Progress::Perform(next) => step = next,
            Progress::Complete(r) => return (r, seen),
        }
    }
}

/// Drives a verification; returns the verdict and the commands it ran.
fn run_verify(outputs: &dyn Fn(&str) -> Vec<u8>) -> (bool, Vec<String>) {
    let manager = LogManager::new();
    let (mut check, first) = manager.verify_config();
    let mut cmd = first;
    let mut seen = Vec::new();
    loop {
        let text = describe(&cmd);
        seen.push(text.clone());
        match check.feed(&outputs(&text)) {
            Verdict::Run(c) => cmd = c,
            Verdict::Done(b) => return (b, seen),
        }
    }
}

fn xprotect() -> Vec<String> {
    vec!["com.apple.XProtect".to_string()]
}

#[test]
fn test_enable_private_logging() {
    let (result, _) = run_enable(0, xprotect(), GOOD_DUMP, None);
    assert!(result.is_ok());
}

#[test]
fn test_verify_config() {
    let (ok, _) = run_verify(&|c| answer(c, GOOD_DUMP));
    assert!(ok);
}

#[test]
fn non_root_is_refused_before_any_step() {
    let (result, seen) = run_enable(501, xprotect(), GOOD_DUMP, None);
    assert!(matches!(result, Err(LoggingError::PermissionError(_))));
    assert!(seen.is_empty());
    match verify_root(501) {
        Err(LoggingError::PermissionError(m)) => assert_eq!(m, "Root privileges required"),
        _ => panic!("expected a permission error"),
    }
    assert!(verify_root(0).is_ok());
}

#[test]
fn healthy_system_enables_and_verifies() {
    let (result, seen) = run_enable(0, xprotect(), GOOD_DUMP, None);
    assert!(matches!(result, Ok(Outcome::Verified)));
    assert_eq!(seen[0], "write /Library/Preferences/Logging/private_logging.plist");
    assert_eq!(seen[1], "chmod 644 /Library/Preferences/Logging/private_logging.plist");
    assert_eq!(seen[2], "log config --mode level:debug");
    assert_eq!(seen[8], "log config --mode level:default");
    assert_eq!(seen[9], "killall logd");
    assert_eq!(seen[10], "sleep 2");
    assert_eq!(seen[12], "sleep 1");
    assert_eq!(seen[13], "sleep 2");
    assert_eq!(seen[14], "log config --status");
    assert_eq!(seen.len(), 18);
    let (ok, _) = run_verify(&|c| answer(c, GOOD_DUMP));
    assert!(ok);
}

#[test]
fn missing_private_setting_remediates_once() {
    let (result, seen) = run_enable(0, xprotect(), DUMP_WITHOUT_PRIVATE, None);
    assert!(matches!(result, Ok(Outcome::Unverified)));
    let private_writes = seen
        .iter()
        .filter(|s| s.contains("System.Private-Data"))
        .count();
    assert_eq!(private_writes, 2);
    let reads = seen.iter().filter(|s| s.starts_with("defaults read")).count();
    assert_eq!(reads, 2);
    let (ok, _) = run_verify(&|c| answer(c, DUMP_WITHOUT_PRIVATE));
    assert!(!ok);
}

#[test]
fn failed_profile_write_stops_everything() {
    let target = "write /Library/Preferences/Logging/private_logging.plist";
    let (result, seen) = run_enable(0, xprotect(), GOOD_DUMP, Some(target));
    assert!(matches!(result, Err(LoggingError::IoError(_))));
    assert_eq!(seen.len(), 1);
}

#[test]
fn failed_launch_during_verification_is_an_error() {
    let (result, seen) = run_enable(0, xprotect(), GOOD_DUMP, Some("log config --status"));
    assert!(matches!(result, Err(LoggingError::CommandError(_))));
    assert_eq!(seen.last().unwrap(), "log config --status");
}

#[test]
fn first_stage_failure_runs_nothing_more() {
    let (ok, seen) = run_verify(&|c| {
        if c == "log config --status" {
            b"System mode = INFO".to_vec()
        } else {
            answer(c, GOOD_DUMP)
        }
    });
    assert!(!ok);
    assert_eq!(seen, vec!["log config --status".to_string()]);
}

#[test]
fn verdict_over_all_stage_combinations() {
    for mask in 0..8u32 {
        let status_ok = mask & 1 != 0;
        let settings_ok = mask & 2 != 0;
        let sample_ok = mask & 4 != 0;
        let (ok, _) = run_verify(&|c| {
            if c == "log config --status" {
                if status_ok { GOOD_STATUS.as_bytes().to_vec() } else { b"INFO".to_vec() }
            } else if c.starts_with("defaults read") {
                if settings_ok { GOOD_DUMP } else { DUMP_WITHOUT_PRIVATE }.as_bytes().to_vec()
            } else if sample_ok {
                GOOD_SAMPLE.as_bytes().to_vec()
            } else {
                b"{\"eventMessage\" : \"<private>\"}".to_vec()
            }
        });
        assert_eq!(ok, mask == 7, "mask {}", mask);
    }
}

#[test]
fn profile_entries_follow_names() {
    let names = vec!["a".to_string(), "b".to_string(), "a".to_string()];
    let configs = subsystem_configs(&names);
    assert_eq!(configs.len(), 3);
    for (c, n) in configs.iter().zip(names.iter()) {
        assert_eq!(&c.subsystem, n);
        assert_eq!(c.level, "Debug");
        assert!(c.private_data);
        assert_eq!(c.categories, vec!["behavior".to_string(), "scanner".to_string()]);
    }
    assert!(subsystem_configs(&Vec::new()).is_empty());
}

#[test]
fn profile_has_fixed_header_and_fresh_uuid() {
    let p = build_profile(&xprotect());
    assert_eq!(p.payload_identifier, "com.security.logging");
    assert_eq!(p.payload_type, "Configuration");
    assert_eq!(p.payload_version, 1);
    assert_eq!(p.payload_content.len(), 1);
    assert_eq!(p.payload_uuid.len(), 36);
    assert_eq!(p.payload_uuid.chars().nth(14), Some('4'));
    let q = LoggingProfile::new(Vec::new());
    assert_ne!(p.payload_uuid, q.payload_uuid);
    let r = LoggingProfile::with_uuid(vec![SubsystemConfig::new("x".to_string())], "id".to_string());
    assert_eq!(r.payload_uuid, "id");
    assert_eq!(r.payload_content[0].subsystem, "x");
}

#[test]
fn stage_checks_on_raw_output() {
    assert!(verify_logging_config(GOOD_STATUS.as_bytes()));
    assert!(!verify_logging_config(b"DEBUG only"));
    assert!(!verify_logging_config(b""));
    assert!(verify_subsystem_config(GOOD_DUMP.as_bytes(), GOOD_STATUS.as_bytes()));
    assert!(verify_subsystem_config(
        b"\"Enable-Logging\"=1;\t\"Category-Default-Enabled\"  =  1; Level=Debug; Private=1",
        b"DEBUG PRIVATE_DATA"
    ));
    assert!(!verify_subsystem_config(DUMP_WITHOUT_PRIVATE.as_bytes(), GOOD_STATUS.as_bytes()));
    assert!(!verify_subsystem_config(GOOD_DUMP.as_bytes(), b"PRIVATE_DATA"));
    assert!(verify_private_logs(GOOD_SAMPLE.as_bytes()));
    assert!(!verify_private_logs(b""));
    assert!(!verify_private_logs(b"value: <private>"));
}

#[test]
fn byte_search_edges() {
    assert!(contains_bytes(b"abc", b""));
    assert!(contains_bytes(b"", b""));
    assert!(!contains_bytes(b"", b"a"));
    assert!(contains_bytes(b"abcabd", b"abd"));
    assert!(!contains_bytes(b"ab", b"abc"));
    assert_eq!(without_blanks(b" a\tb\nc d "), b"abcd".to_vec());
}

#[test]
fn command_plans() {
    let sys: Vec<String> = apply_system_config().iter().map(describe).collect();
    assert_eq!(sys, vec![
        "log config --mode level:debug".to_string(),
        "defaults write /Library/Preferences/Logging/com.apple.system.logging System.Private-Data -bool true".to_string(),
    ]);
    let params: Vec<String> = set_logging_parameters().iter().map(describe).collect();
    assert_eq!(params.len(), 4);
    assert_eq!(params[1], "defaults write /Library/Preferences/Logging/com.apple.XProtect Level -string Debug");
    let restart: Vec<String> = restart_logging_service().iter().map(step_text).collect();
    assert_eq!(restart, vec!["log config --mode level:default", "killall logd", "sleep 2", "log config --mode level:debug", "sleep 1"]);
    let write: Vec<String> = write_profile("/tmp/x").iter().map(step_text).collect();
    assert_eq!(write, vec!["write /tmp/x/private_logging.plist", "chmod 644 /tmp/x/private_logging.plist"]);
}

#[test]
fn check_starts_at_status() {
    let (check, cmd) = ConfigCheck::start();
    assert_eq!(check.stage, CheckStage::Status);
    assert_eq!(describe(&cmd), "log config --status");
}
