use mxu_actions::clock::{plan_wait_until, seconds_until_target};
use mxu_actions::launch::{args_need_fallback, decode_launch, launch_arguments, launch_decision, LaunchDecision};
use mxu_actions::messages::webhook_delivered;
use mxu_actions::params::ParamError;
use mxu_actions::power::{power_command, PowerCommand, PowerOperation};
use mxu_actions::process::{
    kill_after_fallback, kill_after_primary, kill_primary, resolve_kill_target, CommandLine,
    CommandStatus, KillResolution, KillStep, KillTarget, Platform,
};
use mxu_actions::registry::{all_actions, count_failures, ActionName};
use mxu_actions::settings::{migrate_legacy_autostart, MigrationEvent, MigrationStep, ShellFlags};
use mxu_actions::text::{blank, parse_field_below, same_text, split_on_space};
use mxu_actions::wait::{CancellableWait, WaitOutcome, WaitStep, POLL_STEP_MS};

fn words(v: &[&str]) -> Vec<String> {
    v.iter().map(|s| s.to_string()).collect()
}

fn command(c: &CommandLine) -> (String, Vec<String>) {
    (c.program.clone(), c.args.clone())
}

#[test]
fn zero_wait_completes_without_sleeping() {
    let w = CancellableWait::new(0);
    assert_eq!(w.next_step(0, false), WaitStep::Finish(WaitOutcome::Completed));
    assert_eq!(w.next_step(0, true), WaitStep::Finish(WaitOutcome::Completed));
}

#[test]
fn wait_sleeps_in_poll_steps() {
    let w = CancellableWait::new(2);
    assert_eq!(w.total_ms, 2000);
    assert_eq!(w.next_step(0, false), WaitStep::Sleep(POLL_STEP_MS));
    assert_eq!(w.next_step(1900, false), WaitStep::Sleep(100));
    assert_eq!(w.next_step(1999, false), WaitStep::Sleep(1));
    assert_eq!(w.next_step(2000, false), WaitStep::Finish(WaitOutcome::Completed));
    assert_eq!(w.next_step(2150, false), WaitStep::Finish(WaitOutcome::Completed));
}

#[test]
fn stop_signal_interrupts_wait() {
    let w = CancellableWait::new(10);
    assert_eq!(w.next_step(0, true), WaitStep::Finish(WaitOutcome::Interrupted));
    assert_eq!(w.next_step(4200, true), WaitStep::Finish(WaitOutcome::Interrupted));
    assert_eq!(w.next_step(9999, true), WaitStep::Finish(WaitOutcome::Interrupted));
    assert_eq!(w.next_step(10000, true), WaitStep::Finish(WaitOutcome::Interrupted));
}

#[test]
fn stop_signal_at_the_last_look_interrupts() {
    // Clear at 800 ms, set at 900 ms: the look at 1000 ms reports it.
    let w = CancellableWait::new(1);
    assert_eq!(w.next_step(800, false), WaitStep::Sleep(200));
    assert_eq!(w.next_step(1000, true), WaitStep::Finish(WaitOutcome::Interrupted));
}

#[test]
fn long_wait_does_not_overflow() {
    let w = CancellableWait::new(u64::MAX);
    assert_eq!(w.total_ms, u64::MAX as u128 * 1000);
    assert_eq!(w.next_step(0, false), WaitStep::Sleep(200));
}

#[test]
fn target_earlier_today_waits_until_tomorrow() {
    // 09:00 now, 08:00 target, on a day starting at timestamp 0.
    assert_eq!(seconds_until_target(9 * 3600, 0, Some(8 * 3600), Some(8 * 3600 + 86400)), Ok(23 * 3600));
}

#[test]
fn next_day_target_follows_the_calendar() {
    // The clocks go forward overnight: 08:00 tomorrow is 23 hours after
    // 08:00 today, so from 09:00 the wait is 22 hours.
    assert_eq!(seconds_until_target(9 * 3600, 0, Some(8 * 3600), Some(8 * 3600 + 82800)), Ok(22 * 3600));
    // The clocks go back overnight: 08:00 tomorrow is 25 hours later.
    assert_eq!(seconds_until_target(9 * 3600, 0, Some(8 * 3600), Some(8 * 3600 + 90000)), Ok(24 * 3600));
}

#[test]
fn target_later_today_waits_same_day() {
    assert_eq!(seconds_until_target(9 * 3600, 0, Some(10 * 3600 + 30 * 60), None), Ok(5400));
    // Part of a second has passed: the whole seconds left are counted.
    assert_eq!(seconds_until_target(9 * 3600, 250_000_000, Some(9 * 3600 + 10), Some(9 * 3600 + 86410)), Ok(9));
}

#[test]
fn target_now_waits_until_the_next_day() {
    let next = Some(1_700_000_000 + 86400);
    assert_eq!(seconds_until_target(1_700_000_000, 0, Some(1_700_000_000), next), Ok(86400));
    assert_eq!(seconds_until_target(1_700_000_000, 5, Some(1_700_000_000), next), Ok(86399));
}

#[test]
fn ambiguous_local_time_fails() {
    assert_eq!(seconds_until_target(0, 0, None, Some(86400)), Err(ParamError::UnresolvableLocalTime));
    // Today's time has passed and tomorrow's is skipped or repeated.
    assert_eq!(seconds_until_target(9 * 3600, 0, Some(8 * 3600), None), Err(ParamError::UnresolvableLocalTime));
}

#[test]
fn wait_until_reads_the_local_clock() {
    match plan_wait_until("{\"target_time\":\"12:00\"}") {
        Ok(secs) => assert!(secs <= 2 * 86400),
        Err(e) => assert!(e == ParamError::UnresolvableLocalTime || e == ParamError::ClockUnavailable),
    }
    assert_eq!(plan_wait_until("{\"target_time\":\"25:00\"}"), Err(ParamError::InvalidHour));
    assert_eq!(plan_wait_until("{"), Err(ParamError::MalformedJson));
}

#[test]
fn empty_args_give_no_arguments() {
    assert!(launch_arguments("").is_empty());
    assert!(launch_arguments("  \t ").is_empty());
}

#[test]
fn quoted_args_stay_one_token() {
    assert_eq!(launch_arguments("--name \"My Folder\""), words(&["--name", "My Folder"]));
    assert_eq!(launch_arguments("-a 'b c' d\\ e"), words(&["-a", "b c", "d e"]));
}

#[test]
fn unclosed_quote_falls_back_to_white_space() {
    assert_eq!(launch_arguments("--name \"My Folder"), words(&["--name", "\"My", "Folder"]));
    assert!(args_need_fallback("--name \"My Folder"));
}

#[test]
fn readable_or_blank_args_need_no_fallback() {
    assert!(!args_need_fallback("--name \"My Folder\""));
    assert!(!args_need_fallback(""));
    assert!(!args_need_fallback("  \t "));
}

#[test]
fn skip_if_running_skips_spawn() {
    let spec = decode_launch("{\"program\":\"/opt/tool\",\"args\":\"-v x\",\"skip_if_running\":true}").unwrap();
    assert!(matches!(launch_decision(&spec, true), LaunchDecision::AlreadyRunning));
    match launch_decision(&spec, false) {
        LaunchDecision::Spawn { program, args, wait_for_exit } => {
            assert_eq!(program, "/opt/tool");
            assert_eq!(args, words(&["-v", "x"]));
            assert!(!wait_for_exit);
        }
        other => panic!("unexpected {:?}", other),
    }
    let plain = decode_launch("{\"program\":\"notepad\"}").unwrap();
    match launch_decision(&plain, true) {
        LaunchDecision::Spawn { args, .. } => assert!(args.is_empty()),
        other => panic!("unexpected {:?}", other),
    }
}

#[test]
fn webhook_any_response_is_delivery() {
    assert!(webhook_delivered(Some(200)));
    assert!(webhook_delivered(Some(500)));
    assert!(!webhook_delivered(None));
}

#[test]
fn kill_self_uses_executable_name() {
    match resolve_kill_target(KillTarget::OwnExecutable, Some("mxu.exe".to_string())) {
        KillResolution::ByName(n) => assert_eq!(n, "mxu.exe"),
        other => panic!("unexpected {:?}", other),
    }
    assert!(matches!(resolve_kill_target(KillTarget::OwnExecutable, None), KillResolution::ExitSelf));
    match resolve_kill_target(KillTarget::Named("game".to_string()), Some("mxu".to_string())) {
        KillResolution::ByName(n) => assert_eq!(n, "game"),
        other => panic!("unexpected {:?}", other),
    }
}

#[test]
fn kill_commands_per_platform() {
    assert_eq!(
        command(&kill_primary("game.exe", Platform::Windows)),
        ("taskkill".to_string(), words(&["/F", "/IM", "game.exe"]))
    );
    assert_eq!(command(&kill_primary("game", Platform::Unix)), ("killall".to_string(), words(&["game"])));
    assert_eq!(command(&kill_primary("game", Platform::MacOs)), ("killall".to_string(), words(&["game"])));
}

#[test]
fn kill_falls_back_to_pattern_match() {
    match kill_after_primary("game", Platform::Unix, CommandStatus::Exited(false)) {
        KillStep::Run(c) => assert_eq!(command(&c), ("pkill".to_string(), words(&["-f", "game"]))),
        other => panic!("unexpected {:?}", other),
    }
    assert!(matches!(kill_after_primary("game", Platform::Unix, CommandStatus::Exited(true)), KillStep::Finish(true)));
    assert!(matches!(kill_after_primary("game", Platform::Unix, CommandStatus::NotStarted), KillStep::Finish(false)));
    assert!(matches!(kill_after_primary("g", Platform::Windows, CommandStatus::Exited(false)), KillStep::Finish(false)));
    assert!(matches!(kill_after_primary("g", Platform::Windows, CommandStatus::Exited(true)), KillStep::Finish(true)));
    assert!(kill_after_fallback(CommandStatus::Exited(true)));
    assert!(!kill_after_fallback(CommandStatus::Exited(false)));
    assert!(!kill_after_fallback(CommandStatus::NotStarted));
}

fn run_of(c: PowerCommand) -> (String, Vec<String>) {
    match c {
        PowerCommand::Run(line) => command(&line),
        PowerCommand::MonitorOff => panic!("no command line"),
    }
}

#[test]
fn power_commands_per_platform() {
    assert_eq!(
        run_of(power_command(PowerOperation::Shutdown, Platform::Windows)),
        ("shutdown".to_string(), words(&["/s", "/f", "/t", "0"]))
    );
    assert_eq!(
        run_of(power_command(PowerOperation::Restart, Platform::Windows)),
        ("shutdown".to_string(), words(&["/r", "/f", "/t", "0"]))
    );
    assert!(matches!(power_command(PowerOperation::ScreenOff, Platform::Windows), PowerCommand::MonitorOff));
    assert_eq!(
        run_of(power_command(PowerOperation::Sleep, Platform::Windows)),
        ("rundll32.exe".to_string(), words(&["powrprof.dll,SetSuspendState", "0,1,0"]))
    );
    assert_eq!(
        run_of(power_command(PowerOperation::Shutdown, Platform::MacOs)),
        ("osascript".to_string(), words(&["-e", "tell app \"System Events\" to shut down"]))
    );
    assert_eq!(
        run_of(power_command(PowerOperation::Restart, Platform::MacOs)),
        ("osascript".to_string(), words(&["-e", "tell app \"System Events\" to restart"]))
    );
    assert_eq!(run_of(power_command(PowerOperation::ScreenOff, Platform::MacOs)), ("pmset".to_string(), words(&["displaysleepnow"])));
    assert_eq!(run_of(power_command(PowerOperation::Sleep, Platform::MacOs)), ("pmset".to_string(), words(&["sleepnow"])));
    assert_eq!(run_of(power_command(PowerOperation::Shutdown, Platform::Unix)), ("systemctl".to_string(), words(&["poweroff"])));
    assert_eq!(run_of(power_command(PowerOperation::Restart, Platform::Unix)), ("systemctl".to_string(), words(&["reboot"])));
    assert_eq!(
        run_of(power_command(PowerOperation::ScreenOff, Platform::Unix)),
        ("xset".to_string(), words(&["dpms", "force", "off"]))
    );
    assert_eq!(run_of(power_command(PowerOperation::Sleep, Platform::Unix)), ("systemctl".to_string(), words(&["suspend"])));
}

#[test]
fn registration_names_and_lookup() {
    let all = all_actions();
    assert_eq!(all.len(), 7);
    let names: Vec<&str> = all.iter().map(|a| a.registration_name()).collect();
    assert_eq!(
        names,
        vec![
            "MXU_SLEEP_ACTION",
            "MXU_WAITUNTIL_ACTION",
            "MXU_LAUNCH_ACTION",
            "MXU_WEBHOOK_ACTION",
            "MXU_NOTIFY_ACTION",
            "MXU_KILLPROC_ACTION",
            "MXU_POWER_ACTION"
        ]
    );
    for a in all {
        assert_eq!(ActionName::from_registration_name(a.registration_name()), Some(a));
    }
    assert_eq!(ActionName::from_registration_name("MXU_HIBERNATE_ACTION"), None);
}

#[test]
fn registration_failures_are_counted() {
    assert_eq!(count_failures(&[]), 0);
    assert_eq!(count_failures(&[true, false, true, false, false, true, true]), 3);
}

#[test]
fn shell_flags() {
    let mut f = ShellFlags::new();
    assert!(!f.get_minimize_to_tray());
    f.set_minimize_to_tray(true);
    assert!(f.get_minimize_to_tray());
    f.set_vcredist_missing(true);
    assert!(f.check_vcredist_missing());
    assert!(!f.check_vcredist_missing());
    assert!(f.get_minimize_to_tray());
}

#[test]
fn autostart_migration_steps() {
    assert_eq!(migrate_legacy_autostart(MigrationEvent::Start), MigrationStep::QueryLegacyEntry);
    assert_eq!(migrate_legacy_autostart(MigrationEvent::LegacyEntryFound(false)), MigrationStep::Done);
    assert_eq!(migrate_legacy_autostart(MigrationEvent::LegacyEntryFound(true)), MigrationStep::CreateScheduledTask);
    assert_eq!(migrate_legacy_autostart(MigrationEvent::TaskCreated(false)), MigrationStep::Done);
    assert_eq!(migrate_legacy_autostart(MigrationEvent::TaskCreated(true)), MigrationStep::RemoveLegacyEntry);
    assert_eq!(migrate_legacy_autostart(MigrationEvent::LegacyEntryRemoved), MigrationStep::Done);
}

#[test]
fn text_helpers() {
    assert!(blank(""));
    assert!(blank(" \t\n\u{3000}"));
    assert!(!blank(" a "));
    assert_eq!(split_on_space("  a  bc\td "), words(&["a", "bc", "d"]));
    assert!(split_on_space("   ").is_empty());
    assert_eq!(parse_field_below("23", 24), Some(23));
    assert_eq!(parse_field_below("24", 24), None);
    assert_eq!(parse_field_below("+0", 24), Some(0));
    assert_eq!(parse_field_below("", 24), None);
    assert!(same_text("abc", "abc"));
    assert!(!same_text("abc", "abd"));
    assert!(!same_text("abc", "ab"));
}
