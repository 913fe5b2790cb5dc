use yt_dlp_gui::events::UiEvent;
use yt_dlp_gui::launch::Launch;
use yt_dlp_gui::launch::CREATE_NO_WINDOW;
use yt_dlp_gui::platform::Platform;
use yt_dlp_gui::supervisor::CommandManager;
use yt_dlp_gui::supervisor::ExitReport;
use yt_dlp_gui::supervisor::SpawnOutcome;
use yt_dlp_gui::supervisor::Stream;
use yt_dlp_gui::supervisor::SupervisorError;

fn args() -> Vec<String> {
    vec!["https://example.com".to_string(), "--list-formats".to_string()]
}

fn running(pid: u32) -> CommandManager {
    let mut manager = CommandManager::new();
    let launch = manager.start_command(args(), "/bin/yt-dlp", Platform::Unix).unwrap();
    manager.launched(SpawnOutcome::Started(pid), "/home/a", &launch.args).unwrap();
    manager
}

fn shown(events: &[UiEvent]) -> Vec<(String, String)> {
    events.iter().map(|e| (e.name().to_string(), e.payload().to_string())).collect()
}

fn pair(name: &str, payload: &str) -> (String, String) {
    (name.to_string(), payload.to_string())
}

#[test]
fn a_new_supervisor_is_idle() {
    let manager = CommandManager::new();
    assert!(manager.is_idle());
    assert_eq!(manager.pid(), None);
    assert!(!manager.is_stopping());
}

#[test]
fn start_hands_out_the_launch_for_unix() {
    let mut manager = CommandManager::new();
    let launch = manager.start_command(args(), "/bin/yt-dlp", Platform::Unix).unwrap();
    assert_eq!(launch.program, "/bin/yt-dlp");
    assert_eq!(launch.args, args());
    assert_eq!(
        launch.env,
        vec![
            ("LC_ALL".to_string(), "en_US.UTF-8".to_string()),
            ("LANG".to_string(), "en_US.UTF-8".to_string()),
        ]
    );
    assert_eq!(launch.creation_flags, 0);
    assert!(!manager.is_idle());
    assert_eq!(manager.pid(), None);
}

#[test]
fn start_hands_out_the_launch_for_windows() {
    let launch = Launch::new("yt-dlp.exe".to_string(), args(), Platform::Windows);
    assert_eq!(launch.program, "yt-dlp.exe");
    assert!(launch.env.is_empty());
    assert_eq!(launch.creation_flags, 0x0800_0000);
    assert_eq!(CREATE_NO_WINDOW, 0x0800_0000);
}

#[test]
fn a_second_start_is_refused_while_one_is_active() {
    let mut manager = CommandManager::new();
    assert!(manager.start_command(args(), "/bin/yt-dlp", Platform::Unix).is_ok());
    let second = manager.start_command(args(), "/bin/other", Platform::Unix);
    assert!(matches!(second, Err(SupervisorError::AlreadyRunning)));
    let mut manager = running(42);
    let third = manager.start_command(args(), "/bin/other", Platform::Unix);
    assert!(matches!(third, Err(SupervisorError::AlreadyRunning)));
    assert_eq!(manager.pid(), Some(42));
    assert!(!manager.is_stopping());
}

#[test]
fn a_launch_that_came_up_is_announced() {
    let mut manager = CommandManager::new();
    let launch = manager.start_command(args(), "/bin/yt-dlp", Platform::Unix).unwrap();
    let started = manager.launched(SpawnOutcome::Started(4711), "/home/a", &launch.args).unwrap();
    assert_eq!(started.pid, 4711);
    assert_eq!(started.banner.name(), "process-output");
    assert_eq!(started.banner.payload(), "/home/a>yt-dlp https://example.com --list-formats\n");
    assert_eq!(manager.pid(), Some(4711));
}

#[test]
fn a_launch_that_failed_frees_the_slot() {
    for (outcome, text) in [
        (SpawnOutcome::Failed("No such file".to_string()), "コマンドの実行に失敗しました: No such file"),
        (SpawnOutcome::NoProcessId, "プロセスIDの取得に失敗しました"),
        (SpawnOutcome::NoStdout, "標準出力の取得に失敗しました"),
        (SpawnOutcome::NoStderr, "標準エラーの取得に失敗しました"),
    ] {
        let mut manager = CommandManager::new();
        let launch = manager.start_command(args(), "/bin/yt-dlp", Platform::Unix).unwrap();
        let error = manager.launched(outcome, "/home/a", &launch.args).err().unwrap();
        assert_eq!(error.message(), text);
        assert!(manager.is_idle());
        assert!(manager.start_command(args(), "/bin/yt-dlp", Platform::Unix).is_ok());
    }
}

#[test]
fn a_launch_report_without_a_start_changes_nothing() {
    let mut manager = CommandManager::new();
    let error = manager.launched(SpawnOutcome::Started(1), "/", &args()).err().unwrap();
    assert!(matches!(error, SupervisorError::NotRunning));
    assert!(manager.is_idle());
    let mut manager = running(7);
    let error = manager.launched(SpawnOutcome::Started(8), "/", &args()).err().unwrap();
    assert!(matches!(error, SupervisorError::AlreadyRunning));
    assert_eq!(manager.pid(), Some(7));
}

#[test]
fn stop_on_an_idle_supervisor_is_not_running() {
    let mut manager = CommandManager::new();
    let error = manager.stop_command().err().unwrap();
    assert!(matches!(error, SupervisorError::NotRunning));
    assert_eq!(error.message(), "Command is not running.");
    assert!(manager.is_idle());
    assert!(!manager.is_stopping());
    assert!(manager.start_command(args(), "/bin/yt-dlp", Platform::Unix).is_ok());
}

#[test]
fn stop_before_the_process_is_up_is_not_running() {
    let mut manager = CommandManager::new();
    manager.start_command(args(), "/bin/yt-dlp", Platform::Unix).unwrap();
    assert!(matches!(manager.stop_command(), Err(SupervisorError::NotRunning)));
    assert!(!manager.is_idle());
}

#[test]
fn the_closing_events_wait_for_both_streams() {
    let mut manager = running(1);
    assert!(manager.process_exited(ExitReport::Exited).is_empty());
    assert!(!manager.is_idle());
    assert!(manager.stream_closed(Stream::Stdout).is_empty());
    assert!(!manager.is_idle());
    let events = manager.stream_closed(Stream::Stderr);
    assert_eq!(
        shown(&events),
        vec![pair("process-output", "\n"), pair("process-exit", "プロセス終了")]
    );
    assert!(manager.is_idle());
}

#[test]
fn the_closing_events_wait_for_the_exit() {
    let mut manager = running(1);
    assert!(manager.stream_closed(Stream::Stderr).is_empty());
    assert!(manager.stream_closed(Stream::Stdout).is_empty());
    assert!(!manager.is_idle());
    let events = manager.process_exited(ExitReport::Exited);
    assert_eq!(
        shown(&events),
        vec![pair("process-output", "\n"), pair("process-exit", "プロセス終了")]
    );
    assert!(manager.is_idle());
    assert!(manager.start_command(args(), "/bin/yt-dlp", Platform::Unix).is_ok());
}

#[test]
fn a_failed_wait_is_reported() {
    let mut manager = running(1);
    manager.stream_closed(Stream::Stdout);
    manager.stream_closed(Stream::Stderr);
    let events = manager.process_exited(ExitReport::WaitFailed("interrupted".to_string()));
    assert_eq!(shown(&events), vec![pair("process-exit", "プロセス終了エラー: interrupted")]);
    assert!(manager.is_idle());
}

#[test]
fn a_stop_is_carried_out_and_noticed() {
    let mut manager = running(1);
    assert!(manager.stop_command().is_ok());
    assert!(manager.is_stopping());
    assert_eq!(manager.pid(), Some(1));
    assert!(manager.process_exited(ExitReport::Killed).is_empty());
    assert!(manager.stream_closed(Stream::Stdout).is_empty());
    let events = manager.stream_closed(Stream::Stderr);
    assert_eq!(
        shown(&events),
        vec![
            pair("process-output", "プロセスを停止しました\n"),
            pair("process-exit", "プロセス終了"),
        ]
    );
    assert!(manager.is_idle());
    assert!(matches!(manager.stop_command(), Err(SupervisorError::NotRunning)));
}

#[test]
fn a_stop_that_cannot_be_signalled_is_taken_back() {
    let mut manager = running(1);
    assert!(manager.stop_command().is_ok());
    let error = manager.stop_failed("channel closed".to_string());
    assert_eq!(error.message(), "Failed to send stop signal: channel closed");
    assert!(!manager.is_stopping());
    assert_eq!(manager.pid(), Some(1));
}

#[test]
fn reports_that_come_twice_change_nothing() {
    let mut manager = running(1);
    assert!(manager.stream_closed(Stream::Stdout).is_empty());
    assert!(manager.stream_closed(Stream::Stdout).is_empty());
    assert!(manager.process_exited(ExitReport::Exited).is_empty());
    assert!(manager.process_exited(ExitReport::Killed).is_empty());
    assert!(!manager.is_idle());
    let events = manager.stream_closed(Stream::Stderr);
    assert_eq!(events.len(), 2);
    assert!(manager.is_idle());
    assert!(manager.stream_closed(Stream::Stderr).is_empty());
    assert!(manager.process_exited(ExitReport::Exited).is_empty());
    assert!(manager.is_idle());
}

#[test]
fn one_launch_is_in_flight_at_most() {
    let mut manager = CommandManager::new();
    let mut launches = 0;
    let mut closings = 0;
    for round in 0..50u32 {
        if let Ok(launch) = manager.start_command(args(), "/bin/yt-dlp", Platform::Unix) {
            launches += 1;
            manager.launched(SpawnOutcome::Started(round), "/", &launch.args).unwrap();
        }
        assert!(manager.start_command(args(), "/bin/yt-dlp", Platform::Unix).is_err());
        if round % 3 == 0 {
            let _ = manager.stop_command();
        }
        for step in 0..3 {
            let events = match (round + step) % 3 {
                0 => manager.stream_closed(Stream::Stdout),
                1 => manager.process_exited(ExitReport::Exited),
                _ => manager.stream_closed(Stream::Stderr),
            };
            if !events.is_empty() {
                closings += 1;
                assert_eq!(events.last().unwrap().name(), "process-exit");
            }
        }
        assert!(manager.is_idle());
        assert_eq!(launches, closings);
    }
    assert_eq!(launches, 50);
}
