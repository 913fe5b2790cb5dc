use yt_dlp_gui::command::build_args;
use yt_dlp_gui::command::get_format_command;
use yt_dlp_gui::command::resolve_tool_path;
use yt_dlp_gui::command::run_command;
use yt_dlp_gui::command::ArgError;
use yt_dlp_gui::command::PathError;
use yt_dlp_gui::command::RunCommandParam;
use yt_dlp_gui::command::RunError;
use yt_dlp_gui::platform::Platform;
use yt_dlp_gui::settings::Settings;
use yt_dlp_gui::supervisor::CommandManager;
use yt_dlp_gui::supervisor::SupervisorError;

const BEST: &str = "bestvideo[ext=mp4]+bestaudio[ext=m4a]/best[ext=mp4]/best";
const TARGET: &str = "/v/%(title)s.%(ext)s";

fn param(kind: i32) -> RunCommandParam {
    RunCommandParam {
        url: Some("https://example.com/watch".to_string()),
        kind,
        codec_id: None,
        subtitle_lang: None,
        is_cookie: false,
        arbitrary_code: None,
    }
}

fn args_of(p: &RunCommandParam) -> Vec<String> {
    build_args(p, "/v", "firefox").unwrap()
}

fn texts(list: &[&str]) -> Vec<String> {
    list.iter().map(|s| s.to_string()).collect()
}

#[test]
fn format_command_names_each_resolution() {
    assert_eq!(
        get_format_command(3),
        Ok("616+bestaudio/270+bestaudio/137+bestaudio/614+bestaudio/248+bestaudio/399+bestaudio".to_string())
    );
    assert_eq!(
        get_format_command(4),
        Ok("232+bestaudio/609+bestaudio/247+bestaudio/136+bestaudio/398+bestaudio".to_string())
    );
    assert_eq!(
        get_format_command(5),
        Ok("231+bestaudio/606+bestaudio/244+bestaudio/135+bestaudio/397+bestaudio".to_string())
    );
    assert_eq!(
        get_format_command(6),
        Ok("230+bestaudio/605+bestaudio/243+bestaudio/134+bestaudio/396+bestaudio".to_string())
    );
}

#[test]
fn format_command_of_another_kind_has_no_id() {
    assert_eq!(get_format_command(0), Ok("+bestaudio".to_string()));
    assert_eq!(get_format_command(7), Ok("+bestaudio".to_string()));
    assert_eq!(get_format_command(-3), Ok("+bestaudio".to_string()));
}

#[test]
fn args_for_the_best_video() {
    let want = texts(&["https://example.com/watch", "-o", TARGET, "-f", BEST, "--no-mtime", "--remote-components", "ejs:github"]);
    assert_eq!(args_of(&param(1)), want);
    assert_eq!(args_of(&param(10)), want);
}

#[test]
fn args_for_audio_only() {
    assert_eq!(
        args_of(&param(2)),
        texts(&["https://example.com/watch", "-o", TARGET, "-f", "bestaudio[ext=m4a]", "--no-mtime", "--remote-components", "ejs:github"])
    );
}

#[test]
fn args_for_a_resolution() {
    for kind in 3..=6 {
        let format = get_format_command(kind).unwrap();
        assert_eq!(
            args_of(&param(kind)),
            texts(&["https://example.com/watch", "-o", TARGET, "-f", &format, "--no-mtime", "--remote-components", "ejs:github"])
        );
    }
}

#[test]
fn args_for_listing_formats() {
    assert_eq!(
        args_of(&param(7)),
        texts(&["https://example.com/watch", "--list-formats", "--skip-download", "--remote-components", "ejs:github"])
    );
}

#[test]
fn args_for_a_chosen_codec() {
    let mut p = param(8);
    p.codec_id = Some("137+140".to_string());
    assert_eq!(
        args_of(&p),
        texts(&["https://example.com/watch", "-o", TARGET, "-f", "137+140", "--no-mtime", "--remote-components", "ejs:github"])
    );
}

#[test]
fn args_for_a_live_stream() {
    assert_eq!(
        args_of(&param(9)),
        texts(&["https://example.com/watch", "-o", TARGET, "--live-from-start", "-f", BEST, "--no-mtime", "--remote-components", "ejs:github"])
    );
}

#[test]
fn args_for_the_thumbnail() {
    assert_eq!(
        args_of(&param(11)),
        texts(&["https://example.com/watch", "-o", TARGET, "--write-thumbnail", "--skip-download", "--no-mtime", "--remote-components", "ejs:github"])
    );
}

#[test]
fn args_for_subtitles() {
    let mut p = param(12);
    p.subtitle_lang = Some("ja".to_string());
    assert_eq!(
        args_of(&p),
        texts(&["https://example.com/watch", "-o", TARGET, "--write-auto-sub", "--sub-lang", "ja", "--skip-download", "--remote-components", "ejs:github"])
    );
}

#[test]
fn args_for_arbitrary_code() {
    let mut p = param(13);
    p.arbitrary_code = Some("--version".to_string());
    assert_eq!(args_of(&p), texts(&["--version", "--remote-components", "ejs:github"]));
}

#[test]
fn args_with_cookies_name_the_browser() {
    let mut p = param(7);
    p.is_cookie = true;
    assert_eq!(
        build_args(&p, "/v", "chrome").unwrap(),
        texts(&["https://example.com/watch", "--list-formats", "--skip-download", "--cookies-from-browser", "chrome", "--remote-components", "ejs:github"])
    );
}

#[test]
fn a_missing_url_is_sent_as_not_set() {
    let mut p = param(7);
    p.url = None;
    assert_eq!(args_of(&p)[0], "not_set");
}

#[test]
fn requests_without_their_field_have_no_command_line() {
    assert_eq!(build_args(&param(8), "/v", "firefox"), Err(ArgError::CodecMissing));
    assert_eq!(build_args(&param(12), "/v", "firefox"), Err(ArgError::SubtitleMissing));
    assert_eq!(build_args(&param(13), "/v", "firefox"), Err(ArgError::CodeMissing));
    let mut p = param(8);
    p.codec_id = Some("not_set".to_string());
    assert_eq!(build_args(&p, "/v", "firefox"), Err(ArgError::CodecMissing));
}

#[test]
fn unknown_kinds_have_no_command_line() {
    for kind in [0, 14, -1, i32::MAX, i32::MIN] {
        assert_eq!(build_args(&param(kind), "/v", "firefox"), Err(ArgError::UnknownKind));
    }
}

#[test]
fn arg_errors_have_their_texts() {
    assert_eq!(ArgError::CodecMissing.message(), "コーデックIDが指定されていません");
    assert_eq!(ArgError::SubtitleMissing.message(), "字幕言語が指定されていません");
    assert_eq!(ArgError::CodeMissing.message(), "任意のコードが指定されていません");
    assert_eq!(ArgError::UnknownKind.message(), "不正な種類です");
}

#[test]
fn the_own_tool_needs_a_path() {
    let none: Result<Vec<String>, String> = Ok(Vec::new());
    assert_eq!(resolve_tool_path(false, "/bin/yt-dlp", &none).ok(), Some("/bin/yt-dlp".to_string()));
    assert!(matches!(resolve_tool_path(false, "", &none), Err(PathError::PathNotSet)));
    assert!(matches!(resolve_tool_path(false, "  \t", &none), Err(PathError::PathNotSet)));
}

#[test]
fn the_bundled_tool_is_the_first_path_found() {
    let found: Result<Vec<String>, String> = Ok(vec!["/b/yt-dlp".to_string(), "/b/ffmpeg".to_string()]);
    assert_eq!(resolve_tool_path(true, "/ignored", &found).ok(), Some("/b/yt-dlp".to_string()));
    let missing: Result<Vec<String>, String> = Ok(vec!["".to_string(), "/b/ffmpeg".to_string()]);
    assert!(matches!(resolve_tool_path(true, "/ignored", &missing), Err(PathError::BundleToolMissing)));
    let empty: Result<Vec<String>, String> = Ok(Vec::new());
    assert!(matches!(resolve_tool_path(true, "/ignored", &empty), Err(PathError::BundleToolMissing)));
    let failed: Result<Vec<String>, String> = Err("denied".to_string());
    match resolve_tool_path(true, "/ignored", &failed) {
        Err(PathError::BundleLookup(reason)) => assert_eq!(reason, "denied"),
        _ => panic!("the search failed"),
    }
}

#[test]
fn path_errors_have_their_texts() {
    assert_eq!(
        PathError::BundleLookup("denied".to_string()).message(),
        "バンドル版ツールの取得に失敗しました: denied"
    );
    assert_eq!(
        PathError::BundleToolMissing.message(),
        "バンドル版yt-dlpが見つかりません。ツールをダウンロードしてください。"
    );
    assert_eq!(
        PathError::PathNotSet.message(),
        "yt-dlpのパスが設定されていません。設定でパスを指定してください。"
    );
}

fn own_tools() -> Settings {
    let mut s = Settings::with_save_dir("/v".to_string());
    s.set_use_bundle_tools(false);
    s.set_yt_dlp_path("/bin/yt-dlp".to_string());
    s
}

#[test]
fn run_command_hands_out_the_launch() {
    let mut manager = CommandManager::new();
    let bundle: Result<Vec<String>, String> = Ok(Vec::new());
    let launch = run_command(&mut manager, &own_tools(), &bundle, &param(7), Platform::Unix).ok().unwrap();
    assert_eq!(launch.program, "/bin/yt-dlp");
    assert_eq!(
        launch.args,
        texts(&["https://example.com/watch", "--list-formats", "--skip-download", "--remote-components", "ejs:github"])
    );
    assert!(!manager.is_idle());
}

#[test]
fn run_command_is_refused_while_a_process_runs() {
    let mut manager = CommandManager::new();
    let bundle: Result<Vec<String>, String> = Ok(Vec::new());
    assert!(run_command(&mut manager, &own_tools(), &bundle, &param(7), Platform::Unix).is_ok());
    let second = run_command(&mut manager, &own_tools(), &bundle, &param(1), Platform::Unix);
    assert!(matches!(second, Err(RunError::Supervisor(SupervisorError::AlreadyRunning))));
    assert_eq!(second.err().unwrap().message(), "プロセスは既に実行中です");
}

#[test]
fn run_command_checks_the_request_before_the_supervisor() {
    let mut manager = CommandManager::new();
    let bundle: Result<Vec<String>, String> = Ok(Vec::new());
    let refused = run_command(&mut manager, &own_tools(), &bundle, &param(99), Platform::Unix);
    assert!(matches!(refused, Err(RunError::Args(ArgError::UnknownKind))));
    assert!(manager.is_idle());
    let settings = Settings::with_save_dir("/v".to_string());
    let no_tool = run_command(&mut manager, &settings, &bundle, &param(7), Platform::Unix);
    assert!(matches!(no_tool, Err(RunError::Path(PathError::BundleToolMissing))));
    assert!(manager.is_idle());
}
