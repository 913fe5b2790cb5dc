use yt_dlp_gui::verify::command_path;
use yt_dlp_gui::verify::probe_argument;
use yt_dlp_gui::verify::PersistedVerifyCache;
use yt_dlp_gui::verify::ProbeOutcome;
use yt_dlp_gui::verify::ToolVerifier;
use yt_dlp_gui::verify::VerifyInput;
use yt_dlp_gui::verify::VerifyStep;
use yt_dlp_gui::verify::VerifyStore;

const PATH: &str = "/opt/tools/yt-dlp";

/// Runs a whole check the way a caller does, against a file that was
/// modified at `mtime` (or is not there) and a tool that ends as `outcome`
/// says. Gives the result and how often the tool was run.
fn check(
    verifier: &mut ToolVerifier,
    store: &mut VerifyStore,
    tool: &str,
    path: &str,
    mtime: Option<u64>,
    outcome: fn() -> ProbeOutcome,
) -> (Result<String, String>, u32, u32) {
    let mut stats = 0;
    let mut runs = 0;
    let mut input = VerifyInput::Begin;
    loop {
        match verifier.verify(store, tool, path, input) {
            VerifyStep::Done(result) => return (result, stats, runs),
            VerifyStep::Stat => {
                stats += 1;
                input = VerifyInput::Stat(mtime);
            }
            VerifyStep::Probe { arg, modification_time } => {
                runs += 1;
                assert_eq!(Some(arg.as_str()), probe_argument(tool));
                assert_eq!(Some(modification_time), mtime);
                input = VerifyInput::Probed(modification_time, outcome());
            }
        }
    }
}

fn works() -> ProbeOutcome {
    ProbeOutcome::Succeeded
}

fn exits_with_2() -> ProbeOutcome {
    ProbeOutcome::Failed(Some(2))
}

fn exits_without_code() -> ProbeOutcome {
    ProbeOutcome::Failed(None)
}

fn cannot_run() -> ProbeOutcome {
    ProbeOutcome::NotStarted("Permission denied (os error 13)".to_string())
}

#[test]
fn each_tool_has_its_version_argument() {
    assert_eq!(probe_argument("yt-dlp"), Some("--version"));
    assert_eq!(probe_argument("ffmpeg"), Some("-version"));
    assert_eq!(probe_argument("deno"), None);
    assert_eq!(probe_argument(""), None);
    assert_eq!(probe_argument("YT-DLP"), None);
}

#[test]
fn the_path_of_a_program_defaults_to_its_name() {
    assert_eq!(command_path("ffmpeg", Some("/bin/ffmpeg")), "/bin/ffmpeg");
    assert_eq!(command_path("ffmpeg", None), "ffmpeg");
    assert_eq!(command_path("ffmpeg", Some("")), "");
}

#[test]
fn a_working_tool_is_found() {
    let mut verifier = ToolVerifier::new();
    let mut store = VerifyStore::new();
    let (result, stats, runs) = check(&mut verifier, &mut store, "yt-dlp", PATH, Some(100), works);
    assert_eq!(result, Ok("yt-dlp found at: /opt/tools/yt-dlp".to_string()));
    assert_eq!((stats, runs), (1, 1));
}

#[test]
fn an_unchanged_file_is_run_once() {
    let mut verifier = ToolVerifier::new();
    let mut store = VerifyStore::new();
    let first = check(&mut verifier, &mut store, "yt-dlp", PATH, Some(100), works);
    let second = check(&mut verifier, &mut store, "yt-dlp", PATH, Some(100), exits_with_2);
    assert_eq!(first.2, 1);
    assert_eq!(second.2, 0);
    assert_eq!(second.0, first.0);
}

#[test]
fn a_changed_file_is_run_again() {
    let mut verifier = ToolVerifier::new();
    let mut store = VerifyStore::new();
    check(&mut verifier, &mut store, "yt-dlp", PATH, Some(100), works);
    let second = check(&mut verifier, &mut store, "yt-dlp", PATH, Some(101), exits_with_2);
    assert_eq!(second.2, 1);
    assert_eq!(
        second.0,
        Err("yt-dlp is not working at path: /opt/tools/yt-dlp (exit code: 2)".to_string())
    );
    let third = check(&mut verifier, &mut store, "yt-dlp", PATH, Some(101), works);
    assert_eq!(third.2, 0);
    assert_eq!(third.0, second.0);
    let fourth = check(&mut verifier, &mut store, "yt-dlp", PATH, Some(100), works);
    assert_eq!(fourth.2, 1);
}

#[test]
fn an_empty_path_is_refused_at_once() {
    let mut verifier = ToolVerifier::new();
    let mut store = VerifyStore::new();
    for path in ["", "   ", "\t\n"] {
        let (result, stats, runs) = check(&mut verifier, &mut store, "yt-dlp", path, Some(1), works);
        assert_eq!(
            result,
            Err("yt-dlp bundle path is empty. Tools may not be downloaded yet.".to_string())
        );
        assert_eq!((stats, runs), (0, 0));
    }
    assert_eq!(store.len(), 0);
    for input in [VerifyInput::Stat(Some(1)), VerifyInput::Stat(None), VerifyInput::Probed(1, works())] {
        let step = verifier.verify(&mut store, "yt-dlp", "", input);
        assert!(matches!(step, VerifyStep::Done(Err(_))));
    }
    assert_eq!(store.len(), 0);
    assert!(store.get_cached_verification("yt-dlp").is_none());
}

#[test]
fn a_tool_that_cannot_be_checked_is_refused() {
    let mut verifier = ToolVerifier::new();
    let mut store = VerifyStore::new();
    let (result, stats, runs) = check(&mut verifier, &mut store, "curl", "/bin/curl", Some(1), works);
    assert_eq!(result, Err("Program curl is not supported".to_string()));
    assert_eq!((stats, runs), (0, 0));
    assert_eq!(store.len(), 0);
}

#[test]
fn a_missing_file_is_not_found_and_not_kept() {
    let mut verifier = ToolVerifier::new();
    let mut store = VerifyStore::new();
    let (result, stats, runs) = check(&mut verifier, &mut store, "ffmpeg", "/nowhere/ffmpeg", None, works);
    assert_eq!(result, Err("ffmpeg not found at path: /nowhere/ffmpeg".to_string()));
    assert_eq!((stats, runs), (1, 0));
    assert_eq!(store.len(), 0);
    let (_, _, runs) = check(&mut verifier, &mut store, "ffmpeg", "/nowhere/ffmpeg", Some(5), works);
    assert_eq!(runs, 1);
}

#[test]
fn failures_are_kept_too() {
    let mut verifier = ToolVerifier::new();
    let mut store = VerifyStore::new();
    let first = check(&mut verifier, &mut store, "ffmpeg", "/bin/ffmpeg", Some(9), exits_without_code);
    assert_eq!(
        first.0,
        Err("ffmpeg is not working at path: /bin/ffmpeg (exit code: -1)".to_string())
    );
    let again = check(&mut verifier, &mut store, "ffmpeg", "/bin/ffmpeg", Some(9), works);
    assert_eq!(again.0, first.0);
    assert_eq!(again.2, 0);
}

#[test]
fn a_tool_that_cannot_be_run_is_reported() {
    let mut verifier = ToolVerifier::new();
    let mut store = VerifyStore::new();
    let (result, _, runs) = check(&mut verifier, &mut store, "ffmpeg", "/bin/ffmpeg", Some(9), cannot_run);
    assert_eq!(
        result,
        Err("Failed to run ffmpeg at path /bin/ffmpeg: Permission denied (os error 13)".to_string())
    );
    assert_eq!(runs, 1);
    let slot = store.get_cached_verification("ffmpeg").unwrap();
    assert_eq!(slot.path, "/bin/ffmpeg");
    assert_eq!(slot.modification_time, 9);
    assert!(!slot.ok);
}

#[test]
fn the_store_answers_when_memory_is_lost() {
    let mut store = VerifyStore::new();
    let mut verifier = ToolVerifier::new();
    check(&mut verifier, &mut store, "yt-dlp", PATH, Some(100), works);
    let slot = store.get_cached_verification("yt-dlp").unwrap();
    assert_eq!(slot.path, PATH);
    assert_eq!(slot.modification_time, 100);
    assert!(slot.ok);

    let mut fresh = ToolVerifier::new();
    let answer = check(&mut fresh, &mut store, "yt-dlp", PATH, Some(100), exits_with_2);
    assert_eq!(answer.0, Ok("yt-dlp found at: /opt/tools/yt-dlp".to_string()));
    assert_eq!(answer.2, 0);

    let mut emptied = VerifyStore::new();
    let answer = check(&mut fresh, &mut emptied, "yt-dlp", PATH, Some(100), exits_with_2);
    assert_eq!(answer.0, Ok("yt-dlp found at: /opt/tools/yt-dlp".to_string()));
    assert_eq!(answer.2, 0);
}

#[test]
fn a_stored_failure_answers_without_its_exit_code() {
    let mut store = VerifyStore::new();
    store.set_cached_verification(
        "ffmpeg".to_string(),
        PersistedVerifyCache { path: "/bin/ffmpeg".to_string(), modification_time: 3, ok: false },
    );
    let mut verifier = ToolVerifier::new();
    let answer = check(&mut verifier, &mut store, "ffmpeg", "/bin/ffmpeg", Some(3), works);
    assert_eq!(answer.0, Err("ffmpeg is not working at path: /bin/ffmpeg".to_string()));
    assert_eq!(answer.2, 0);
}

#[test]
fn a_stored_slot_for_another_path_or_time_does_not_answer() {
    let mut store = VerifyStore::new();
    store.set_cached_verification(
        "ffmpeg".to_string(),
        PersistedVerifyCache { path: "/bin/ffmpeg".to_string(), modification_time: 3, ok: true },
    );
    let mut verifier = ToolVerifier::new();
    assert_eq!(check(&mut verifier, &mut store, "ffmpeg", "/opt/ffmpeg", Some(3), works).2, 1);
    let mut verifier = ToolVerifier::new();
    let mut store = VerifyStore::new();
    store.set_cached_verification(
        "ffmpeg".to_string(),
        PersistedVerifyCache { path: "/bin/ffmpeg".to_string(), modification_time: 3, ok: true },
    );
    assert_eq!(check(&mut verifier, &mut store, "ffmpeg", "/bin/ffmpeg", Some(4), works).2, 1);
}

#[test]
fn the_store_has_one_slot_for_each_tool() {
    let mut verifier = ToolVerifier::new();
    let mut store = VerifyStore::new();
    check(&mut verifier, &mut store, "yt-dlp", PATH, Some(1), works);
    check(&mut verifier, &mut store, "ffmpeg", "/bin/ffmpeg", Some(2), works);
    check(&mut verifier, &mut store, "yt-dlp", "/other/yt-dlp", Some(3), exits_with_2);
    assert_eq!(store.len(), 2);
    let (name, slot) = store.slot(0);
    assert_eq!(name, "yt-dlp");
    assert_eq!(slot.path, "/other/yt-dlp");
    assert_eq!(slot.modification_time, 3);
    assert!(!slot.ok);
    let (name, slot) = store.slot(1);
    assert_eq!(name, "ffmpeg");
    assert_eq!(slot.path, "/bin/ffmpeg");
    // Memory still answers for the first path, which the store has forgotten.
    assert_eq!(check(&mut verifier, &mut store, "yt-dlp", PATH, Some(1), exits_with_2).2, 0);
}
