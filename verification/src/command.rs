//! From a request of the user to the command line of the download tool.

use vstd::prelude::*;
use vstd::string::StringExecFns;

use crate::launch::Launch;
use crate::launch::launch_env;
use crate::launch::launch_flags;
use crate::platform::Platform;
use crate::settings::Settings;
use crate::supervisor::CommandManager;
use crate::supervisor::SupervisorError;
use crate::text::blank;
use crate::text::is_blank;
use crate::text::str_eq;

verus! {

/// What the user asks for.
pub struct RunCommandParam {
    pub url: Option<String>,
    /// What to do with the URL, 1 to 13.
    pub kind: i32,
    pub codec_id: Option<String>,
    pub subtitle_lang: Option<String>,
    /// Whether the browser's cookies are handed to the tool.
    pub is_cookie: bool,
    pub arbitrary_code: Option<String>,
}

/// Why a request cannot be turned into a command line.
#[derive(Clone, Copy, Debug, PartialEq, Eq, Structural)]
pub enum ArgError {
    /// A request for a chosen codec names none.
    CodecMissing,
    /// A request for subtitles names no language.
    SubtitleMissing,
    /// A request to pass arguments on holds none.
    CodeMissing,
    /// The request is of no known kind.
    UnknownKind,
}

/// The text that stands for a field that was left out.
pub open spec fn unset() -> Seq<char> {
    "not_set"@
}

/// A field's text, or [`unset`] where it was left out.
pub open spec fn or_unset(field: Option<Seq<char>>) -> Seq<char> {
    match field {
        Some(text) => text,
        None => unset(),
    }
}

/// The video formats that stand for a resolution: kinds 3 to 6 name one
/// each, best first. Any other kind has the single empty format.
pub open spec fn video_ids(kind: int) -> Seq<Seq<char>> {
    if kind == 3 {
        seq!["616"@, "270"@, "137"@, "614"@, "248"@, "399"@]
    } else if kind == 4 {
        seq!["232"@, "609"@, "247"@, "136"@, "398"@]
    } else if kind == 5 {
        seq!["231"@, "606"@, "244"@, "135"@, "397"@]
    } else if kind == 6 {
        seq!["230"@, "605"@, "243"@, "134"@, "396"@]
    } else {
        seq![Seq::empty()]
    }
}

/// Each format joined to the best audio, the alternatives parted by `/`.
pub open spec fn with_best_audio(ids: Seq<Seq<char>>) -> Seq<char>
    decreases ids.len(),
{
    if ids.len() == 0 {
        Seq::empty()
    } else if ids.len() == 1 {
        ids[0] + "+bestaudio"@
    } else {
        with_best_audio(ids.drop_last()) + "/"@ + ids.last() + "+bestaudio"@
    }
}

/// The format selection for a resolution.
pub open spec fn format_command(kind: int) -> Seq<char> {
    with_best_audio(video_ids(kind))
}

fn video_id_list(kind: i32) -> (ids: Vec<&'static str>)
    ensures
        ids.deep_view() == video_ids(kind as int),
{
    let ids = if kind == 3 {
        vec!["616", "270", "137", "614", "248", "399"]
    } else if kind == 4 {
        vec!["232", "609", "247", "136", "398"]
    } else if kind == 5 {
        vec!["231", "606", "244", "135", "397"]
    } else if kind == 6 {
        vec!["230", "605", "243", "134", "396"]
    } else {
        vec![""]
    };
    proof {
        reveal_strlit("");
        assert(""@ == Seq::<char>::empty());
        assert(ids.deep_view() =~= video_ids(kind as int));
    }
    ids
}

/// The format selection for `kind`. It never fails.
pub fn get_format_command(kind: i32) -> (r: Result<String, String>)
    ensures
        r is Ok,
        r->Ok_0@ == format_command(kind as int),
{
    let ids = video_id_list(kind);
    let mut out = String::new();
    let mut i: usize = 0;
    assert(with_best_audio(ids.deep_view().take(0)) == Seq::<char>::empty());
    while i < ids.len()
        invariant
            i <= ids@.len(),
            out@ == with_best_audio(ids.deep_view().take(i as int)),
        decreases ids@.len() - i,
    {
        let ghost before = out@;
        let ghost shorter = ids.deep_view().take(i as int);
        let ghost longer = ids.deep_view().take(i + 1);
        if i > 0 {
            out.append("/");
        }
        out.append(ids[i]);
        out.append("+bestaudio");
        proof {
            assert(longer.drop_last() == shorter);
            assert(longer.last() == ids@[i as int]@);
            if i == 0 {
                assert(before == Seq::<char>::empty());
                assert(out@ == longer[0] + "+bestaudio"@);
            } else {
                assert(out@ == before + "/"@ + longer.last() + "+bestaudio"@);
            }
        }
        i += 1;
    }
    assert(ids.deep_view().take(i as int) == ids.deep_view());
    Ok(out)
}

/// Where the tool writes a download: the title and the extension, under
/// the directory for downloads.
pub open spec fn output_template(save_dir: Seq<char>) -> Seq<char> {
    save_dir + "/%(title)s.%(ext)s"@
}

/// The best video with the best audio, as MP4 where there is one.
pub open spec fn best_mp4() -> Seq<char> {
    "bestvideo[ext=mp4]+bestaudio[ext=m4a]/best[ext=mp4]/best"@
}

/// The arguments that download `url` to `target` in the format `format`.
pub open spec fn fetch_args(url: Seq<char>, target: Seq<char>, format: Seq<char>) -> Seq<
    Seq<char>,
> {
    seq![url, "-o"@, target, "-f"@, format, "--no-mtime"@]
}

/// The mathematical content of [`RunCommandParam`].
pub struct ParamView {
    pub url: Option<Seq<char>>,
    pub kind: int,
    pub codec_id: Option<Seq<char>>,
    pub subtitle_lang: Option<Seq<char>>,
    pub is_cookie: bool,
    pub arbitrary_code: Option<Seq<char>>,
}

impl View for RunCommandParam {
    type V = ParamView;

    open spec fn view(&self) -> ParamView {
        ParamView {
            url: self.url.deep_view(),
            kind: self.kind as int,
            codec_id: self.codec_id.deep_view(),
            subtitle_lang: self.subtitle_lang.deep_view(),
            is_cookie: self.is_cookie,
            arbitrary_code: self.arbitrary_code.deep_view(),
        }
    }
}

/// Why `p` has no command line, if it has none.
pub open spec fn arg_error(p: ParamView) -> Option<ArgError> {
    if p.kind == 8 && or_unset(p.codec_id) == unset() {
        Some(ArgError::CodecMissing)
    } else if p.kind == 12 && or_unset(p.subtitle_lang) == unset() {
        Some(ArgError::SubtitleMissing)
    } else if p.kind == 13 && or_unset(p.arbitrary_code) == unset() {
        Some(ArgError::CodeMissing)
    } else if p.kind < 1 || p.kind > 13 {
        Some(ArgError::UnknownKind)
    } else {
        None
    }
}

/// The arguments that the kind of request asks for.
pub open spec fn kind_args(p: ParamView, save_dir: Seq<char>) -> Seq<Seq<char>> {
    let url = or_unset(p.url);
    let target = output_template(save_dir);
    if p.kind == 1 || p.kind == 10 {
        fetch_args(url, target, best_mp4())
    } else if p.kind == 2 {
        fetch_args(url, target, "bestaudio[ext=m4a]"@)
    } else if 3 <= p.kind <= 6 {
        fetch_args(url, target, format_command(p.kind))
    } else if p.kind == 7 {
        seq![url, "--list-formats"@, "--skip-download"@]
    } else if p.kind == 8 {
        fetch_args(url, target, or_unset(p.codec_id))
    } else if p.kind == 9 {
        seq![url, "-o"@, target, "--live-from-start"@, "-f"@, best_mp4(), "--no-mtime"@]
    } else if p.kind == 11 {
        seq![url, "-o"@, target, "--write-thumbnail"@, "--skip-download"@, "--no-mtime"@]
    } else if p.kind == 12 {
        seq![
            url,
            "-o"@,
            target,
            "--write-auto-sub"@,
            "--sub-lang"@,
            or_unset(p.subtitle_lang),
            "--skip-download"@,
        ]
    } else {
        seq![or_unset(p.arbitrary_code)]
    }
}

/// The arguments that every command line ends with: the browser whose
/// cookies are used, where asked for, and the remote components.
pub open spec fn closing_args(is_cookie: bool, browser: Seq<char>) -> Seq<Seq<char>> {
    if is_cookie {
        seq!["--cookies-from-browser"@, browser, "--remote-components"@, "ejs:github"@]
    } else {
        seq!["--remote-components"@, "ejs:github"@]
    }
}

/// The whole command line of a request that has one.
pub open spec fn command_line(p: ParamView, save_dir: Seq<char>, browser: Seq<char>) -> Seq<
    Seq<char>,
> {
    kind_args(p, save_dir) + closing_args(p.is_cookie, browser)
}

fn text_or_unset(field: &Option<String>) -> (text: String)
    ensures
        text@ == or_unset(field.deep_view()),
{
    match field {
        Some(text) => text.clone(),
        None => String::from_str("not_set"),
    }
}

fn push_arg(args: &mut Vec<String>, arg: &str)
    ensures
        final(args).deep_view() == old(args).deep_view().push(arg@),
{
    args.push(String::from_str(arg));
    assert(args.deep_view() =~= old(args).deep_view().push(arg@));
}

fn push_fetch(args: &mut Vec<String>, url: &str, target: &str, format: &str)
    ensures
        final(args).deep_view() == old(args).deep_view() + fetch_args(url@, target@, format@),
{
    push_arg(args, url);
    push_arg(args, "-o");
    push_arg(args, target);
    push_arg(args, "-f");
    push_arg(args, format);
    push_arg(args, "--no-mtime");
    assert(args.deep_view() =~= old(args).deep_view() + fetch_args(url@, target@, format@));
}

/// Turns a request into the command line of the download tool, which
/// downloads to `save_dir` and takes cookies from `browser`.
///
/// A request for a chosen codec, for subtitles or to pass arguments on
/// needs its own field, and a field that holds `not_set` counts as left
/// out.
pub fn build_args(param: &RunCommandParam, save_dir: &str, browser: &str) -> (r: Result<
    Vec<String>,
    ArgError,
>)
    ensures
        match arg_error(param@) {
            Some(e) => r == Err::<Vec<String>, ArgError>(e),
            None => r is Ok && r->Ok_0.deep_view() == command_line(param@, save_dir@, browser@),
        },
{
    let url = text_or_unset(&param.url);
    let codec_id = text_or_unset(&param.codec_id);
    let subtitle_lang = text_or_unset(&param.subtitle_lang);
    let arbitrary_code = text_or_unset(&param.arbitrary_code);
    let mut target = String::from_str(save_dir);
    target.append("/%(title)s.%(ext)s");
    let kind = param.kind;
    let mut args: Vec<String> = Vec::new();
    assert(args.deep_view() =~= Seq::<Seq<char>>::empty());
    if kind == 1 || kind == 10 {
        push_fetch(
            &mut args,
            url.as_str(),
            target.as_str(),
            "bestvideo[ext=mp4]+bestaudio[ext=m4a]/best[ext=mp4]/best",
        );
    } else if kind == 2 {
        push_fetch(&mut args, url.as_str(), target.as_str(), "bestaudio[ext=m4a]");
    } else if 3 <= kind && kind <= 6 {
        let format = match get_format_command(kind) {
            Ok(format) => format,
            Err(_) => String::new(),
        };
        push_fetch(&mut args, url.as_str(), target.as_str(), format.as_str());
    } else if kind == 7 {
        push_arg(&mut args, url.as_str());
        push_arg(&mut args, "--list-formats");
        push_arg(&mut args, "--skip-download");
    } else if kind == 8 {
        if str_eq(codec_id.as_str(), "not_set") {
            return Err(ArgError::CodecMissing);
        }
        push_fetch(&mut args, url.as_str(), target.as_str(), codec_id.as_str());
    } else if kind == 9 {
        push_arg(&mut args, url.as_str());
        push_arg(&mut args, "-o");
        push_arg(&mut args, target.as_str());
        push_arg(&mut args, "--live-from-start");
        push_arg(&mut args, "-f");
        push_arg(&mut args, "bestvideo[ext=mp4]+bestaudio[ext=m4a]/best[ext=mp4]/best");
        push_arg(&mut args, "--no-mtime");
    } else if kind == 11 {
        push_arg(&mut args, url.as_str());
        push_arg(&mut args, "-o");
        push_arg(&mut args, target.as_str());
        push_arg(&mut args, "--write-thumbnail");
        push_arg(&mut args, "--skip-download");
        push_arg(&mut args, "--no-mtime");
    } else if kind == 12 {
        if str_eq(subtitle_lang.as_str(), "not_set") {
            return Err(ArgError::SubtitleMissing);
        }
        push_arg(&mut args, url.as_str());
        push_arg(&mut args, "-o");
        push_arg(&mut args, target.as_str());
        push_arg(&mut args, "--write-auto-sub");
        push_arg(&mut args, "--sub-lang");
        push_arg(&mut args, subtitle_lang.as_str());
        push_arg(&mut args, "--skip-download");
    } else if kind == 13 {
        if str_eq(arbitrary_code.as_str(), "not_set") {
            return Err(ArgError::CodeMissing);
        }
        push_arg(&mut args, arbitrary_code.as_str());
    } else {
        return Err(ArgError::UnknownKind);
    }
    assert(args.deep_view() =~= kind_args(param@, save_dir@));
    if param.is_cookie {
        push_arg(&mut args, "--cookies-from-browser");
        push_arg(&mut args, browser);
    }
    push_arg(&mut args, "--remote-components");
    push_arg(&mut args, "ejs:github");
    assert(args.deep_view() =~= command_line(param@, save_dir@, browser@));
    Ok(args)
}

/// Why the download tool cannot be found.
pub enum PathError {
    /// The bundled tools could not be listed; the reason is kept.
    BundleLookup(String),
    /// The bundled tools are chosen and the download tool is not among
    /// them.
    BundleToolMissing,
    /// The user's own tools are chosen and no path is set.
    PathNotSet,
}

/// The path of the download tool.
///
/// With the bundled tools it is the first of `bundle`, the paths that the
/// search for them gave; with the user's own it is the path that was set.
/// A path that is blank counts as missing.
pub open spec fn tool_path(
    use_bundle_tools: bool,
    yt_dlp_path: Seq<char>,
    bundle: Result<Seq<Seq<char>>, Seq<char>>,
) -> Option<Seq<char>> {
    if use_bundle_tools {
        match bundle {
            Ok(paths) => if paths.len() > 0 && !blank(paths[0]) {
                Some(paths[0])
            } else {
                None
            },
            Err(_) => None,
        }
    } else if blank(yt_dlp_path) {
        None
    } else {
        Some(yt_dlp_path)
    }
}

/// The paths that the search for the bundled tools gave, or why it failed,
/// as mathematical values.
pub open spec fn bundle_view(bundle: Result<Vec<String>, String>) -> Result<
    Seq<Seq<char>>,
    Seq<char>,
> {
    match bundle {
        Ok(paths) => Ok(paths.deep_view()),
        Err(reason) => Err(reason@),
    }
}

/// The path of the download tool, or why there is none.
pub fn resolve_tool_path(
    use_bundle_tools: bool,
    yt_dlp_path: &str,
    bundle: &Result<Vec<String>, String>,
) -> (r: Result<String, PathError>)
    ensures
        match tool_path(use_bundle_tools, yt_dlp_path@, bundle_view(*bundle)) {
            Some(path) => r is Ok && r->Ok_0@ == path,
            None => r is Err,
        },
        r is Err ==> (if !use_bundle_tools {
            r->Err_0 is PathNotSet
        } else {
            match bundle {
                Ok(_) => r->Err_0 is BundleToolMissing,
                Err(reason) => r->Err_0 is BundleLookup && r->Err_0->BundleLookup_0@ == reason@,
            }
        }),
{
    if use_bundle_tools {
        match bundle {
            Err(reason) => Err(PathError::BundleLookup(reason.clone())),
            Ok(paths) => {
                if paths.len() == 0 {
                    return Err(PathError::BundleToolMissing);
                }
                assert(paths.deep_view()[0] == paths@[0]@);
                if is_blank(paths[0].as_str()) {
                    Err(PathError::BundleToolMissing)
                } else {
                    Ok(paths[0].clone())
                }
            },
        }
    } else if is_blank(yt_dlp_path) {
        Err(PathError::PathNotSet)
    } else {
        Ok(String::from_str(yt_dlp_path))
    }
}

impl ArgError {
    /// The text of the error for the user.
    pub open spec fn text(self) -> Seq<char> {
        match self {
            ArgError::CodecMissing => "コーデックIDが指定されていません"@,
            ArgError::SubtitleMissing => "字幕言語が指定されていません"@,
            ArgError::CodeMissing => "任意のコードが指定されていません"@,
            ArgError::UnknownKind => "不正な種類です"@,
        }
    }

    /// The text of the error for the user.
    pub fn message(&self) -> (text: String)
        ensures
            text@ == self.text(),
    {
        match self {
            ArgError::CodecMissing => String::from_str("コーデックIDが指定されていません"),
            ArgError::SubtitleMissing => String::from_str("字幕言語が指定されていません"),
            ArgError::CodeMissing => String::from_str("任意のコードが指定されていません"),
            ArgError::UnknownKind => String::from_str("不正な種類です"),
        }
    }
}

impl PathError {
    /// The text of the error for the user.
    pub open spec fn text(self) -> Seq<char> {
        match self {
            PathError::BundleLookup(reason) => "バンドル版ツールの取得に失敗しました: "@ + reason@,
            PathError::BundleToolMissing => "バンドル版yt-dlpが見つかりません。ツールをダウンロードしてください。"@,
            PathError::PathNotSet => "yt-dlpのパスが設定されていません。設定でパスを指定してください。"@,
        }
    }

    /// The text of the error for the user.
    pub fn message(&self) -> (text: String)
        ensures
            text@ == self.text(),
    {
        match self {
            PathError::BundleLookup(reason) => {
                String::from_str("バンドル版ツールの取得に失敗しました: ").concat(reason.as_str())
            },
            PathError::BundleToolMissing => {
                String::from_str("バンドル版yt-dlpが見つかりません。ツールをダウンロードしてください。")
            },
            PathError::PathNotSet => {
                String::from_str("yt-dlpのパスが設定されていません。設定でパスを指定してください。")
            },
        }
    }
}

/// Why a request to run the download tool is turned down.
pub enum RunError {
    /// The tool cannot be found.
    Path(PathError),
    /// The request has no command line.
    Args(ArgError),
    /// The supervisor refuses.
    Supervisor(SupervisorError),
}

impl RunError {
    /// The text of the error for the user.
    pub open spec fn text(self) -> Seq<char> {
        match self {
            RunError::Path(e) => e.text(),
            RunError::Args(e) => e.text(),
            RunError::Supervisor(e) => e.text(),
        }
    }

    /// The text of the error for the user.
    pub fn message(&self) -> (text: String)
        ensures
            text@ == self.text(),
    {
        match self {
            RunError::Path(e) => e.message(),
            RunError::Args(e) => e.message(),
            RunError::Supervisor(e) => e.message(),
        }
    }
}

/// Handles the request of the user to run the download tool.
///
/// The tool's path is looked for first, then the command line is built,
/// and last the supervisor is asked: a request that lacks the tool or has
/// no command line is turned down for that, whether or not a process
/// runs. `bundle` is what the search for the bundled tools gave; it is
/// looked at only where the settings choose them.
///
/// On success the supervisor has taken the slot and the launch to carry
/// out comes back; else the supervisor is as it was.
pub fn run_command(
    manager: &mut CommandManager,
    settings: &Settings,
    bundle: &Result<Vec<String>, String>,
    param: &RunCommandParam,
    platform: Platform,
) -> (r: Result<Launch, RunError>)
    ensures
        match tool_path(settings@.use_bundle_tools, settings@.yt_dlp_path, bundle_view(*bundle)) {
            None => r is Err && r->Err_0 is Path,
            Some(path) => match arg_error(param@) {
                Some(e) => r is Err && r->Err_0 == RunError::Args(e),
                None => if old(manager).slot() is Idle {
                    &&& r is Ok
                    &&& r->Ok_0.program@ == path
                    &&& r->Ok_0.args.deep_view() == command_line(
                        param@,
                        settings@.save_dir,
                        settings@.browser,
                    )
                    &&& r->Ok_0.env.deep_view() == launch_env(platform)
                    &&& r->Ok_0.creation_flags == launch_flags(platform)
                } else {
                    r is Err && r->Err_0 is Supervisor && r->Err_0->Supervisor_0 is AlreadyRunning
                },
            },
        },
        r is Ok ==> final(manager).slot() is Starting,
        r is Err ==> final(manager).slot() == old(manager).slot(),
        r is Err && r->Err_0 is Path ==> (if !settings@.use_bundle_tools {
            r->Err_0->Path_0 is PathNotSet
        } else {
            match *bundle {
                Ok(_) => r->Err_0->Path_0 is BundleToolMissing,
                Err(reason) => r->Err_0->Path_0 is BundleLookup
                    && r->Err_0->Path_0->BundleLookup_0@ == reason@,
            }
        }),
{
    let path = match resolve_tool_path(
        settings.use_bundle_tools,
        settings.yt_dlp_path.as_str(),
        bundle,
    ) {
        Ok(path) => path,
        Err(e) => {
            return Err(RunError::Path(e));
        },
    };
    let args = match build_args(param, settings.save_dir.as_str(), settings.browser.as_str()) {
        Ok(args) => args,
        Err(e) => {
            return Err(RunError::Args(e));
        },
    };
    match manager.start_command(args, path.as_str(), platform) {
        Ok(launch) => Ok(launch),
        Err(e) => Err(RunError::Supervisor(e)),
    }
}

} // verus!
